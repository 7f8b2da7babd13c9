use ctrlc::Channel;
use ctrlc::CtrlC;

#[test]
fn channel_starts_idle() {
    // A fresh channel carries no pending event, whatever happened before it
    // existed: the first wait would block, not spuriously wake.
    let mut channel = Channel::new();
    assert!(!channel.is_signaled());
    assert!(!channel.consume());
}

#[test]
fn single_signal_fires() {
    // One signal after setup: the dispatch loop's next cycle invokes the
    // callback.
    let mut channel = Channel::new();
    channel.notify();
    assert!(channel.is_signaled());
    assert!(CtrlC::dispatch_step(&mut channel));
}

#[test]
fn trampoline_relays_to_dispatch() {
    // The full relay: the trampoline latches the event and reports the
    // signal handled; the dispatch loop's next cycle invokes the callback.
    let mut channel = Channel::new();
    assert!(CtrlC::trampoline_step(&mut channel));
    assert!(channel.is_signaled());
    assert!(CtrlC::dispatch_step(&mut channel));
    assert!(!CtrlC::dispatch_step(&mut channel));
}

#[test]
fn notify_is_idempotent() {
    let mut channel = Channel::new();
    channel.notify();
    channel.notify();
    assert!(channel.is_signaled());
    assert!(channel.consume());
    assert!(!channel.consume());
}

#[test]
fn burst_grants_one_more_wake() {
    // The loop is busy running the callback (it has consumed the first
    // event) while three more signals arrive: afterwards it wakes at least
    // once more, and the burst coalesces into that single wake.
    let mut channel = Channel::new();
    channel.notify();
    assert!(CtrlC::dispatch_step(&mut channel));
    channel.notify();
    channel.notify();
    channel.notify();
    assert!(CtrlC::dispatch_step(&mut channel));
    assert!(!CtrlC::dispatch_step(&mut channel));
}

#[test]
fn dispatch_scenario_clears_flag() {
    // The canonical usage: a callback that clears a shared flag. One signal,
    // one dispatch cycle, and the flag is observed cleared.
    let mut running = true;
    let mut channel = Channel::new();
    channel.notify();
    if CtrlC::dispatch_step(&mut channel) {
        running = false;
    }
    assert!(!running);
}

#[test]
fn waiter_observes_what_dispatch_would() {
    // The same signal pattern driven once through the background loop's step
    // and once through the manual waiter's step: the observed wakes agree.
    let pattern: [usize; 5] = [1, 0, 3, 0, 1];
    let mut loop_channel = Channel::new();
    let mut waiter_channel = Channel::new();
    let mut invocations: Vec<bool> = Vec::new();
    let mut returns: Vec<bool> = Vec::new();
    for arrivals in pattern {
        for _ in 0..arrivals {
            loop_channel.notify();
            waiter_channel.notify();
        }
        invocations.push(CtrlC::dispatch_step(&mut loop_channel));
        returns.push(CtrlC::waiter_step(&mut waiter_channel));
    }
    assert_eq!(invocations, returns);
    assert_eq!(invocations, vec![true, false, true, false, true]);
}

#[test]
fn second_registration_consumes_first() {
    // Two dispatch loops set up over the same channel: a single signal is a
    // single latched event, so whichever loop takes its step first invokes
    // its callback and the other finds the channel idle. Which callback that
    // is depends on scheduling; what holds is that the event is delivered
    // and not delivered twice.
    let mut shared = Channel::new();
    shared.notify();
    let first = CtrlC::dispatch_step(&mut shared);
    let second = CtrlC::dispatch_step(&mut shared);
    assert!(first);
    assert!(!second);
}
