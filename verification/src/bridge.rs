//! The signal bridge: the decision steps that the two delivery styles —
//! the background callback loop of `set_handler` and the manual waiter of
//! `get_waiter` — perform on the notification channel each time the wait
//! primitive returns. The OS registration and the thread that drives the
//! loop are the surrounding program's work; every decision they follow is
//! here, with its contract.

use vstd::prelude::*;
use crate::channel::Channel;
use crate::channel::consumed;
use crate::channel::notified;
use crate::channel::wake_enabled;

verus! {

/// The Ctrl-C bridge. It holds no state of its own: its only persisted
/// effect, "a trampoline is registered for these signals", lives with the
/// OS, outside the process's data. What it owns is the protocol.
pub struct CtrlC;

impl CtrlC {
    /// The whole decision of the trampoline the OS invokes on a delivered
    /// signal: latch the notification — one store, no allocation, no loop,
    /// no failure path, fit for the restricted context — and report the
    /// signal as handled, so that on platforms that ask, no default action
    /// follows a signal this bridge covers.
    pub fn trampoline_step(channel: &mut Channel) -> (handled: bool)
        ensures
            final(channel)@ == notified(old(channel)@),
            handled,
    {
        channel.notify();
        true
    }

    /// One cycle of the background loop that `set_handler` starts: once the
    /// wait primitive has returned, take the pending event and report
    /// whether the user callback is to be invoked now. The callback runs
    /// exactly when a notification was pending, and the channel is left
    /// `Idle`, ready to latch the next signal — including one that arrives
    /// while the callback is still running.
    pub fn dispatch_step(channel: &mut Channel) -> (invoke: bool)
        ensures
            invoke == wake_enabled(old(channel)@),
            final(channel)@ == consumed(old(channel)@),
    {
        channel.consume()
    }

    /// One invocation of the operation that `get_waiter` hands back: the
    /// same consuming step as the background loop's, with no callback of its
    /// own — the caller decides what a wake means. The contract is the
    /// dispatch loop's, which is what makes the two delivery styles observe
    /// the same notifications.
    pub fn waiter_step(channel: &mut Channel) -> (woke: bool)
        ensures
            woke == wake_enabled(old(channel)@),
            final(channel)@ == consumed(old(channel)@),
    {
        channel.consume()
    }
}

} // verus!
