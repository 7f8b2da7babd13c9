//! The delivery protocol over the notification channel, stated as a trace
//! model: which interleavings of signal arrivals and waiter wakes the system
//! can produce, and what the channel guarantees over every such trace.

use vstd::prelude::*;
use crate::channel::ChannelState;
use crate::channel::notified;
use crate::channel::consumed;
use crate::channel::wake_enabled;

verus! {

/// One observable event at the channel: a signal arriving (the restricted
/// context notifying) or the waiting context resuming from its wait and
/// consuming the pending notification.
#[derive(Clone, Copy, Debug, PartialEq, Eq, Structural)]
pub enum Event {
    Signal,
    Wake,
}

/// The channel state after one event.
pub open spec fn step(s: ChannelState, e: Event) -> ChannelState {
    match e {
        Event::Signal => notified(s),
        Event::Wake => consumed(s),
    }
}

/// The channel state after a whole trace of events.
pub open spec fn run(s: ChannelState, t: Seq<Event>) -> ChannelState
    decreases t.len(),
{
    if t.len() == 0 {
        s
    } else {
        run(step(s, t.first()), t.drop_first())
    }
}

/// A trace the real system can produce: the waiting context resumes only
/// when a notification is pending at that moment.
pub open spec fn valid_trace(s: ChannelState, t: Seq<Event>) -> bool
    decreases t.len(),
{
    t.len() == 0 || {
        &&& (t.first() is Wake ==> wake_enabled(s))
        &&& valid_trace(step(s, t.first()), t.drop_first())
    }
}

/// How many signals arrive over a trace.
pub open spec fn signal_count(t: Seq<Event>) -> nat
    decreases t.len(),
{
    if t.len() == 0 {
        0
    } else {
        (if t.first() is Signal {
            1nat
        } else {
            0nat
        }) + signal_count(t.drop_first())
    }
}

/// How many times the waiting context wakes over a trace.
pub open spec fn wake_count(t: Seq<Event>) -> nat
    decreases t.len(),
{
    if t.len() == 0 {
        0
    } else {
        (if t.first() is Wake {
            1nat
        } else {
            0nat
        }) + wake_count(t.drop_first())
    }
}

/// A burst: `n` signals arriving back to back, with no wake in between.
pub open spec fn burst(n: nat) -> Seq<Event> {
    Seq::new(n, |i: int| Event::Signal)
}

/// How many times the background loop started by `set_handler` invokes the
/// user callback over a trace: exactly once each time its wait returns.
pub open spec fn dispatcher_invocations(t: Seq<Event>) -> nat
    decreases t.len(),
{
    if t.len() == 0 {
        0
    } else if t.first() is Wake {
        1 + dispatcher_invocations(t.drop_first())
    } else {
        dispatcher_invocations(t.drop_first())
    }
}

/// How many times a manual waiter obtained from `get_waiter` returns to its
/// caller over a trace: exactly once each time its wait returns, with no
/// callback of its own.
pub open spec fn waiter_returns(t: Seq<Event>) -> nat
    decreases t.len(),
{
    if t.len() == 0 {
        0
    } else if t.first() is Wake {
        1 + waiter_returns(t.drop_first())
    } else {
        waiter_returns(t.drop_first())
    }
}

/// A trace made of two parts is producible exactly when the first part is
/// and the second part is from where the first part left the channel.
pub proof fn lemma_valid_concat(s: ChannelState, t1: Seq<Event>, t2: Seq<Event>)
    ensures
        valid_trace(s, t1 + t2) <==> (valid_trace(s, t1) && valid_trace(run(s, t1), t2)),
    decreases t1.len(),
{
    if t1.len() == 0 {
        assert(t1 + t2 =~= t2);
    } else {
        assert((t1 + t2).first() == t1.first());
        assert((t1 + t2).drop_first() =~= t1.drop_first() + t2);
        lemma_valid_concat(step(s, t1.first()), t1.drop_first(), t2);
    }
}

/// Signals arrive whenever the OS delivers them: a burst is producible from
/// any channel state.
pub proof fn lemma_burst_valid(s: ChannelState, n: nat)
    ensures
        valid_trace(s, burst(n)),
    decreases n,
{
    if n != 0 {
        assert(burst(n).first() == Event::Signal);
        assert(burst(n).drop_first() =~= burst((n - 1) as nat));
        lemma_burst_valid(step(s, Event::Signal), (n - 1) as nat);
    }
}

/// Notifying an already notified channel changes nothing: the latch is
/// idempotent, so back-to-back notifications coalesce rather than queue.
pub proof fn lemma_notify_idempotent(s: ChannelState)
    ensures
        notified(notified(s)) == notified(s),
{
}

/// After a burst of one or more signals, whatever the channel held before
/// the burst, a notification is pending: the waiting context is due at least
/// one more wake. The whole burst leaves the channel exactly as a single
/// signal would, which is the coalescing of wakes.
pub proof fn lemma_burst_leaves_wake_pending(s: ChannelState, n: nat)
    requires
        n >= 1,
    ensures
        wake_enabled(run(s, burst(n))),
        run(s, burst(n)) == run(s, burst(1)),
    decreases n,
{
    assert(burst(n).first() == Event::Signal);
    if n == 1 {
        assert(burst(1).drop_first() =~= burst(0));
    } else {
        assert(burst(n).drop_first() =~= burst((n - 1) as nat));
        lemma_burst_leaves_wake_pending(step(s, Event::Signal), (n - 1) as nat);
        assert(burst(1).drop_first() =~= burst(0));
    }
}

/// Whatever has happened so far, a burst of one or more signals is never
/// lost: the waiting context can always wake once more after it. Stated over
/// whole histories — any producible trace, extended by the burst and then by
/// one wake, is again a producible trace.
pub proof fn lemma_one_more_wake(s: ChannelState, t: Seq<Event>, n: nat)
    requires
        valid_trace(s, t),
        n >= 1,
    ensures
        valid_trace(s, t + burst(n).push(Event::Wake)),
{
    let ext = burst(n).push(Event::Wake);
    let after = run(s, t);
    assert(ext =~= burst(n) + seq![Event::Wake]);
    lemma_burst_valid(after, n);
    lemma_burst_leaves_wake_pending(after, n);
    let w = seq![Event::Wake];
    let reached = run(after, burst(n));
    assert(w.len() == 1);
    assert(w.first() == Event::Wake);
    assert(w.drop_first().len() == 0);
    assert(valid_trace(step(reached, Event::Wake), w.drop_first()));
    assert(wake_enabled(reached));
    assert(valid_trace(reached, w));
    lemma_valid_concat(after, burst(n), w);
    lemma_valid_concat(s, t, ext);
}

/// Exactly one signal delivered once the channel exists (it starts `Idle`)
/// leaves a notification pending, so the next wait of the dispatch loop
/// returns and the callback is invoked at least once.
pub proof fn lemma_single_signal_fires()
    ensures
        wake_enabled(run(ChannelState::Idle, burst(1))),
{
    lemma_burst_leaves_wake_pending(ChannelState::Idle, 1);
}

/// A channel that begins `Idle` and receives no signal produces no wake: the
/// callback is never invoked without a notification arriving first. In
/// particular a signal delivered before the channel began carries over no
/// effect, since a fresh channel is `Idle`.
pub proof fn lemma_no_signal_no_wake(t: Seq<Event>)
    requires
        valid_trace(ChannelState::Idle, t),
        signal_count(t) == 0,
    ensures
        wake_count(t) == 0,
{
    if t.len() != 0 {
        assert(!(t.first() is Signal));
        assert(!wake_enabled(ChannelState::Idle));
        assert(false);
    }
}

/// Over any trace the system can produce, wakes never outnumber the signals
/// delivered plus the one event that may already have been pending at the
/// start: each notification is delivered at most once, never re-delivered.
pub proof fn lemma_wakes_need_signals(s: ChannelState, t: Seq<Event>)
    requires
        valid_trace(s, t),
    ensures
        wake_count(t) <= signal_count(t) + (if wake_enabled(s) {
            1nat
        } else {
            0nat
        }),
    decreases t.len(),
{
    if t.len() != 0 {
        lemma_wakes_need_signals(step(s, t.first()), t.drop_first());
    }
}

/// Driving the channel with the background loop of `set_handler` or with the
/// manual waiter of `get_waiter` observes the same notifications: over any
/// trace, the callback invocations of the one and the returns of the other
/// agree, and both equal the number of wakes the trace grants.
pub proof fn lemma_waiter_equivalence(t: Seq<Event>)
    ensures
        dispatcher_invocations(t) == waiter_returns(t),
        dispatcher_invocations(t) == wake_count(t),
    decreases t.len(),
{
    if t.len() != 0 {
        lemma_waiter_equivalence(t.drop_first());
    }
}

} // verus!
