//! The notification channel: the rendezvous point between a notifier running
//! in a restricted signal context and a waiter running under normal rules.

use vstd::prelude::*;

verus! {

/// The two logical states of the notification channel: `Idle` while no
/// notification is pending, `Signaled` once a notifier has fired and no
/// waiter has consumed the event yet.
#[derive(Clone, Copy, Debug, PartialEq, Eq, Structural)]
pub enum ChannelState {
    Idle,
    Signaled,
}

/// What a notification does to the channel: whatever the state was, the
/// channel latches to `Signaled`. Notifying an already signaled channel is
/// idempotent, which is how bursts of notifications coalesce.
pub open spec fn notified(s: ChannelState) -> ChannelState {
    ChannelState::Signaled
}

/// What a waiter's consuming step does to the channel: the pending event, if
/// any, is taken, and the channel returns to `Idle`.
pub open spec fn consumed(s: ChannelState) -> ChannelState {
    ChannelState::Idle
}

/// A waiter may resume exactly when a notification is pending.
pub open spec fn wake_enabled(s: ChannelState) -> bool {
    s is Signaled
}

/// The channel itself. Its payload is a single latch recording only that
/// something happened since a waiter last checked; notifications carry no
/// further information and are not counted.
pub struct Channel {
    signaled: bool,
}

impl View for Channel {
    type V = ChannelState;

    closed spec fn view(&self) -> ChannelState {
        if self.signaled {
            ChannelState::Signaled
        } else {
            ChannelState::Idle
        }
    }
}

impl Channel {
    /// A fresh channel holds no pending notification: an event delivered
    /// before the channel existed leaves no trace in it.
    pub fn new() -> (c: Channel)
        ensures
            c@ is Idle,
    {
        Channel { signaled: false }
    }

    /// Record that an event occurred. This is the whole of the notifier's
    /// work: one store, no allocation, no loop, no failure path, the same
    /// outcome whether or not a notification was already pending.
    pub fn notify(&mut self)
        ensures
            final(self)@ == notified(old(self)@),
    {
        self.signaled = true;
    }

    /// Whether a notification is pending, i.e. whether a waiter would be
    /// allowed to resume right now.
    pub fn is_signaled(&self) -> (r: bool)
        ensures
            r == wake_enabled(self@),
    {
        self.signaled
    }

    /// The waiter's consuming step: report whether an event was pending and
    /// return the channel to `Idle` either way.
    pub fn consume(&mut self) -> (woken: bool)
        ensures
            woken == wake_enabled(old(self)@),
            final(self)@ == consumed(old(self)@),
    {
        let woken = self.signaled;
        self.signaled = false;
        woken
    }
}

} // verus!
