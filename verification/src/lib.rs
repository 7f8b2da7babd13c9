//! A small Ctrl-C handling library.
//!
//! The core of the crate is the synchronization bridge between the OS's
//! restricted signal-delivery context and a normal execution context where a
//! user callback may run arbitrary code. The bridge rests on a notification
//! channel: a latch that a notifier sets and a waiter consumes, delivering at
//! least one more wake for any burst of notifications without queuing them.
//!
//! This crate holds the channel, the signal-set handling and the decision
//! steps of the dispatch loop, each with its contract; the OS registration
//! itself and the thread that runs the loop are left to the surrounding
//! program.

pub mod bridge;
pub mod channel;
pub mod protocol;
pub mod signals;

pub use bridge::CtrlC;
pub use channel::Channel;
pub use channel::ChannelState;
pub use signals::SignalSet;
