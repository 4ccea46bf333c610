//! A filesystem-change notification relay: the verified core.
//!
//! A server watches directory trees and streams change events to remote
//! clients. This library holds the part of that server worth proving: the
//! translation of raw observer notifications into wire events, the shared
//! registry of watches whose pump has not started yet, the wake-signal
//! protocol between registration and the dispatcher, and the per-event step
//! of a pump. The surrounding process — binding real observers, spawning
//! threads, carrying streams over the transport — performs each outside
//! action and feeds its outcome back into these verified steps.

pub mod dispatch;
pub mod event;
pub mod listen;
pub mod pump;

pub use crate::event::RawEvent;
pub use crate::event::WireEvent;
