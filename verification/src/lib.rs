//! A multi-waiter broadcast notification primitive.
//!
//! A `NotifyOwned` value holds a monotonic (wrapping) version counter and a
//! slot table of pending wake callbacks, each identified by an opaque token.
//! Waiters register a token to be handed back by the next broadcast; a
//! broadcast drains every slot and advances the version, so that a waiter's
//! cached slot index can be recognised as stale and never reused.

pub mod notify;
pub mod slots;

pub use crate::notify::NotifyOwned;
pub use crate::notify::Registration;
pub use crate::notify::Waiter;
pub use crate::slots::MAX_SLOTS;
