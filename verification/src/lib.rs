//! A bounded, prioritised, broadcast-capable mailbox channel for actors,
//! written as a sequential state machine: every operation takes the channel
//! by exclusive reference and says exactly how the channel changes.
//!
//! `model` holds the mathematical state and its transitions, `chan`,
//! `receive` and `tickets` the operations on the mailbox, `tx` and `rx` the
//! handles and suspended operations, and `laws` what holds of all of them.

pub mod message;
pub mod notice;
pub mod waiting;
pub mod model;
pub mod chan;
pub mod receive;
pub mod tickets;
pub mod refcount;
pub mod tx;
pub mod rx;
pub mod laws;
