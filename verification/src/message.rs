//! The values that travel through a mailbox and the outcomes of its operations.

use std::sync::Arc;
use vstd::prelude::*;

verus! {

/// A message for exactly one actor instance. Priority zero is the baseline
/// class and is delivered in arrival order; any other priority overtakes it.
#[derive(Debug, PartialEq, Eq)]
pub struct MessageToOneActor<M> {
    pub val: M,
    pub priority: u32,
}

/// What a sender hands to the mailbox.
#[derive(Debug, PartialEq, Eq)]
pub enum SentMessage<M> {
    ToOneActor(MessageToOneActor<M>),
    ToAllActors(Arc<M>),
}

/// Why a parked receiver was woken.
#[derive(Debug, PartialEq, Eq)]
pub enum WakeReason<M> {
    /// A message was put directly into the receiver's slot.
    MessageToOneActor(MessageToOneActor<M>),
    /// A broadcast arrived; the receiver fetches it at its own cursor.
    MessageToAllActors,
    /// The last strong sender is gone.
    Shutdown,
}

/// What a receiver obtains from the mailbox.
#[derive(Debug, PartialEq, Eq)]
pub enum ActorMessage<M> {
    ToOneActor(M),
    ToAllActors(Arc<M>),
    Shutdown,
}

/// The error reported to a sender.
#[derive(Debug, PartialEq, Eq, Structural)]
pub enum Error {
    Disconnected,
}

/// The progress of a suspended operation.
#[derive(Debug, PartialEq, Eq)]
pub enum Poll<T> {
    Ready(T),
    Pending,
}

/// Why `try_send` did not enqueue. `Full` carries the ticket of the waiter
/// that now holds the message.
#[derive(Debug, PartialEq, Eq, Structural)]
pub enum TrySendFail {
    Full(u64),
    Disconnected,
}

/// The outcome of an attempt to receive.
#[derive(Debug, PartialEq, Eq)]
pub enum TryRecv<M> {
    /// Something was received.
    Got(ActorMessage<M>),
    /// Nothing was available; a waiter with this ticket is parked.
    Empty(u64),
}

} // verus!
