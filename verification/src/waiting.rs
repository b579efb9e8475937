//! Waiters: the rendezvous records of parked senders and receivers.

use crate::message::SentMessage;
use crate::message::WakeReason;
use vstd::prelude::*;

verus! {

/// The slot of a parked sender.
#[derive(Debug, PartialEq, Eq)]
pub enum WaitingSenderInner<M> {
    /// The message has not been taken yet.
    New(SentMessage<M>),
    /// The message was moved into the mailbox.
    Delivered,
    /// The mailbox lost its receivers; the message was discarded.
    Closed,
}

/// A sender parked on a full mailbox. It holds the message until the
/// mailbox takes it, and the waker of the suspended send operation.
#[derive(Debug, PartialEq, Eq)]
pub struct WaitingSender<M, W> {
    pub ticket: u64,
    pub waker: Option<W>,
    pub message: WaitingSenderInner<M>,
}

impl<M, W> WaitingSender<M, W> {
    /// Whether the message is still in the slot.
    pub open spec fn is_new(&self) -> bool {
        self.message is New
    }

    /// The message in the slot of a waiter that is still new.
    pub open spec fn pending(&self) -> SentMessage<M>
        recommends
            self.is_new(),
    {
        self.message->New_0
    }

    /// The waiter after its message was taken: no waker, and marked delivered
    /// or closed.
    pub open spec fn settled(self, is_delivered: bool) -> Self {
        WaitingSender {
            ticket: self.ticket,
            waker: None,
            message: if is_delivered {
                WaitingSenderInner::Delivered
            } else {
                WaitingSenderInner::Closed
            },
        }
    }

    /// A new waiter that holds `message` and has no waker yet.
    pub fn new(ticket: u64, message: SentMessage<M>) -> (waiter: Self)
        ensures
            waiter.ticket == ticket,
            waiter.waker is None,
            waiter.message == WaitingSenderInner::New(message),
    {
        WaitingSender { ticket, waker: None, message: WaitingSenderInner::New(message) }
    }

    /// The message that is waiting to be sent.
    pub fn peek(&self) -> (message: &SentMessage<M>)
        requires
            self.is_new(),
        ensures
            *message == self.pending(),
    {
        match &self.message {
            WaitingSenderInner::New(msg) => msg,
            _ => vstd::pervasive::unreached(),
        }
    }

    /// Takes the message out of the slot and the waker out of the waiter, and
    /// marks the waiter delivered or closed. The caller wakes the waker.
    pub fn fulfill(&mut self, is_delivered: bool) -> (taken: (SentMessage<M>, Option<W>))
        requires
            old(self).is_new(),
        ensures
            taken.0 == old(self).pending(),
            taken.1 == old(self).waker,
            *final(self) == old(self).settled(is_delivered),
    {
        let waker = self.waker.take();
        let mut slot = if is_delivered {
            WaitingSenderInner::Delivered
        } else {
            WaitingSenderInner::Closed
        };
        core::mem::swap(&mut self.message, &mut slot);
        match slot {
            WaitingSenderInner::New(msg) => (msg, waker),
            _ => vstd::pervasive::unreached(),
        }
    }
}

/// A receiver parked on an empty mailbox. `reason` is `None` until the
/// mailbox fills the slot.
#[derive(Debug, PartialEq, Eq)]
pub struct WaitingReceiver<M, W> {
    pub ticket: u64,
    pub waker: Option<W>,
    pub reason: Option<WakeReason<M>>,
}

impl<M, W> WaitingReceiver<M, W> {
    /// Whether the slot is still empty.
    pub open spec fn is_new(&self) -> bool {
        self.reason is None
    }

    /// The waiter after its slot was filled with `reason`: no waker left.
    pub open spec fn settled(self, reason: WakeReason<M>) -> Self {
        WaitingReceiver { ticket: self.ticket, waker: None, reason: Some(reason) }
    }

    /// A new waiter with an empty slot and no waker yet.
    pub fn new(ticket: u64) -> (waiter: Self)
        ensures
            waiter == (WaitingReceiver::<M, W> { ticket, waker: None, reason: None }),
    {
        WaitingReceiver { ticket, waker: None, reason: None }
    }

    /// Fills the slot and takes the waker out. The caller wakes the waker.
    pub fn fulfill(&mut self, reason: WakeReason<M>) -> (waker: Option<W>)
        requires
            old(self).is_new(),
        ensures
            waker == old(self).waker,
            *final(self) == old(self).settled(reason),
    {
        let waker = self.waker.take();
        self.reason = Some(reason);
        waker
    }
}

} // verus!
