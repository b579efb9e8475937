//! The receiving side: receiver instances and the suspended receive
//! operation.

use crate::chan::Chan;
use crate::message::ActorMessage;
use crate::message::Poll;
use crate::message::TryRecv;
use crate::message::WakeReason;
use crate::model::ChanView;
use crate::tickets::lemma_receiver_position_bounds;
use crate::tickets::lemma_receiver_position_found;
use vstd::prelude::*;

verus! {

/// One receiver instance of a mailbox, known by its number. Every
/// instance sees every broadcast sent while it exists, once and in order.
pub struct Receiver {
    pub id: usize,
}

/// The state of a receive operation.
#[derive(Debug, PartialEq, Eq)]
pub enum RecvFutureInner {
    /// Not polled yet.
    New,
    /// Parked in the mailbox under this ticket.
    Waiting(u64),
    /// Finished.
    Complete,
}

/// A receive operation of one receiver instance.
#[must_use]
pub struct RecvFuture {
    pub rx: usize,
    pub inner: RecvFutureInner,
}

/// The mailbox after instance `id` attempted to receive and, if it had to
/// park, installed `waker` on its waiter.
pub open spec fn attempted_chan<M, W>(chan: ChanView<M, W>, id: int, waker: W) -> ChanView<M, W> {
    match chan.recv_outcome(id) {
        TryRecv::Empty(ticket) => chan.received(id).receiver_polled(ticket, waker),
        TryRecv::Got(_) => chan.received(id),
    }
}

/// What an attempt of instance `id` to receive reports to a poll.
pub open spec fn attempted_outcome<M, W>(chan: ChanView<M, W>, id: int) -> Poll<ActorMessage<M>> {
    match chan.recv_outcome(id) {
        TryRecv::Empty(_) => Poll::Pending,
        TryRecv::Got(message) => Poll::Ready(message),
    }
}

/// The state of a receive operation after an attempt of instance `id`.
pub open spec fn attempted_state<M, W>(chan: ChanView<M, W>, id: int) -> RecvFutureInner {
    match chan.recv_outcome(id) {
        TryRecv::Empty(ticket) => RecvFutureInner::Waiting(ticket),
        TryRecv::Got(_) => RecvFutureInner::Complete,
    }
}

impl Receiver {
    /// A new receiver instance; the mailbox counts it, and its cursor
    /// starts behind the broadcasts sent so far.
    pub fn new<M, W>(inner: &mut Chan<M, W>) -> (receiver: Self)
        requires
            old(inner)@.wf(),
            old(inner)@.receiver_count < usize::MAX,
        ensures
            receiver.id == old(inner)@.cursors.len(),
            final(inner)@ == old(inner)@.receiver_added(),
            final(inner)@.wf(),
            old(inner)@.within_capacity() ==> final(inner)@.within_capacity(),
    {
        Receiver { id: inner.add_receiver() }
    }

    /// Another receiver instance on the same mailbox, with a cursor of
    /// its own that starts behind the broadcasts sent so far.
    pub fn duplicate<M, W>(&self, inner: &mut Chan<M, W>) -> (receiver: Self)
        requires
            old(inner)@.wf(),
            old(inner)@.receiver_count < usize::MAX,
        ensures
            receiver.id == old(inner)@.cursors.len(),
            final(inner)@ == old(inner)@.receiver_added(),
            final(inner)@.wf(),
            old(inner)@.within_capacity() ==> final(inner)@.within_capacity(),
    {
        Receiver { id: inner.add_receiver() }
    }

    /// Attempts to receive without suspending; see `Chan::try_recv`.
    pub fn try_recv<M, W>(&self, inner: &mut Chan<M, W>) -> (outcome: TryRecv<M>)
        requires
            old(inner)@.wf(),
            old(inner)@.next_ticket < u64::MAX,
            self.id < old(inner)@.cursors.len(),
            old(inner)@.cursors[self.id as int] is Some,
        ensures
            outcome == old(inner)@.recv_outcome(self.id as int),
            final(inner)@ == old(inner)@.received(self.id as int),
            final(inner)@.wf(),
            old(inner)@.within_capacity() ==> final(inner)@.within_capacity(),
    {
        inner.try_recv(self.id)
    }

    /// Starts a receive operation for this instance.
    pub fn recv(&self) -> (future: RecvFuture)
        ensures
            future.rx == self.id,
            future.inner == RecvFutureInner::New,
    {
        RecvFuture { rx: self.id, inner: RecvFutureInner::New }
    }

    /// Removes this instance from the mailbox; see `Chan::drop_receiver`.
    pub fn release<M, W>(self, inner: &mut Chan<M, W>)
        requires
            old(inner)@.wf(),
            old(inner)@.receiver_count > 0,
            self.id < old(inner)@.cursors.len(),
        ensures
            final(inner)@ == old(inner)@.receiver_dropped(self.id as int),
            final(inner)@.wf(),
            old(inner)@.within_capacity() ==> final(inner)@.within_capacity(),
    {
        inner.drop_receiver(self.id);
    }
}

impl RecvFuture {
    /// The mailbox after this operation was polled with `waker`.
    pub open spec fn polled_chan<M, W>(self, chan: ChanView<M, W>, waker: W) -> ChanView<M, W> {
        match self.inner {
            RecvFutureInner::New => attempted_chan(chan, self.rx as int, waker),
            RecvFutureInner::Waiting(ticket) => match chan.receiver_collect_outcome(ticket) {
                Some(WakeReason::MessageToAllActors) => attempted_chan(
                    chan.receiver_collected(ticket),
                    self.rx as int,
                    waker,
                ),
                Some(_) => chan.receiver_collected(ticket),
                None => chan.receiver_polled(ticket, waker),
            },
            RecvFutureInner::Complete => chan,
        }
    }

    /// What a poll of this operation reports.
    pub open spec fn poll_outcome<M, W>(self, chan: ChanView<M, W>) -> Poll<ActorMessage<M>> {
        match self.inner {
            RecvFutureInner::New => attempted_outcome(chan, self.rx as int),
            RecvFutureInner::Waiting(ticket) => match chan.receiver_collect_outcome(ticket) {
                Some(WakeReason::MessageToAllActors) => attempted_outcome(
                    chan.receiver_collected(ticket),
                    self.rx as int,
                ),
                Some(WakeReason::MessageToOneActor(m)) => Poll::Ready(
                    ActorMessage::ToOneActor(m.val),
                ),
                Some(WakeReason::Shutdown) => Poll::Ready(ActorMessage::Shutdown),
                None => Poll::Pending,
            },
            RecvFutureInner::Complete => Poll::Pending,
        }
    }

    /// The state of this operation after a poll.
    pub open spec fn polled_state<M, W>(self, chan: ChanView<M, W>) -> RecvFutureInner {
        match self.inner {
            RecvFutureInner::New => attempted_state(chan, self.rx as int),
            RecvFutureInner::Waiting(ticket) => match chan.receiver_collect_outcome(ticket) {
                Some(WakeReason::MessageToAllActors) => attempted_state(
                    chan.receiver_collected(ticket),
                    self.rx as int,
                ),
                Some(_) => RecvFutureInner::Complete,
                None => RecvFutureInner::Waiting(ticket),
            },
            RecvFutureInner::Complete => RecvFutureInner::Complete,
        }
    }

    /// Attempts to receive, and parks with `waker` installed if nothing
    /// is there.
    fn attempt<M, W>(&mut self, inner: &mut Chan<M, W>, waker: W) -> (outcome: Poll<
        ActorMessage<M>,
    >)
        requires
            old(inner)@.wf(),
            old(inner)@.next_ticket < u64::MAX,
            old(self).rx < old(inner)@.cursors.len(),
            old(inner)@.cursors[old(self).rx as int] is Some,
        ensures
            outcome == attempted_outcome(old(inner)@, old(self).rx as int),
            final(inner)@ == attempted_chan(old(inner)@, old(self).rx as int, waker),
            final(self).inner == attempted_state(old(inner)@, old(self).rx as int),
            final(self).rx == old(self).rx,
            final(inner)@.wf(),
            old(inner)@.within_capacity() ==> final(inner)@.within_capacity(),
    {
        let ghost pre = inner@;
        match inner.try_recv(self.rx) {
            TryRecv::Got(message) => {
                self.inner = RecvFutureInner::Complete;
                Poll::Ready(message)
            },
            TryRecv::Empty(ticket) => {
                proof {
                    let parked = inner@.waiting_receivers;
                    lemma_receiver_position_found(parked, ticket, parked.len() - 1);
                }
                let _ = inner.poll_receiver(ticket, waker);
                self.inner = RecvFutureInner::Waiting(ticket);
                Poll::Pending
            },
        }
    }

    /// Advances the operation. The first poll attempts to receive and, if
    /// nothing is there, parks with `waker` installed. Later polls collect
    /// what was put into the slot; woken for a broadcast, the operation
    /// fetches it at its instance's cursor, and parks again if another
    /// operation of the same instance took it. A finished operation stays
    /// pending and leaves the mailbox alone.
    pub fn poll<M, W>(&mut self, inner: &mut Chan<M, W>, waker: W) -> (outcome: Poll<
        ActorMessage<M>,
    >)
        requires
            old(inner)@.wf(),
            old(inner)@.next_ticket < u64::MAX,
            old(self).rx < old(inner)@.cursors.len(),
            old(inner)@.cursors[old(self).rx as int] is Some,
        ensures
            outcome == old(self).poll_outcome(old(inner)@),
            final(inner)@ == old(self).polled_chan(old(inner)@, waker),
            final(self).inner == old(self).polled_state(old(inner)@),
            final(self).rx == old(self).rx,
            final(inner)@.wf(),
            old(inner)@.within_capacity() ==> final(inner)@.within_capacity(),
    {
        let ghost pre = inner@;
        match self.inner {
            RecvFutureInner::New => self.attempt(inner, waker),
            RecvFutureInner::Waiting(ticket) => match inner.collect_receiver(ticket) {
                Some(WakeReason::MessageToAllActors) => self.attempt(inner, waker),
                Some(WakeReason::MessageToOneActor(m)) => {
                    self.inner = RecvFutureInner::Complete;
                    Poll::Ready(ActorMessage::ToOneActor(m.val))
                },
                Some(WakeReason::Shutdown) => {
                    self.inner = RecvFutureInner::Complete;
                    Poll::Ready(ActorMessage::Shutdown)
                },
                None => {
                    proof {
                        let j = crate::model::receiver_position(pre.settled_receivers, ticket);
                        lemma_receiver_position_bounds(pre.settled_receivers, ticket);
                        if j < pre.settled_receivers.len() {
                            assert(!pre.settled_receivers[j].is_new());
                        }
                    }
                    let _ = inner.poll_receiver(ticket, waker);
                    Poll::Pending
                },
            },
            RecvFutureInner::Complete => Poll::Pending,
        }
    }

    /// Whether the operation has finished.
    pub fn is_terminated(&self) -> (done: bool)
        ensures
            done == (self.inner is Complete),
    {
        match &self.inner {
            RecvFutureInner::Complete => true,
            _ => false,
        }
    }

    /// Abandons the operation. A message already put into its slot is lost.
    pub fn cancel<M, W>(self, inner: &mut Chan<M, W>)
        requires
            old(inner)@.wf(),
        ensures
            final(inner)@ == (match self.inner {
                RecvFutureInner::Waiting(ticket) => old(inner)@.receiver_cancelled(ticket),
                _ => old(inner)@,
            }),
            final(inner)@.wf(),
            old(inner)@.within_capacity() ==> final(inner)@.within_capacity(),
    {
        match self.inner {
            RecvFutureInner::Waiting(ticket) => {
                inner.cancel_receiver(ticket);
            },
            _ => {},
        }
    }
}

} // verus!
