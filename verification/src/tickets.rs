//! Waiters by ticket: how a suspended operation installs its waker, learns
//! its outcome, or withdraws.

use crate::chan::Chan;
use crate::message::Error;
use crate::message::Poll;
use crate::message::WakeReason;
use crate::model::receiver_position;
use crate::model::sender_position;
use crate::waiting::WaitingReceiver;
use crate::waiting::WaitingSender;
use crate::waiting::WaitingSenderInner;
use vstd::prelude::*;

verus! {

/// A waiter with the ticket at position `i` bounds the first such position.
pub proof fn lemma_sender_position_found<M, W>(ws: Seq<WaitingSender<M, W>>, ticket: u64, i: int)
    requires
        0 <= i < ws.len(),
        ws[i].ticket == ticket,
    ensures
        0 <= sender_position(ws, ticket) <= i,
    decreases ws.len(),
{
    if ws[0].ticket != ticket {
        lemma_sender_position_found(ws.drop_first(), ticket, i - 1);
    }
}

/// A waiter with the ticket at position `i` bounds the first such position.
pub proof fn lemma_receiver_position_found<M, W>(
    ws: Seq<WaitingReceiver<M, W>>,
    ticket: u64,
    i: int,
)
    requires
        0 <= i < ws.len(),
        ws[i].ticket == ticket,
    ensures
        0 <= receiver_position(ws, ticket) <= i,
    decreases ws.len(),
{
    if ws[0].ticket != ticket {
        lemma_receiver_position_found(ws.drop_first(), ticket, i - 1);
    }
}

/// A waiter with the ticket at position `k`, and none before it, is the first.
pub proof fn lemma_sender_position_first<M, W>(ws: Seq<WaitingSender<M, W>>, ticket: u64, k: int)
    requires
        0 <= k < ws.len(),
        ws[k].ticket == ticket,
        forall|j: int| 0 <= j < k ==> (#[trigger] ws[j]).ticket != ticket,
    ensures
        sender_position(ws, ticket) == k,
    decreases ws.len(),
{
    if k > 0 {
        assert(ws[0].ticket != ticket);
        assert forall|j: int| 0 <= j < k - 1 implies (#[trigger] ws.drop_first()[j]).ticket
            != ticket by {
            assert(ws.drop_first()[j] == ws[j + 1]);
        }
        lemma_sender_position_first(ws.drop_first(), ticket, k - 1);
    }
}

/// A waiter with the ticket at position `k`, and none before it, is the first.
pub proof fn lemma_receiver_position_first<M, W>(
    ws: Seq<WaitingReceiver<M, W>>,
    ticket: u64,
    k: int,
)
    requires
        0 <= k < ws.len(),
        ws[k].ticket == ticket,
        forall|j: int| 0 <= j < k ==> (#[trigger] ws[j]).ticket != ticket,
    ensures
        receiver_position(ws, ticket) == k,
    decreases ws.len(),
{
    if k > 0 {
        assert(ws[0].ticket != ticket);
        assert forall|j: int| 0 <= j < k - 1 implies (#[trigger] ws.drop_first()[j]).ticket
            != ticket by {
            assert(ws.drop_first()[j] == ws[j + 1]);
        }
        lemma_receiver_position_first(ws.drop_first(), ticket, k - 1);
    }
}

/// The first position of a ticket lies between zero and the length.
pub proof fn lemma_receiver_position_bounds<M, W>(ws: Seq<WaitingReceiver<M, W>>, ticket: u64)
    ensures
        0 <= receiver_position(ws, ticket) <= ws.len(),
    decreases ws.len(),
{
    if ws.len() > 0 && ws[0].ticket != ticket {
        lemma_receiver_position_bounds(ws.drop_first(), ticket);
    }
}

/// The position of the first sender waiter with `ticket`, or the length.
pub fn find_sender<M, W>(ws: &Vec<WaitingSender<M, W>>, ticket: u64) -> (i: usize)
    ensures
        i == sender_position(ws@, ticket),
        i <= ws@.len(),
        i < ws@.len() ==> ws@[i as int].ticket == ticket,
{
    let mut i: usize = 0;
    assert(ws@.subrange(0, ws@.len() as int) =~= ws@);
    while i < ws.len()
        invariant
            i <= ws@.len(),
            sender_position(ws@, ticket) == i + sender_position(
                ws@.subrange(i as int, ws@.len() as int),
                ticket,
            ),
        decreases ws@.len() - i,
    {
        let ghost rest = ws@.subrange(i as int, ws@.len() as int);
        assert(rest[0] == ws@[i as int]);
        if ws[i].ticket == ticket {
            return i;
        }
        assert(rest.drop_first() =~= ws@.subrange(i + 1, ws@.len() as int));
        i = i + 1;
    }
    i
}

/// The position of the first receiver waiter with `ticket`, or the length.
pub fn find_receiver<M, W>(ws: &Vec<WaitingReceiver<M, W>>, ticket: u64) -> (i: usize)
    ensures
        i == receiver_position(ws@, ticket),
        i <= ws@.len(),
        i < ws@.len() ==> ws@[i as int].ticket == ticket,
{
    let mut i: usize = 0;
    assert(ws@.subrange(0, ws@.len() as int) =~= ws@);
    while i < ws.len()
        invariant
            i <= ws@.len(),
            receiver_position(ws@, ticket) == i + receiver_position(
                ws@.subrange(i as int, ws@.len() as int),
                ticket,
            ),
        decreases ws@.len() - i,
    {
        let ghost rest = ws@.subrange(i as int, ws@.len() as int);
        assert(rest[0] == ws@[i as int]);
        if ws[i].ticket == ticket {
            return i;
        }
        assert(rest.drop_first() =~= ws@.subrange(i + 1, ws@.len() as int));
        i = i + 1;
    }
    i
}

impl<M, W> Chan<M, W> {
    /// Polls the sender waiter `ticket`. While it is parked, `waker`
    /// replaces its waker. Once it is settled it is collected, and the
    /// outcome says whether the message was delivered.
    pub fn poll_sender(&mut self, ticket: u64, waker: W) -> (outcome: Poll<Result<(), Error>>)
        requires
            old(self)@.wf(),
        ensures
            outcome == old(self)@.sender_poll_outcome(ticket),
            final(self)@ == old(self)@.sender_polled(ticket, waker),
            final(self)@.wf(),
            old(self)@.within_capacity() ==> final(self)@.within_capacity(),
    {
        let ghost pre = self@;
        let i = find_sender(&self.waiting_senders, ticket);
        if i < self.waiting_senders.len() {
            let mut w = self.waiting_senders.remove(i);
            w.waker = Some(waker);
            self.waiting_senders.insert(i, w);
            assert(self@ =~= pre.sender_polled(ticket, waker));
            return Poll::Pending;
        }
        let j = find_sender(&self.settled_senders, ticket);
        if j < self.settled_senders.len() {
            let w = self.settled_senders.remove(j);
            assert(self@ =~= pre.sender_polled(ticket, waker));
            match w.message {
                WaitingSenderInner::Delivered => Poll::Ready(Ok(())),
                _ => Poll::Ready(Err(Error::Disconnected)),
            }
        } else {
            Poll::Pending
        }
    }

    /// Withdraws the sender waiter `ticket`. A message that it still held is
    /// discarded; the queues and the wakers owed a wake-up stay as they are.
    pub fn cancel_sender(&mut self, ticket: u64)
        requires
            old(self)@.wf(),
        ensures
            final(self)@ == old(self)@.sender_cancelled(ticket),
            final(self)@.wf(),
            old(self)@.within_capacity() ==> final(self)@.within_capacity(),
    {
        let ghost pre = self@;
        let i = find_sender(&self.waiting_senders, ticket);
        if i < self.waiting_senders.len() {
            let _ = self.waiting_senders.remove(i);
            assert(self@ =~= pre.sender_cancelled(ticket));
            return ;
        }
        let j = find_sender(&self.settled_senders, ticket);
        if j < self.settled_senders.len() {
            let _ = self.settled_senders.remove(j);
            assert(self@ =~= pre.sender_cancelled(ticket));
        }
    }

    /// Polls the receiver waiter `ticket`. While its slot is empty, `waker`
    /// replaces its waker. Once the slot is filled the waiter is collected
    /// and the reason is handed out.
    pub fn poll_receiver(&mut self, ticket: u64, waker: W) -> (outcome: Poll<WakeReason<M>>)
        requires
            old(self)@.wf(),
        ensures
            outcome == old(self)@.receiver_poll_outcome(ticket),
            final(self)@ == old(self)@.receiver_polled(ticket, waker),
            final(self)@.wf(),
            old(self)@.within_capacity() ==> final(self)@.within_capacity(),
    {
        let ghost pre = self@;
        let i = find_receiver(&self.waiting_receivers, ticket);
        if i < self.waiting_receivers.len() {
            let mut w = self.waiting_receivers.remove(i);
            w.waker = Some(waker);
            self.waiting_receivers.insert(i, w);
            assert(self@ =~= pre.receiver_polled(ticket, waker));
            return Poll::Pending;
        }
        let j = find_receiver(&self.settled_receivers, ticket);
        if j < self.settled_receivers.len() {
            let w = self.settled_receivers.remove(j);
            assert(self@ =~= pre.receiver_polled(ticket, waker));
            assert(!pre.settled_receivers[j as int].is_new());
            match w.reason {
                Some(reason) => Poll::Ready(reason),
                None => Poll::Pending,
            }
        } else {
            Poll::Pending
        }
    }

    /// Withdraws the receiver waiter `ticket`. A message already put into
    /// its slot is lost with it.
    pub fn cancel_receiver(&mut self, ticket: u64)
        requires
            old(self)@.wf(),
        ensures
            final(self)@ == old(self)@.receiver_cancelled(ticket),
            final(self)@.wf(),
            old(self)@.within_capacity() ==> final(self)@.within_capacity(),
    {
        let ghost pre = self@;
        let i = find_receiver(&self.waiting_receivers, ticket);
        if i < self.waiting_receivers.len() {
            let _ = self.waiting_receivers.remove(i);
            assert(self@ =~= pre.receiver_cancelled(ticket));
            return ;
        }
        let j = find_receiver(&self.settled_receivers, ticket);
        if j < self.settled_receivers.len() {
            let _ = self.settled_receivers.remove(j);
            assert(self@ =~= pre.receiver_cancelled(ticket));
        }
    }

    /// Collects the receiver waiter `ticket` if its slot was filled, and
    /// hands out the reason. A waiter that is still parked is left alone.
    pub fn collect_receiver(&mut self, ticket: u64) -> (reason: Option<WakeReason<M>>)
        requires
            old(self)@.wf(),
        ensures
            reason == old(self)@.receiver_collect_outcome(ticket),
            final(self)@ == old(self)@.receiver_collected(ticket),
            final(self)@.wf(),
            old(self)@.within_capacity() ==> final(self)@.within_capacity(),
    {
        let ghost pre = self@;
        let j = find_receiver(&self.settled_receivers, ticket);
        if j < self.settled_receivers.len() {
            let w = self.settled_receivers.remove(j);
            assert(self@ =~= pre.receiver_collected(ticket));
            w.reason
        } else {
            None
        }
    }
}

} // verus!
