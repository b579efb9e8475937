//! The mathematical model of a mailbox: its state as sequences, and each
//! operation as a function from state to state.

use crate::message::ActorMessage;
use crate::message::Error;
use crate::message::Poll;
use crate::message::MessageToOneActor;
use crate::message::SentMessage;
use crate::message::TryRecv;
use crate::message::TrySendFail;
use crate::message::WakeReason;
use crate::waiting::WaitingReceiver;
use crate::waiting::WaitingSender;
use std::sync::Arc;
use vstd::prelude::*;

verus! {

/// A queue of length `len` is full under `capacity`; an unbounded queue never is.
pub open spec fn is_full(capacity: Option<usize>, len: nat) -> bool {
    match capacity {
        Some(c) => len >= c,
        None => false,
    }
}

/// `wakers` followed by `waker`, if there is one.
pub open spec fn push_waker<W>(wakers: Seq<W>, waker: Option<W>) -> Seq<W> {
    match waker {
        Some(w) => wakers.push(w),
        None => wakers,
    }
}

/// The wakers installed on parked senders, in parking order.
pub open spec fn sender_wakers<M, W>(ws: Seq<WaitingSender<M, W>>) -> Seq<W>
    decreases ws.len(),
{
    if ws.len() == 0 {
        Seq::empty()
    } else {
        push_waker(sender_wakers(ws.drop_last()), ws.last().waker)
    }
}

/// The wakers installed on parked receivers, in parking order.
pub open spec fn receiver_wakers<M, W>(ws: Seq<WaitingReceiver<M, W>>) -> Seq<W>
    decreases ws.len(),
{
    if ws.len() == 0 {
        Seq::empty()
    } else {
        push_waker(receiver_wakers(ws.drop_last()), ws.last().waker)
    }
}

/// Every parked sender marked delivered or closed, its waker taken.
pub open spec fn settle_senders<M, W>(
    ws: Seq<WaitingSender<M, W>>,
    is_delivered: bool,
) -> Seq<WaitingSender<M, W>> {
    Seq::new(ws.len(), |i: int| ws[i].settled(is_delivered))
}

/// Every parked receiver woken for a broadcast (`shutdown` false) or for
/// shutdown (`shutdown` true), its waker taken.
pub open spec fn settle_receivers<M, W>(
    ws: Seq<WaitingReceiver<M, W>>,
    shutdown: bool,
) -> Seq<WaitingReceiver<M, W>> {
    Seq::new(
        ws.len(),
        |i: int|
            ws[i].settled(
                if shutdown {
                    WakeReason::Shutdown
                } else {
                    WakeReason::MessageToAllActors
                },
            ),
    )
}

/// The position of the message that leaves a priority queue next: the
/// highest priority, and among equals the one that was inserted first.
pub open spec fn front_index<M>(q: Seq<MessageToOneActor<M>>) -> int
    decreases q.len(),
{
    if q.len() <= 1 {
        0
    } else {
        let rest = front_index(q.drop_last());
        if q.last().priority > q[rest].priority {
            q.len() - 1
        } else {
            rest
        }
    }
}

/// The smallest cursor of a live receiver, or `bound` if none is live.
pub open spec fn min_cursor(cursors: Seq<Option<usize>>, bound: int) -> int
    decreases cursors.len(),
{
    if cursors.len() == 0 {
        bound
    } else {
        let rest = min_cursor(cursors.drop_last(), bound);
        match cursors.last() {
            Some(c) => if c < rest {
                c as int
            } else {
                rest
            },
            None => rest,
        }
    }
}

/// The position of the first waiter with `ticket`, or the length if none has it.
pub open spec fn sender_position<M, W>(ws: Seq<WaitingSender<M, W>>, ticket: u64) -> int
    decreases ws.len(),
{
    if ws.len() == 0 {
        0
    } else if ws[0].ticket == ticket {
        0
    } else {
        1 + sender_position(ws.drop_first(), ticket)
    }
}

/// The position of the first waiter with `ticket`, or the length if none has it.
pub open spec fn receiver_position<M, W>(ws: Seq<WaitingReceiver<M, W>>, ticket: u64) -> int
    decreases ws.len(),
{
    if ws.len() == 0 {
        0
    } else if ws[0].ticket == ticket {
        0
    } else {
        1 + receiver_position(ws.drop_first(), ticket)
    }
}

/// No ticket is held by two sender waiters, parked or settled.
pub open spec fn sender_tickets_distinct<M, W>(
    waiting: Seq<WaitingSender<M, W>>,
    settled: Seq<WaitingSender<M, W>>,
) -> bool {
    &&& forall|i: int, j: int|
        0 <= i < j < waiting.len() ==> (#[trigger] waiting[i]).ticket != (
        #[trigger] waiting[j]).ticket
    &&& forall|i: int, j: int|
        0 <= i < j < settled.len() ==> (#[trigger] settled[i]).ticket != (
        #[trigger] settled[j]).ticket
    &&& forall|i: int, j: int|
        0 <= i < waiting.len() && 0 <= j < settled.len() ==> (#[trigger] waiting[i]).ticket != (
        #[trigger] settled[j]).ticket
}

/// No ticket is held by two receiver waiters, parked or settled.
pub open spec fn receiver_tickets_distinct<M, W>(
    waiting: Seq<WaitingReceiver<M, W>>,
    settled: Seq<WaitingReceiver<M, W>>,
) -> bool {
    &&& forall|i: int, j: int|
        0 <= i < j < waiting.len() ==> (#[trigger] waiting[i]).ticket != (
        #[trigger] waiting[j]).ticket
    &&& forall|i: int, j: int|
        0 <= i < j < settled.len() ==> (#[trigger] settled[i]).ticket != (
        #[trigger] settled[j]).ticket
    &&& forall|i: int, j: int|
        0 <= i < waiting.len() && 0 <= j < settled.len() ==> (#[trigger] waiting[i]).ticket != (
        #[trigger] settled[j]).ticket
}

/// The state of a mailbox.
#[verifier::ext_equal]
pub struct ChanView<M, W> {
    pub capacity: Option<usize>,
    pub sender_count: usize,
    pub receiver_count: usize,
    /// Priority-zero messages, oldest first.
    pub ordered: Seq<M>,
    /// Messages with a nonzero priority, in insertion order.
    pub priority: Seq<MessageToOneActor<M>>,
    /// Broadcasts that some live receiver has not seen yet, oldest first.
    pub broadcast: Seq<Arc<M>>,
    /// For each receiver instance the position of its next broadcast, or
    /// `None` once the instance is gone.
    pub cursors: Seq<Option<usize>>,
    /// Parked senders whose message is still in their slot, oldest first.
    pub waiting_senders: Seq<WaitingSender<M, W>>,
    /// Senders that were delivered or closed and not collected yet.
    pub settled_senders: Seq<WaitingSender<M, W>>,
    /// Parked receivers with an empty slot, oldest first.
    pub waiting_receivers: Seq<WaitingReceiver<M, W>>,
    /// Receivers whose slot was filled and not collected yet.
    pub settled_receivers: Seq<WaitingReceiver<M, W>>,
    pub next_ticket: u64,
    /// Wakers that are owed a wake-up, in the order in which they fell due.
    pub woken: Seq<W>,
}

impl<M, W> ChanView<M, W> {
    /// The structural invariant: cursors lie within the broadcast ring,
    /// parked waiters are new, settled ones are not, every ticket in use
    /// was handed out, and none was handed out twice.
    pub open spec fn wf(self) -> bool {
        &&& sender_tickets_distinct(self.waiting_senders, self.settled_senders)
        &&& receiver_tickets_distinct(self.waiting_receivers, self.settled_receivers)
        &&& forall|i: int|
            0 <= i < self.cursors.len() ==> match #[trigger] self.cursors[i] {
                Some(c) => c <= self.broadcast.len(),
                None => true,
            }
        &&& forall|i: int|
            0 <= i < self.waiting_senders.len() ==> {
                let w = #[trigger] self.waiting_senders[i];
                w.is_new() && w.ticket < self.next_ticket
            }
        &&& forall|i: int|
            0 <= i < self.settled_senders.len() ==> {
                let w = #[trigger] self.settled_senders[i];
                !w.is_new() && w.waker is None && w.ticket < self.next_ticket
            }
        &&& forall|i: int|
            0 <= i < self.waiting_receivers.len() ==> {
                let w = #[trigger] self.waiting_receivers[i];
                w.is_new() && w.ticket < self.next_ticket
            }
        &&& forall|i: int|
            0 <= i < self.settled_receivers.len() ==> {
                let w = #[trigger] self.settled_receivers[i];
                !w.is_new() && w.waker is None && w.ticket < self.next_ticket
            }
    }

    /// No queue holds more than the capacity.
    pub open spec fn within_capacity(self) -> bool {
        match self.capacity {
            Some(c) => self.ordered.len() <= c && self.priority.len() <= c
                && self.broadcast.len() <= c,
            None => true,
        }
    }

    /// Both a strong sender and a receiver exist.
    pub open spec fn is_connected(self) -> bool {
        self.receiver_count > 0 && self.sender_count > 0
    }

    /// The number of messages held in the three queues.
    pub open spec fn len(self) -> nat {
        self.broadcast.len() + self.ordered.len() + self.priority.len()
    }

    /// A broadcast is appended to the ring and every parked receiver is
    /// woken to fetch it at its own cursor.
    pub open spec fn broadcasted(self, m: Arc<M>) -> Self {
        (ChanView { broadcast: self.broadcast.push(m), ..self }).receivers_woken(false)
    }

    /// Every parked receiver is woken: for shutdown, or to fetch a broadcast.
    pub open spec fn receivers_woken(self, shutdown: bool) -> Self {
        ChanView {
            waiting_receivers: Seq::empty(),
            settled_receivers: self.settled_receivers + settle_receivers(
                self.waiting_receivers,
                shutdown,
            ),
            woken: self.woken + receiver_wakers(self.waiting_receivers),
            ..self
        }
    }

    /// Whether `msg` can enter now: a broadcast needs room in the ring; a
    /// message for one actor needs a parked receiver or room in its queue.
    pub open spec fn can_accept(self, msg: SentMessage<M>) -> bool {
        match msg {
            SentMessage::ToAllActors(_) => !is_full(self.capacity, self.broadcast.len()),
            SentMessage::ToOneActor(m) => self.waiting_receivers.len() > 0 || if m.priority == 0 {
                !is_full(self.capacity, self.ordered.len())
            } else {
                !is_full(self.capacity, self.priority.len())
            },
        }
    }

    /// `msg` enters: a broadcast joins the ring; a message for one actor goes
    /// to the oldest parked receiver, else to the queue of its priority.
    pub open spec fn accepted(self, msg: SentMessage<M>) -> Self {
        match msg {
            SentMessage::ToAllActors(m) => self.broadcasted(m),
            SentMessage::ToOneActor(m) => if self.waiting_receivers.len() > 0 {
                let r = self.waiting_receivers[0];
                ChanView {
                    waiting_receivers: self.waiting_receivers.drop_first(),
                    settled_receivers: self.settled_receivers.push(
                        r.settled(WakeReason::MessageToOneActor(m)),
                    ),
                    woken: push_waker(self.woken, r.waker),
                    ..self
                }
            } else if m.priority == 0 {
                ChanView { ordered: self.ordered.push(m.val), ..self }
            } else {
                ChanView { priority: self.priority.push(m), ..self }
            },
        }
    }

    /// `msg` is parked behind all senders that are already waiting.
    pub open spec fn parked(self, msg: SentMessage<M>) -> Self {
        ChanView {
            waiting_senders: self.waiting_senders.push(
                WaitingSender {
                    ticket: self.next_ticket,
                    waker: None,
                    message: crate::waiting::WaitingSenderInner::New(msg),
                },
            ),
            next_ticket: (self.next_ticket + 1) as u64,
            ..self
        }
    }

    /// The mailbox after an attempt to send `msg`.
    pub open spec fn sent(self, msg: SentMessage<M>) -> Self {
        if !self.is_connected() {
            self
        } else if self.can_accept(msg) {
            self.accepted(msg)
        } else {
            self.parked(msg)
        }
    }

    /// What an attempt to send `msg` reports.
    pub open spec fn send_outcome(self, msg: SentMessage<M>) -> Result<(), TrySendFail> {
        if !self.is_connected() {
            Err(TrySendFail::Disconnected)
        } else if self.can_accept(msg) {
            Ok(())
        } else {
            Err(TrySendFail::Full(self.next_ticket))
        }
    }

    /// The oldest parked sender is admitted if its message can enter now;
    /// otherwise nothing changes, so that parked senders never overtake.
    pub open spec fn unparked(self) -> Self {
        if self.waiting_senders.len() > 0 && self.can_accept(self.waiting_senders[0].pending()) {
            let w = self.waiting_senders[0];
            (ChanView {
                waiting_senders: self.waiting_senders.drop_first(),
                settled_senders: self.settled_senders.push(w.settled(true)),
                woken: push_waker(self.woken, w.waker),
                ..self
            }).accepted(w.pending())
        } else {
            self
        }
    }

    /// Broadcasts that every live receiver has passed leave the ring, and
    /// the cursors move down with it.
    pub open spec fn reclaimed(self) -> Self {
        let k = min_cursor(self.cursors, self.broadcast.len() as int);
        ChanView {
            broadcast: self.broadcast.subrange(k, self.broadcast.len() as int),
            cursors: Seq::new(
                self.cursors.len(),
                |i: int|
                    match self.cursors[i] {
                        Some(c) => Some((c - k) as usize),
                        None => None,
                    },
            ),
            ..self
        }
    }

    /// A receiver waiter is parked behind those already waiting.
    pub open spec fn receiver_parked(self) -> Self {
        ChanView {
            waiting_receivers: self.waiting_receivers.push(
                WaitingReceiver { ticket: self.next_ticket, waker: None, reason: None },
            ),
            next_ticket: (self.next_ticket + 1) as u64,
            ..self
        }
    }

    /// The cursor of receiver instance `id`.
    pub open spec fn cursor(self, id: int) -> int
        recommends
            0 <= id < self.cursors.len(),
            self.cursors[id] is Some,
    {
        self.cursors[id]->0 as int
    }

    /// Whether the oldest parked sender holds a message for one actor, which
    /// a receiver that finds the queues empty takes straight from its slot.
    pub open spec fn hands_over(self) -> bool {
        self.waiting_senders.len() > 0 && self.waiting_senders[0].pending() is ToOneActor
    }

    /// The mailbox after receiver instance `id` attempted to receive:
    /// a pending broadcast first, then the priority queue, then the ordered
    /// queue; each removal admits the oldest parked sender if it now fits.
    /// With the queues empty the message of the oldest parked sender is
    /// taken from its slot.
    pub open spec fn received(self, id: int) -> Self {
        if self.cursor(id) < self.broadcast.len() {
            (ChanView {
                cursors: self.cursors.update(id, Some((self.cursor(id) + 1) as usize)),
                ..self
            }).reclaimed().unparked()
        } else if self.priority.len() > 0 {
            (ChanView {
                priority: self.priority.remove(front_index(self.priority)),
                ..self
            }).unparked()
        } else if self.ordered.len() > 0 {
            (ChanView { ordered: self.ordered.drop_first(), ..self }).unparked()
        } else if self.hands_over() {
            let w = self.waiting_senders[0];
            ChanView {
                waiting_senders: self.waiting_senders.drop_first(),
                settled_senders: self.settled_senders.push(w.settled(true)),
                woken: push_waker(self.woken, w.waker),
                ..self
            }
        } else if self.sender_count == 0 {
            self
        } else {
            self.receiver_parked()
        }
    }

    /// What receiver instance `id` obtains from an attempt to receive.
    pub open spec fn recv_outcome(self, id: int) -> TryRecv<M> {
        if self.cursor(id) < self.broadcast.len() {
            TryRecv::Got(ActorMessage::ToAllActors(self.broadcast[self.cursor(id)]))
        } else if self.priority.len() > 0 {
            TryRecv::Got(ActorMessage::ToOneActor(self.priority[front_index(self.priority)].val))
        } else if self.ordered.len() > 0 {
            TryRecv::Got(ActorMessage::ToOneActor(self.ordered[0]))
        } else if self.hands_over() {
            TryRecv::Got(
                ActorMessage::ToOneActor(self.waiting_senders[0].pending()->ToOneActor_0.val),
            )
        } else if self.sender_count == 0 {
            TryRecv::Got(ActorMessage::Shutdown)
        } else {
            TryRecv::Empty(self.next_ticket)
        }
    }

    /// Every parked sender is closed and woken; its message is discarded.
    pub open spec fn senders_closed(self) -> Self {
        ChanView {
            waiting_senders: Seq::empty(),
            settled_senders: self.settled_senders + settle_senders(self.waiting_senders, false),
            woken: self.woken + sender_wakers(self.waiting_senders),
            ..self
        }
    }

    /// A new receiver instance joins; it sees only broadcasts sent from now on.
    pub open spec fn receiver_added(self) -> Self {
        ChanView {
            cursors: self.cursors.push(Some(self.broadcast.len() as usize)),
            receiver_count: (self.receiver_count + 1) as usize,
            ..self
        }
    }

    /// Receiver instance `id` leaves. Broadcasts that only it had not seen
    /// leave the ring. If it was the last receiver, every parked sender is
    /// closed; otherwise the oldest parked sender is admitted if it now fits.
    pub open spec fn receiver_dropped(self, id: int) -> Self {
        let left = (ChanView {
            cursors: self.cursors.update(id, None),
            receiver_count: (self.receiver_count - 1) as usize,
            ..self
        }).reclaimed();
        if left.receiver_count == 0 {
            left.senders_closed()
        } else {
            left.unparked()
        }
    }

    /// The mailbox after the sender waiter `ticket` was polled with `waker`:
    /// a parked waiter keeps the waker; a settled one is collected.
    pub open spec fn sender_polled(self, ticket: u64, waker: W) -> Self {
        let i = sender_position(self.waiting_senders, ticket);
        let j = sender_position(self.settled_senders, ticket);
        if i < self.waiting_senders.len() {
            ChanView {
                waiting_senders: self.waiting_senders.update(
                    i,
                    WaitingSender { waker: Some(waker), ..self.waiting_senders[i] },
                ),
                ..self
            }
        } else if j < self.settled_senders.len() {
            ChanView { settled_senders: self.settled_senders.remove(j), ..self }
        } else {
            self
        }
    }

    /// What a poll of the sender waiter `ticket` reports: pending while it
    /// is parked, then `Ok` if it was delivered and `Disconnected` if it
    /// was closed. A ticket that is not in use stays pending.
    pub open spec fn sender_poll_outcome(self, ticket: u64) -> Poll<Result<(), Error>> {
        let i = sender_position(self.waiting_senders, ticket);
        let j = sender_position(self.settled_senders, ticket);
        if i < self.waiting_senders.len() {
            Poll::Pending
        } else if j < self.settled_senders.len() {
            if self.settled_senders[j].message is Delivered {
                Poll::Ready(Ok(()))
            } else {
                Poll::Ready(Err(Error::Disconnected))
            }
        } else {
            Poll::Pending
        }
    }

    /// The mailbox after the sender waiter `ticket` was cancelled: the
    /// waiter is gone, with its message if it still held one.
    pub open spec fn sender_cancelled(self, ticket: u64) -> Self {
        let i = sender_position(self.waiting_senders, ticket);
        let j = sender_position(self.settled_senders, ticket);
        if i < self.waiting_senders.len() {
            ChanView { waiting_senders: self.waiting_senders.remove(i), ..self }
        } else if j < self.settled_senders.len() {
            ChanView { settled_senders: self.settled_senders.remove(j), ..self }
        } else {
            self
        }
    }

    /// The mailbox after the receiver waiter `ticket` was polled with `waker`.
    pub open spec fn receiver_polled(self, ticket: u64, waker: W) -> Self {
        let i = receiver_position(self.waiting_receivers, ticket);
        let j = receiver_position(self.settled_receivers, ticket);
        if i < self.waiting_receivers.len() {
            ChanView {
                waiting_receivers: self.waiting_receivers.update(
                    i,
                    WaitingReceiver { waker: Some(waker), ..self.waiting_receivers[i] },
                ),
                ..self
            }
        } else if j < self.settled_receivers.len() {
            ChanView { settled_receivers: self.settled_receivers.remove(j), ..self }
        } else {
            self
        }
    }

    /// What a poll of the receiver waiter `ticket` reports: pending while
    /// its slot is empty, then the reason it was woken for.
    pub open spec fn receiver_poll_outcome(self, ticket: u64) -> Poll<WakeReason<M>> {
        let i = receiver_position(self.waiting_receivers, ticket);
        let j = receiver_position(self.settled_receivers, ticket);
        if i < self.waiting_receivers.len() {
            Poll::Pending
        } else if j < self.settled_receivers.len() && self.settled_receivers[j].reason is Some {
            Poll::Ready(self.settled_receivers[j].reason->0)
        } else {
            Poll::Pending
        }
    }

    /// The mailbox after the receiver waiter `ticket` was cancelled: the
    /// waiter is gone, with whatever its slot held.
    pub open spec fn receiver_cancelled(self, ticket: u64) -> Self {
        let i = receiver_position(self.waiting_receivers, ticket);
        let j = receiver_position(self.settled_receivers, ticket);
        if i < self.waiting_receivers.len() {
            ChanView { waiting_receivers: self.waiting_receivers.remove(i), ..self }
        } else if j < self.settled_receivers.len() {
            ChanView { settled_receivers: self.settled_receivers.remove(j), ..self }
        } else {
            self
        }
    }

    /// What collecting the receiver waiter `ticket` hands out: the reason
    /// in its slot once it is settled, and nothing before that.
    pub open spec fn receiver_collect_outcome(self, ticket: u64) -> Option<WakeReason<M>> {
        let j = receiver_position(self.settled_receivers, ticket);
        if j < self.settled_receivers.len() {
            self.settled_receivers[j].reason
        } else {
            None
        }
    }

    /// The mailbox after the receiver waiter `ticket` was collected: a
    /// settled waiter is gone, a parked one stays.
    pub open spec fn receiver_collected(self, ticket: u64) -> Self {
        let j = receiver_position(self.settled_receivers, ticket);
        if j < self.settled_receivers.len() {
            ChanView { settled_receivers: self.settled_receivers.remove(j), ..self }
        } else {
            self
        }
    }
}

} // verus!
