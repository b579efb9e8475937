//! Laws of the mailbox, proved of the model that every operation's contract
//! is stated in.

use crate::message::ActorMessage;
use crate::message::Error;
use crate::message::Poll;
use crate::message::MessageToOneActor;
use crate::message::SentMessage;
use crate::message::TryRecv;
use crate::message::TrySendFail;
use crate::message::WakeReason;
use crate::model::front_index;
use crate::model::is_full;
use crate::model::min_cursor;
use crate::model::ChanView;
use crate::receive::lemma_min_cursor_is_lower_bound;
use crate::tickets::lemma_receiver_position_first;
use crate::tickets::lemma_sender_position_first;
use crate::refcount::RefCounterInner;
use crate::refcount::TxRefCounter;
use crate::tx::sender_released;
use crate::tx::SendFuture;
use std::sync::Arc;
use vstd::prelude::*;

verus! {

/// The values held for one priority class: those in its queue, then those
/// of the parked senders, oldest first.
pub open spec fn backlog<M, W>(chan: ChanView<M, W>, p: u32) -> Seq<M> {
    (if p == 0 {
        chan.ordered
    } else {
        Seq::new(chan.priority.len(), |i: int| chan.priority[i].val)
    }) + Seq::new(
        chan.waiting_senders.len(),
        |i: int| chan.waiting_senders[i].pending()->ToOneActor_0.val,
    )
}

/// The length of the queue that holds priority class `p`.
pub open spec fn class_len<M, W>(chan: ChanView<M, W>, p: u32) -> nat {
    if p == 0 {
        chan.ordered.len()
    } else {
        chan.priority.len()
    }
}

/// A mailbox in which only messages for one actor, all of priority `p`,
/// are under way: no broadcast is pending, no receiver is parked, and
/// senders are parked only while the queue of class `p` is full.
pub open spec fn uniform<M, W>(chan: ChanView<M, W>, p: u32) -> bool {
    &&& chan.waiting_receivers.len() == 0
    &&& chan.broadcast.len() == 0
    &&& forall|i: int|
        0 <= i < chan.cursors.len() && (#[trigger] chan.cursors[i]) is Some ==> chan.cursors[i]
            == Some(0usize)
    &&& p == 0 ==> chan.priority.len() == 0
    &&& p != 0 ==> chan.ordered.len() == 0
    &&& forall|i: int| 0 <= i < chan.priority.len() ==> (#[trigger] chan.priority[i]).priority == p
    &&& forall|i: int|
        0 <= i < chan.waiting_senders.len() ==> {
            let w = #[trigger] chan.waiting_senders[i];
            w.pending() is ToOneActor && w.pending()->ToOneActor_0.priority == p
        }
    &&& chan.waiting_senders.len() > 0 ==> is_full(chan.capacity, class_len(chan, p))
}

/// In a priority queue whose messages all have the same priority, the
/// oldest leaves first.
pub proof fn lemma_equal_priorities_leave_in_order<M>(q: Seq<MessageToOneActor<M>>, p: u32)
    requires
        forall|i: int| 0 <= i < q.len() ==> (#[trigger] q[i]).priority == p,
    ensures
        front_index(q) == 0,
    decreases q.len(),
{
    if q.len() > 1 {
        lemma_equal_priorities_leave_in_order(q.drop_last(), p);
        assert(q[0].priority == p);
        assert(q.last().priority == p);
    }
}

/// Sending with uniform priority appends to the backlog: a message sent
/// later never stands before one sent earlier, parked or not.
pub proof fn law_send_joins_backlog<M, W>(chan: ChanView<M, W>, m: MessageToOneActor<M>)
    requires
        uniform(chan, m.priority),
        chan.is_connected(),
    ensures
        uniform(chan.sent(SentMessage::ToOneActor(m)), m.priority),
        backlog(chan.sent(SentMessage::ToOneActor(m)), m.priority) == backlog(
            chan,
            m.priority,
        ).push(m.val),
        chan.sent(SentMessage::ToOneActor(m)).cursors == chan.cursors,
        chan.sent(SentMessage::ToOneActor(m)).is_connected(),
{
    let p = m.priority;
    let post = chan.sent(SentMessage::ToOneActor(m));
    if chan.can_accept(SentMessage::ToOneActor(m)) {
        assert(chan.waiting_senders.len() == 0);
    }
    assert(backlog(post, p) =~= backlog(chan, p).push(m.val));
}

/// Receiving with uniform priority takes the head of the backlog: the
/// order of receipt is the order in which the sends were attempted.
pub proof fn law_receive_takes_oldest<M, W>(chan: ChanView<M, W>, id: int, p: u32)
    requires
        uniform(chan, p),
        0 <= id < chan.cursors.len(),
        chan.cursors[id] is Some,
        backlog(chan, p).len() > 0,
    ensures
        chan.recv_outcome(id) == TryRecv::Got(ActorMessage::ToOneActor(backlog(chan, p)[0])),
        uniform(chan.received(id), p),
        backlog(chan.received(id), p) == backlog(chan, p).drop_first(),
        chan.received(id).cursors == chan.cursors,
{
    let post = chan.received(id);
    assert(chan.cursors[id] == Some(0usize));
    lemma_equal_priorities_leave_in_order(chan.priority, p);
    if class_len(chan, p) > 0 {
        let popped = if p == 0 {
            ChanView { ordered: chan.ordered.drop_first(), ..chan }
        } else {
            ChanView { priority: chan.priority.remove(0), ..chan }
        };
        assert(post == popped.unparked());
        if popped.waiting_senders.len() > 0 {
            let w = popped.waiting_senders[0];
            assert(w.pending() is ToOneActor);
            assert(w.pending()->ToOneActor_0.priority == p);
        }
        assert(backlog(post, p) =~= backlog(chan, p).drop_first());
        assert forall|i: int| 0 <= i < post.priority.len() implies (#[trigger] post.priority[i]).priority
            == p by {
            if i < popped.priority.len() {
                assert(popped.priority[i] == chan.priority[i + 1]);
            }
        }
        assert forall|i: int| 0 <= i < post.waiting_senders.len() implies {
            let w = #[trigger] post.waiting_senders[i];
            w.pending() is ToOneActor && w.pending()->ToOneActor_0.priority == p
        } by {
            if post.waiting_senders.len() < chan.waiting_senders.len() {
                assert(post.waiting_senders[i] == chan.waiting_senders[i + 1]);
            } else {
                assert(post.waiting_senders[i] == chan.waiting_senders[i]);
            }
        }
    } else {
        assert(chan.hands_over());
        assert(backlog(post, p) =~= backlog(chan, p).drop_first());
        assert forall|i: int| 0 <= i < post.waiting_senders.len() implies {
            let w = #[trigger] post.waiting_senders[i];
            w.pending() is ToOneActor && w.pending()->ToOneActor_0.priority == p
        } by {
            assert(post.waiting_senders[i] == chan.waiting_senders[i + 1]);
        }
    }
}

/// The mailbox after `vals` were sent one after another with priority `p`.
pub open spec fn sent_each<M, W>(chan: ChanView<M, W>, vals: Seq<M>, p: u32) -> ChanView<M, W>
    decreases vals.len(),
{
    if vals.len() == 0 {
        chan
    } else {
        sent_each(chan, vals.drop_last(), p).sent(
            SentMessage::ToOneActor(MessageToOneActor { val: vals.last(), priority: p }),
        )
    }
}

/// What receiver instance `id` obtains from `n` attempts to receive, in order.
pub open spec fn receipts<M, W>(chan: ChanView<M, W>, id: int, n: nat) -> Seq<TryRecv<M>>
    decreases n,
{
    if n == 0 {
        Seq::empty()
    } else {
        seq![chan.recv_outcome(id)] + receipts(chan.received(id), id, (n - 1) as nat)
    }
}

/// Sending `vals` with one priority appends all of them to the backlog.
pub proof fn lemma_sent_each_joins_backlog<M, W>(chan: ChanView<M, W>, vals: Seq<M>, p: u32)
    requires
        uniform(chan, p),
        chan.is_connected(),
    ensures
        uniform(sent_each(chan, vals, p), p),
        sent_each(chan, vals, p).is_connected(),
        sent_each(chan, vals, p).cursors == chan.cursors,
        backlog(sent_each(chan, vals, p), p) == backlog(chan, p) + vals,
    decreases vals.len(),
{
    if vals.len() == 0 {
        assert(backlog(chan, p) + vals =~= backlog(chan, p));
    } else {
        lemma_sent_each_joins_backlog(chan, vals.drop_last(), p);
        let before = sent_each(chan, vals.drop_last(), p);
        law_send_joins_backlog(before, MessageToOneActor { val: vals.last(), priority: p });
        assert((backlog(chan, p) + vals.drop_last()).push(vals.last()) =~= backlog(chan, p)
            + vals);
    }
}

/// A uniform mailbox hands out its backlog from the head.
pub proof fn lemma_receipts_follow_backlog<M, W>(chan: ChanView<M, W>, id: int, p: u32)
    requires
        uniform(chan, p),
        0 <= id < chan.cursors.len(),
        chan.cursors[id] is Some,
    ensures
        receipts(chan, id, backlog(chan, p).len()) == Seq::new(
            backlog(chan, p).len(),
            |i: int| TryRecv::Got(ActorMessage::ToOneActor(backlog(chan, p)[i])),
        ),
    decreases backlog(chan, p).len(),
{
    let held = backlog(chan, p);
    if held.len() > 0 {
        law_receive_takes_oldest(chan, id, p);
        lemma_receipts_follow_backlog(chan.received(id), id, p);
        assert(receipts(chan, id, held.len()) =~= Seq::new(
            held.len(),
            |i: int| TryRecv::Got(ActorMessage::ToOneActor(held[i])),
        ));
    } else {
        assert(receipts(chan, id, held.len()) =~= Seq::new(
            held.len(),
            |i: int| TryRecv::Got(ActorMessage::ToOneActor(held[i])),
        ));
    }
}

/// Messages sent with one priority into a connected mailbox that holds
/// nothing are received in the order in which they were sent, whatever the
/// capacity and however many of the sends had to park.
pub proof fn law_uniform_sends_drain_in_order<M, W>(
    chan: ChanView<M, W>,
    vals: Seq<M>,
    p: u32,
    id: int,
)
    requires
        uniform(chan, p),
        chan.is_connected(),
        backlog(chan, p).len() == 0,
        0 <= id < chan.cursors.len(),
        chan.cursors[id] is Some,
    ensures
        receipts(sent_each(chan, vals, p), id, vals.len()) == Seq::new(
            vals.len(),
            |i: int| TryRecv::Got(ActorMessage::ToOneActor(vals[i])),
        ),
{
    lemma_sent_each_joins_backlog(chan, vals, p);
    let filled = sent_each(chan, vals, p);
    assert(backlog(filled, p) =~= vals);
    lemma_receipts_follow_backlog(filled, id, p);
}

/// A broadcast that enters is pending for every live receiver instance,
/// behind the broadcasts that the instance has not seen yet.
pub proof fn law_broadcast_pending_for_every_receiver<M, W>(
    chan: ChanView<M, W>,
    m: Arc<M>,
    id: int,
)
    requires
        chan.wf(),
        0 <= id < chan.cursors.len(),
        chan.cursors[id] is Some,
    ensures
        chan.broadcasted(m).cursor(id) < chan.broadcasted(m).broadcast.len(),
        chan.broadcasted(m).broadcast.subrange(
            chan.broadcasted(m).cursor(id),
            chan.broadcasted(m).broadcast.len() as int,
        ) == chan.broadcast.subrange(chan.cursor(id), chan.broadcast.len() as int).push(m),
{
    let post = chan.broadcasted(m);
    assert(post.broadcast.subrange(post.cursor(id), post.broadcast.len() as int)
        =~= chan.broadcast.subrange(chan.cursor(id), chan.broadcast.len() as int).push(m));
}

/// Reclaiming never removes a broadcast that a live receiver instance has
/// not seen: what is pending for the instance is the same before and after.
pub proof fn law_reclaim_keeps_unseen<M, W>(chan: ChanView<M, W>, id: int)
    requires
        chan.wf(),
        0 <= id < chan.cursors.len(),
        chan.cursors[id] is Some,
    ensures
        0 <= chan.reclaimed().cursor(id) <= chan.reclaimed().broadcast.len(),
        chan.reclaimed().broadcast.subrange(
            chan.reclaimed().cursor(id),
            chan.reclaimed().broadcast.len() as int,
        ) == chan.broadcast.subrange(chan.cursor(id), chan.broadcast.len() as int),
{
    lemma_min_cursor_is_lower_bound(chan.cursors, chan.broadcast.len() as int);
    let post = chan.reclaimed();
    let k = min_cursor(chan.cursors, chan.broadcast.len() as int);
    assert(chan.cursors[id] is Some);
    assert(k <= chan.cursor(id));
    assert(post.cursor(id) == chan.cursor(id) - k);
    assert(post.broadcast.subrange(post.cursor(id), post.broadcast.len() as int)
        =~= chan.broadcast.subrange(chan.cursor(id), chan.broadcast.len() as int));
}

/// The broadcasts that receiver instance `id` has not seen yet, oldest first.
pub open spec fn pending_broadcasts<M, W>(chan: ChanView<M, W>, id: int) -> Seq<Arc<M>> {
    chan.broadcast.subrange(chan.cursor(id), chan.broadcast.len() as int)
}

/// Admitting the oldest parked sender takes nothing from what is pending
/// for a live receiver instance; at most a broadcast is added at the end.
pub proof fn lemma_unpark_keeps_pending<M, W>(chan: ChanView<M, W>, id: int)
    requires
        chan.wf(),
        0 <= id < chan.cursors.len(),
        chan.cursors[id] is Some,
    ensures
        chan.unparked().cursors == chan.cursors,
        pending_broadcasts(chan.unparked(), id).len() >= pending_broadcasts(chan, id).len(),
        pending_broadcasts(chan.unparked(), id).subrange(
            0,
            pending_broadcasts(chan, id).len() as int,
        ) == pending_broadcasts(chan, id),
{
    assert(pending_broadcasts(chan.unparked(), id).subrange(
        0,
        pending_broadcasts(chan, id).len() as int,
    ) =~= pending_broadcasts(chan, id));
}

/// While a receiver instance lives, a receive by another instance takes
/// nothing from what is pending for it: no broadcast is lost to it, and
/// none changes its place.
pub proof fn law_receive_by_another_keeps_pending<M, W>(chan: ChanView<M, W>, id: int, other: int)
    requires
        chan.wf(),
        0 <= id < chan.cursors.len(),
        chan.cursors[id] is Some,
        0 <= other < chan.cursors.len(),
        chan.cursors[other] is Some,
        other != id,
    ensures
        chan.received(other).cursors[id] is Some,
        pending_broadcasts(chan.received(other), id).len() >= pending_broadcasts(chan, id).len(),
        pending_broadcasts(chan.received(other), id).subrange(
            0,
            pending_broadcasts(chan, id).len() as int,
        ) == pending_broadcasts(chan, id),
{
    let held = pending_broadcasts(chan, id);
    let post = chan.received(other);
    if chan.cursor(other) < chan.broadcast.len() {
        let advanced = ChanView {
            cursors: chan.cursors.update(other, Some((chan.cursor(other) + 1) as usize)),
            ..chan
        };
        assert(advanced.wf());
        law_reclaim_keeps_unseen(advanced, id);
        lemma_reclaim_keeps_wf(advanced);
        lemma_unpark_keeps_pending(advanced.reclaimed(), id);
    } else if chan.priority.len() > 0 {
        let popped = ChanView { priority: chan.priority.remove(front_index(chan.priority)), ..chan };
        lemma_unpark_keeps_pending(popped, id);
    } else if chan.ordered.len() > 0 {
        let popped = ChanView { ordered: chan.ordered.drop_first(), ..chan };
        lemma_unpark_keeps_pending(popped, id);
    } else {
        assert(pending_broadcasts(post, id).subrange(0, held.len() as int) =~= held);
    }
}

/// A receive by an instance for which a broadcast is pending hands out the
/// oldest such broadcast and leaves the others pending, in their order.
pub proof fn law_receive_takes_oldest_broadcast<M, W>(chan: ChanView<M, W>, id: int)
    requires
        chan.wf(),
        0 <= id < chan.cursors.len(),
        chan.cursors[id] is Some,
        pending_broadcasts(chan, id).len() > 0,
        chan.broadcast.len() <= usize::MAX,
    ensures
        chan.recv_outcome(id) == TryRecv::Got(
            ActorMessage::ToAllActors(pending_broadcasts(chan, id)[0]),
        ),
        chan.received(id).cursors[id] is Some,
        pending_broadcasts(chan.received(id), id).len() >= pending_broadcasts(chan, id).len() - 1,
        pending_broadcasts(chan.received(id), id).subrange(
            0,
            pending_broadcasts(chan, id).len() - 1,
        ) == pending_broadcasts(chan, id).drop_first(),
{
    let advanced = ChanView {
        cursors: chan.cursors.update(id, Some((chan.cursor(id) + 1) as usize)),
        ..chan
    };
    assert(match chan.cursors[id] {
        Some(c) => c <= chan.broadcast.len(),
        None => true,
    });
    assert(advanced.wf());
    assert(pending_broadcasts(advanced, id) =~= pending_broadcasts(chan, id).drop_first());
    law_reclaim_keeps_unseen(advanced, id);
    lemma_reclaim_keeps_wf(advanced);
    lemma_unpark_keeps_pending(advanced.reclaimed(), id);
}

/// Reclaiming keeps the structural invariant.
pub proof fn lemma_reclaim_keeps_wf<M, W>(chan: ChanView<M, W>)
    requires
        chan.wf(),
    ensures
        chan.reclaimed().wf(),
{
    lemma_min_cursor_is_lower_bound(chan.cursors, chan.broadcast.len() as int);
    let post = chan.reclaimed();
    assert forall|i: int| 0 <= i < post.cursors.len() implies match #[trigger] post.cursors[i] {
        Some(c) => c <= post.broadcast.len(),
        None => true,
    } by {
        assert(match chan.cursors[i] {
            Some(c) => c <= chan.broadcast.len(),
            None => true,
        });
    }
}

/// Letting go of the last strong sender settles every parked receiver with
/// `Shutdown` and every parked sender as closed, in that one step, and
/// leaves the queued messages in place.
pub proof fn law_last_sender_shuts_down<M, W>(chan: ChanView<M, W>)
    requires
        chan.sender_count == 1,
    ensures
        sender_released(chan, true).sender_count == 0,
        sender_released(chan, true).waiting_receivers.len() == 0,
        sender_released(chan, true).waiting_senders.len() == 0,
        sender_released(chan, true).ordered == chan.ordered,
        sender_released(chan, true).priority == chan.priority,
        sender_released(chan, true).broadcast == chan.broadcast,
        forall|i: int|
            0 <= i < chan.waiting_receivers.len() ==> sender_released(
                chan,
                true,
            ).settled_receivers[chan.settled_receivers.len() + i]
                == (#[trigger] chan.waiting_receivers[i]).settled(WakeReason::Shutdown),
        forall|i: int|
            0 <= i < chan.waiting_senders.len() ==> sender_released(
                chan,
                true,
            ).settled_senders[chan.settled_senders.len() + i]
                == (#[trigger] chan.waiting_senders[i]).settled(false),
{
}

/// Once the last strong sender is let go, the next poll of any receiver
/// waiter that was parked reports shutdown.
pub proof fn law_parked_receiver_resolves_to_shutdown<M, W>(chan: ChanView<M, W>, i: int)
    requires
        chan.wf(),
        chan.sender_count == 1,
        0 <= i < chan.waiting_receivers.len(),
    ensures
        sender_released(chan, true).receiver_poll_outcome(chan.waiting_receivers[i].ticket)
            == Poll::Ready(WakeReason::<M>::Shutdown),
{
    let post = sender_released(chan, true);
    let ticket = chan.waiting_receivers[i].ticket;
    let k = chan.settled_receivers.len() + i;
    assert(post.settled_receivers[k] == chan.waiting_receivers[i].settled(WakeReason::Shutdown));
    assert forall|j: int| 0 <= j < k implies (#[trigger] post.settled_receivers[j]).ticket
        != ticket by {
        if j < chan.settled_receivers.len() {
            assert(post.settled_receivers[j] == chan.settled_receivers[j]);
        } else {
            let w = chan.waiting_receivers[j - chan.settled_receivers.len()];
            assert(post.settled_receivers[j] == w.settled(WakeReason::Shutdown));
        }
    }
    lemma_receiver_position_first(post.settled_receivers, ticket, k);
}

/// Once the last strong sender is let go, the next poll of any sender
/// waiter that was parked reports a disconnected mailbox.
pub proof fn law_parked_sender_resolves_when_senders_are_gone<M, W>(chan: ChanView<M, W>, i: int)
    requires
        chan.wf(),
        chan.sender_count == 1,
        0 <= i < chan.waiting_senders.len(),
    ensures
        sender_released(chan, true).sender_poll_outcome(chan.waiting_senders[i].ticket)
            == Poll::Ready(Err::<(), Error>(Error::Disconnected)),
{
    let post = sender_released(chan, true);
    let ticket = chan.waiting_senders[i].ticket;
    let k = chan.settled_senders.len() + i;
    assert(post.settled_senders[k] == chan.waiting_senders[i].settled(false));
    assert forall|j: int| 0 <= j < k implies (#[trigger] post.settled_senders[j]).ticket
        != ticket by {
        if j < chan.settled_senders.len() {
            assert(post.settled_senders[j] == chan.settled_senders[j]);
        } else {
            let w = chan.waiting_senders[j - chan.settled_senders.len()];
            assert(post.settled_senders[j] == w.settled(false));
        }
    }
    lemma_sender_position_first(post.settled_senders, ticket, k);
}

/// Once the last receiver is removed, the next poll of any sender waiter
/// that was parked reports a disconnected mailbox.
pub proof fn law_parked_sender_resolves_when_receivers_are_gone<M, W>(
    chan: ChanView<M, W>,
    id: int,
    i: int,
)
    requires
        chan.wf(),
        chan.receiver_count == 1,
        0 <= i < chan.waiting_senders.len(),
    ensures
        chan.receiver_dropped(id).sender_poll_outcome(chan.waiting_senders[i].ticket)
            == Poll::Ready(Err::<(), Error>(Error::Disconnected)),
{
    let post = chan.receiver_dropped(id);
    let ticket = chan.waiting_senders[i].ticket;
    let k = chan.settled_senders.len() + i;
    assert(post.settled_senders[k] == chan.waiting_senders[i].settled(false));
    assert forall|j: int| 0 <= j < k implies (#[trigger] post.settled_senders[j]).ticket
        != ticket by {
        if j < chan.settled_senders.len() {
            assert(post.settled_senders[j] == chan.settled_senders[j]);
        } else {
            let w = chan.waiting_senders[j - chan.settled_senders.len()];
            assert(post.settled_senders[j] == w.settled(false));
        }
    }
    lemma_sender_position_first(post.settled_senders, ticket, k);
}

/// A mailbox without strong senders that holds nothing for a receiver
/// instance reports shutdown to it.
pub proof fn law_drained_mailbox_reports_shutdown<M, W>(chan: ChanView<M, W>, id: int)
    requires
        chan.sender_count == 0,
        chan.cursor(id) >= chan.broadcast.len(),
        chan.priority.len() == 0,
        chan.ordered.len() == 0,
        chan.waiting_senders.len() == 0,
    ensures
        chan.recv_outcome(id) == TryRecv::<M>::Got(ActorMessage::Shutdown),
        chan.received(id) == chan,
{
}

/// Removing the last receiver closes every parked sender in that one step.
pub proof fn law_last_receiver_closes_senders<M, W>(chan: ChanView<M, W>, id: int)
    requires
        chan.receiver_count == 1,
    ensures
        chan.receiver_dropped(id).receiver_count == 0,
        chan.receiver_dropped(id).waiting_senders.len() == 0,
        forall|i: int|
            0 <= i < chan.waiting_senders.len() ==> chan.receiver_dropped(
                id,
            ).settled_senders[chan.settled_senders.len() + i]
                == (#[trigger] chan.waiting_senders[i]).settled(false),
{
}

/// A disconnected mailbox refuses every message and is left as it was, so
/// that it refuses the next one too.
pub proof fn law_disconnected_send_fails<M, W>(chan: ChanView<M, W>, msg: SentMessage<M>)
    requires
        !chan.is_connected(),
    ensures
        chan.send_outcome(msg) == Err::<(), TrySendFail>(TrySendFail::Disconnected),
        chan.sent(msg) == chan,
{
}

/// Admitting a message that can enter, and admitting the oldest parked
/// sender, keep every queue within the capacity.
pub proof fn lemma_admission_keeps_capacity<M, W>(chan: ChanView<M, W>, msg: SentMessage<M>)
    requires
        chan.within_capacity(),
    ensures
        chan.can_accept(msg) ==> chan.accepted(msg).within_capacity(),
        chan.unparked().within_capacity(),
{
}

/// Reclaiming keeps every queue within the capacity.
pub proof fn lemma_reclaim_keeps_capacity<M, W>(chan: ChanView<M, W>)
    requires
        chan.within_capacity(),
    ensures
        chan.reclaimed().within_capacity(),
{
    lemma_min_cursor_is_lower_bound(chan.cursors, chan.broadcast.len() as int);
}

/// No send, receive, removal of a receiver or withdrawal lets a queue grow
/// beyond the capacity.
pub proof fn law_capacity_is_kept<M, W>(
    chan: ChanView<M, W>,
    msg: SentMessage<M>,
    id: int,
    ticket: u64,
)
    requires
        chan.within_capacity(),
        0 <= id < chan.cursors.len(),
    ensures
        chan.sent(msg).within_capacity(),
        chan.received(id).within_capacity(),
        chan.receiver_dropped(id).within_capacity(),
        chan.sender_cancelled(ticket).within_capacity(),
        chan.receiver_cancelled(ticket).within_capacity(),
{
    lemma_admission_keeps_capacity(chan, msg);
    if chan.cursor(id) < chan.broadcast.len() {
        let advanced = ChanView {
            cursors: chan.cursors.update(id, Some((chan.cursor(id) + 1) as usize)),
            ..chan
        };
        lemma_reclaim_keeps_capacity(advanced);
        lemma_admission_keeps_capacity(advanced.reclaimed(), msg);
    } else if chan.priority.len() > 0 {
        let popped = ChanView { priority: chan.priority.remove(front_index(chan.priority)), ..chan };
        lemma_front_index_in_range(chan.priority);
        lemma_admission_keeps_capacity(popped, msg);
    } else if chan.ordered.len() > 0 {
        let popped = ChanView { ordered: chan.ordered.drop_first(), ..chan };
        lemma_admission_keeps_capacity(popped, msg);
    }
    let left = ChanView {
        cursors: chan.cursors.update(id, None),
        receiver_count: (chan.receiver_count - 1) as usize,
        ..chan
    };
    lemma_reclaim_keeps_capacity(left);
    lemma_admission_keeps_capacity(left.reclaimed(), msg);
}

/// The message that leaves a priority queue next is one of its messages.
pub proof fn lemma_front_index_in_range<M>(q: Seq<MessageToOneActor<M>>)
    requires
        q.len() > 0,
    ensures
        0 <= front_index(q) < q.len(),
    decreases q.len(),
{
    if q.len() > 1 {
        lemma_front_index_in_range(q.drop_last());
    }
}

/// Sending, receiving, polling and withdrawing leave both counts as they
/// are: a mailbox that is disconnected stays so through any traffic, and
/// only a new handle can connect it again.
pub proof fn law_traffic_keeps_connection<M, W>(
    chan: ChanView<M, W>,
    msg: SentMessage<M>,
    id: int,
    ticket: u64,
    waker: W,
)
    ensures
        chan.sent(msg).is_connected() == chan.is_connected(),
        chan.received(id).is_connected() == chan.is_connected(),
        chan.sender_polled(ticket, waker).is_connected() == chan.is_connected(),
        chan.receiver_polled(ticket, waker).is_connected() == chan.is_connected(),
        chan.sender_cancelled(ticket).is_connected() == chan.is_connected(),
        chan.receiver_cancelled(ticket).is_connected() == chan.is_connected(),
{
}

/// Withdrawing a sender waiter changes neither the queues, nor the parked
/// receivers, nor the wakers that are owed a wake-up.
pub proof fn law_cancel_keeps_queues<M, W>(chan: ChanView<M, W>, ticket: u64)
    ensures
        chan.sender_cancelled(ticket).len() == chan.len(),
        chan.sender_cancelled(ticket).ordered == chan.ordered,
        chan.sender_cancelled(ticket).priority == chan.priority,
        chan.sender_cancelled(ticket).broadcast == chan.broadcast,
        chan.sender_cancelled(ticket).woken == chan.woken,
        chan.sender_cancelled(ticket).waiting_receivers == chan.waiting_receivers,
        chan.sender_cancelled(ticket).settled_receivers == chan.settled_receivers,
{
}

/// Abandoning a send operation, parked or not, leaves every queue as it
/// was; and unless its handle was the last strong one, no waker falls due.
pub proof fn law_abandoned_send_keeps_queues<M, W, Rc: TxRefCounter>(
    future: SendFuture<M, Rc>,
    chan: ChanView<M, W>,
)
    ensures
        future.cancelled_chan(chan).len() == chan.len(),
        future.cancelled_chan(chan).ordered == chan.ordered,
        future.cancelled_chan(chan).priority == chan.priority,
        future.cancelled_chan(chan).broadcast == chan.broadcast,
        !(future.tx.rc.strong() && chan.sender_count == 1) ==> future.cancelled_chan(chan).woken
            == chan.woken,
{
}

} // verus!
