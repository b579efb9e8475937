//! The receiving side of the mailbox: taking messages out, reclaiming
//! broadcasts, admitting parked senders, and the receiver instances.

use crate::chan::Chan;
use crate::message::ActorMessage;
use crate::message::SentMessage;
use crate::message::TryRecv;
use crate::model::front_index;
use crate::model::min_cursor;
use crate::model::ChanView;
use crate::notice::notify;
use crate::notice::share;
use crate::waiting::WaitingReceiver;
use vstd::prelude::*;

verus! {

/// The smallest live cursor is no greater than the bound, nor than any live cursor.
pub proof fn lemma_min_cursor_is_lower_bound(cursors: Seq<Option<usize>>, bound: int)
    ensures
        min_cursor(cursors, bound) <= bound,
        forall|i: int|
            0 <= i < cursors.len() ==> match #[trigger] cursors[i] {
                Some(c) => min_cursor(cursors, bound) <= c,
                None => true,
            },
        bound >= 0 ==> min_cursor(cursors, bound) >= 0,
    decreases cursors.len(),
{
    if cursors.len() > 0 {
        lemma_min_cursor_is_lower_bound(cursors.drop_last(), bound);
        assert forall|i: int| 0 <= i < cursors.len() implies match #[trigger] cursors[i] {
            Some(c) => min_cursor(cursors, bound) <= c,
            None => true,
        } by {
            if i < cursors.len() - 1 {
                assert(cursors[i] == cursors.drop_last()[i]);
            }
        }
    }
}

impl<M, W> Chan<M, W> {
    /// The smallest cursor of a live receiver, or the ring's length if none is live.
    pub fn min_live_cursor(&self) -> (k: usize)
        ensures
            k == min_cursor(self@.cursors, self@.broadcast.len() as int),
    {
        let mut k: usize = self.broadcast.len();
        let mut i: usize = 0;
        while i < self.cursors.len()
            invariant
                i <= self.cursors@.len(),
                k == min_cursor(self.cursors@.subrange(0, i as int), self.broadcast@.len() as int),
            decreases self.cursors@.len() - i,
        {
            proof {
                assert(self.cursors@.subrange(0, i + 1).drop_last() =~= self.cursors@.subrange(
                    0,
                    i as int,
                ));
            }
            match self.cursors[i] {
                Some(c) => {
                    if c < k {
                        k = c;
                    }
                },
                None => {},
            }
            i = i + 1;
        }
        proof {
            assert(self.cursors@.subrange(0, i as int) =~= self.cursors@);
        }
        k
    }

    /// Removes from the ring the broadcasts that every live receiver has
    /// passed, and moves the cursors down with it.
    pub fn reclaim(&mut self)
        requires
            old(self)@.wf(),
        ensures
            final(self)@ == old(self)@.reclaimed(),
            final(self)@.wf(),
            old(self)@.within_capacity() ==> final(self)@.within_capacity(),
    {
        let ghost pre = self@;
        let k = self.min_live_cursor();
        proof {
            lemma_min_cursor_is_lower_bound(pre.cursors, pre.broadcast.len() as int);
        }
        let n: usize = self.cursors.len();
        let mut i: usize = 0;
        while i < n
            invariant
                i <= n,
                n == pre.cursors.len(),
                self.cursors@.len() == n,
                self@ == (ChanView { cursors: self.cursors@, ..pre }),
                forall|j: int|
                    0 <= j < i ==> #[trigger] self.cursors@[j] == pre.reclaimed().cursors[j],
                forall|j: int| i <= j < n ==> #[trigger] self.cursors@[j] == pre.cursors[j],
                forall|j: int|
                    0 <= j < n ==> match #[trigger] pre.cursors[j] {
                        Some(c) => k <= c,
                        None => true,
                    },
                k == min_cursor(pre.cursors, pre.broadcast.len() as int),
            decreases n - i,
        {
            match self.cursors[i] {
                Some(c) => {
                    assert(pre.cursors[i as int] == Some(c));
                    self.cursors.set(i, Some(c - k));
                },
                None => {},
            }
            i = i + 1;
        }
        let ghost mid = self@;
        let mut j: usize = 0;
        while j < k
            invariant
                j <= k,
                k <= pre.broadcast.len(),
                self.broadcast@ == pre.broadcast.subrange(j as int, pre.broadcast.len() as int),
                self@ == (ChanView { broadcast: self.broadcast@, ..mid }),
            decreases k - j,
        {
            self.broadcast.remove(0);
            assert(self.broadcast@ =~= pre.broadcast.subrange(
                j + 1,
                pre.broadcast.len() as int,
            ));
            j = j + 1;
        }
        proof {
            assert(self@.cursors =~= pre.reclaimed().cursors);
            assert(self@ =~= pre.reclaimed());
            assert forall|i: int| 0 <= i < self@.cursors.len() implies match #[trigger] self@.cursors[i] {
                Some(c) => c <= self@.broadcast.len(),
                None => true,
            } by {
                assert(match pre.cursors[i] {
                    Some(c) => c <= pre.broadcast.len() && k <= c,
                    None => true,
                });
            }
        }
    }

    /// Admits the oldest parked sender if its message can enter now.
    pub fn unpark_one(&mut self)
        requires
            old(self)@.wf(),
        ensures
            final(self)@ == old(self)@.unparked(),
            final(self)@.wf(),
            old(self)@.within_capacity() ==> final(self)@.within_capacity(),
    {
        let ghost pre = self@;
        if self.waiting_senders.len() > 0 {
            assert(pre.waiting_senders[0].is_new());
            let fits = self.can_accept(self.waiting_senders[0].peek());
            if fits {
                let mut w = self.waiting_senders.remove(0);
                let taken = w.fulfill(true);
                self.settled_senders.push(w);
                crate::chan::push_woken(&mut self.woken, taken.1);
                proof {
                    let first = pre.waiting_senders[0];
                    assert(self@ =~= (ChanView {
                        waiting_senders: pre.waiting_senders.drop_first(),
                        settled_senders: pre.settled_senders.push(first.settled(true)),
                        woken: crate::model::push_waker(pre.woken, first.waker),
                        ..pre
                    }));
                    assert(self@.can_accept(taken.0));
                }
                self.accept(taken.0);
            }
        }
    }

    /// The position of the message that leaves the priority queue next.
    pub fn front_position(&self) -> (best: usize)
        requires
            self@.priority.len() > 0,
        ensures
            best == front_index(self@.priority),
            best < self@.priority.len(),
    {
        let mut best: usize = 0;
        let mut j: usize = 1;
        while j < self.priority_queue.len()
            invariant
                1 <= j <= self.priority_queue@.len(),
                best < j,
                best == front_index(self.priority_queue@.subrange(0, j as int)),
            decreases self.priority_queue@.len() - j,
        {
            proof {
                assert(self.priority_queue@.subrange(0, j + 1).drop_last()
                    =~= self.priority_queue@.subrange(0, j as int));
            }
            if self.priority_queue[j].priority > self.priority_queue[best].priority {
                best = j;
            }
            j = j + 1;
        }
        proof {
            assert(self.priority_queue@.subrange(0, j as int) =~= self.priority_queue@);
        }
        best
    }

    /// Whether the oldest parked sender holds a message for one actor.
    pub fn front_hands_over(&self) -> (yes: bool)
        requires
            self@.wf(),
        ensures
            yes == self@.hands_over(),
    {
        if self.waiting_senders.len() > 0 {
            assert(self@.waiting_senders[0].is_new());
            match self.waiting_senders[0].peek() {
                SentMessage::ToOneActor(_) => true,
                SentMessage::ToAllActors(_) => false,
            }
        } else {
            false
        }
    }

    /// Attempts to receive for receiver instance `id` without suspending: a
    /// pending broadcast first, then the highest priority, then the oldest
    /// ordered message. An empty mailbox reports shutdown if no strong
    /// sender is left; otherwise a waiter is parked and its ticket reported.
    pub fn try_recv(&mut self, id: usize) -> (outcome: TryRecv<M>)
        requires
            old(self)@.wf(),
            old(self)@.next_ticket < u64::MAX,
            id < old(self)@.cursors.len(),
            old(self)@.cursors[id as int] is Some,
        ensures
            outcome == old(self)@.recv_outcome(id as int),
            final(self)@ == old(self)@.received(id as int),
            final(self)@.wf(),
            old(self)@.within_capacity() ==> final(self)@.within_capacity(),
    {
        let ghost pre = self@;
        let cursor: usize = match self.cursors[id] {
            Some(c) => c,
            None => vstd::pervasive::unreached(),
        };
        assert(pre.cursors[id as int] == Some(cursor));
        if cursor < self.broadcast.len() {
            let body = share(&self.broadcast[cursor]);
            self.cursors.set(id, Some(cursor + 1));
            assert(self@ =~= (ChanView {
                cursors: pre.cursors.update(id as int, Some((pre.cursor(id as int) + 1) as usize)),
                ..pre
            }));
            self.reclaim();
            self.unpark_one();
            TryRecv::Got(ActorMessage::ToAllActors(body))
        } else if self.priority_queue.len() > 0 {
            let i = self.front_position();
            let m = self.priority_queue.remove(i);
            assert(self@ =~= (ChanView {
                priority: pre.priority.remove(front_index(pre.priority)),
                ..pre
            }));
            self.unpark_one();
            TryRecv::Got(ActorMessage::ToOneActor(m.val))
        } else if self.ordered_queue.len() > 0 {
            let v = self.ordered_queue.remove(0);
            assert(self@ =~= (ChanView { ordered: pre.ordered.drop_first(), ..pre }));
            self.unpark_one();
            TryRecv::Got(ActorMessage::ToOneActor(v))
        } else if self.front_hands_over() {
            let mut w = self.waiting_senders.remove(0);
            let taken = w.fulfill(true);
            self.settled_senders.push(w);
            crate::chan::push_woken(&mut self.woken, taken.1);
            assert(self@ =~= pre.received(id as int));
            match taken.0 {
                SentMessage::ToOneActor(m) => TryRecv::Got(ActorMessage::ToOneActor(m.val)),
                SentMessage::ToAllActors(_) => vstd::pervasive::unreached(),
            }
        } else if self.sender_count == 0 {
            TryRecv::Got(ActorMessage::Shutdown)
        } else {
            let ticket = self.next_ticket;
            self.waiting_receivers.push(WaitingReceiver::new(ticket));
            self.next_ticket = ticket + 1;
            assert(self@ =~= pre.receiver_parked());
            TryRecv::Empty(ticket)
        }
    }

    /// Adds a receiver instance and reports its number. Its cursor starts
    /// at the end of the ring.
    pub fn add_receiver(&mut self) -> (id: usize)
        requires
            old(self)@.wf(),
            old(self)@.receiver_count < usize::MAX,
        ensures
            id == old(self)@.cursors.len(),
            final(self)@ == old(self)@.receiver_added(),
            final(self)@.wf(),
            old(self)@.within_capacity() ==> final(self)@.within_capacity(),
    {
        let ghost pre = self@;
        let id = self.cursors.len();
        self.cursors.push(Some(self.broadcast.len()));
        self.receiver_count = self.receiver_count + 1;
        assert(self@ =~= pre.receiver_added());
        id
    }

    /// Removes receiver instance `id`. With the last receiver gone every
    /// parked sender is closed and the shutdown notifier fires.
    pub fn drop_receiver(&mut self, id: usize)
        requires
            old(self)@.wf(),
            old(self)@.receiver_count > 0,
            id < old(self)@.cursors.len(),
        ensures
            final(self)@ == old(self)@.receiver_dropped(id as int),
            final(self)@.wf(),
            old(self)@.within_capacity() ==> final(self)@.within_capacity(),
    {
        let ghost pre = self@;
        self.cursors.set(id, None);
        self.receiver_count = self.receiver_count - 1;
        assert(self@ =~= (ChanView {
            cursors: pre.cursors.update(id as int, None),
            receiver_count: (pre.receiver_count - 1) as usize,
            ..pre
        }));
        self.reclaim();
        if self.receiver_count == 0 {
            self.close_senders();
            notify(&self.on_shutdown, usize::MAX);
        } else {
            self.unpark_one();
        }
    }
}

} // verus!
