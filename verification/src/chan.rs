//! The mailbox itself: queues, waiters and reference counts, with the
//! transactional operations on them.

use crate::message::MessageToOneActor;
use crate::message::SentMessage;
use crate::message::TrySendFail;
use crate::message::WakeReason;
use crate::model::is_full;
use crate::model::push_waker;
use crate::model::receiver_wakers;
use crate::model::sender_wakers;
use crate::model::settle_receivers;
use crate::model::settle_senders;
use crate::model::ChanView;
use crate::notice::new_event;
use crate::waiting::WaitingReceiver;
use crate::waiting::WaitingSender;
use event_listener::Event;
use std::sync::Arc;
use vstd::prelude::*;

verus! {

/// One mailbox. All fields but the notifier are plain data, and `view`
/// gives them as a `ChanView`.
pub struct Chan<M, W> {
    pub capacity: Option<usize>,
    pub sender_count: usize,
    pub receiver_count: usize,
    pub ordered_queue: Vec<M>,
    pub priority_queue: Vec<MessageToOneActor<M>>,
    pub broadcast: Vec<Arc<M>>,
    pub cursors: Vec<Option<usize>>,
    pub waiting_senders: Vec<WaitingSender<M, W>>,
    pub settled_senders: Vec<WaitingSender<M, W>>,
    pub waiting_receivers: Vec<WaitingReceiver<M, W>>,
    pub settled_receivers: Vec<WaitingReceiver<M, W>>,
    pub next_ticket: u64,
    pub woken: Vec<W>,
    pub on_shutdown: Event,
}

impl<M, W> View for Chan<M, W> {
    type V = ChanView<M, W>;

    open spec fn view(&self) -> ChanView<M, W> {
        ChanView {
            capacity: self.capacity,
            sender_count: self.sender_count,
            receiver_count: self.receiver_count,
            ordered: self.ordered_queue@,
            priority: self.priority_queue@,
            broadcast: self.broadcast@,
            cursors: self.cursors@,
            waiting_senders: self.waiting_senders@,
            settled_senders: self.settled_senders@,
            waiting_receivers: self.waiting_receivers@,
            settled_receivers: self.settled_receivers@,
            next_ticket: self.next_ticket,
            woken: self.woken@,
        }
    }
}

/// Appends `waker` to `wakers` if there is one.
pub(crate) fn push_woken<W>(wakers: &mut Vec<W>, waker: Option<W>)
    ensures
        final(wakers)@ == push_waker(old(wakers)@, waker),
{
    match waker {
        Some(w) => wakers.push(w),
        None => {},
    }
}

impl<M, W> Chan<M, W> {
    /// A mailbox with no messages, no handles and no waiters.
    pub fn new(capacity: Option<usize>) -> (chan: Self)
        ensures
            chan@ == (ChanView::<M, W> {
                capacity,
                sender_count: 0,
                receiver_count: 0,
                ordered: Seq::empty(),
                priority: Seq::empty(),
                broadcast: Seq::empty(),
                cursors: Seq::empty(),
                waiting_senders: Seq::empty(),
                settled_senders: Seq::empty(),
                waiting_receivers: Seq::empty(),
                settled_receivers: Seq::empty(),
                next_ticket: 0,
                woken: Seq::empty(),
            }),
            chan@.wf(),
            chan@.within_capacity(),
    {
        Chan {
            capacity,
            sender_count: 0,
            receiver_count: 0,
            ordered_queue: Vec::new(),
            priority_queue: Vec::new(),
            broadcast: Vec::new(),
            cursors: Vec::new(),
            waiting_senders: Vec::new(),
            settled_senders: Vec::new(),
            waiting_receivers: Vec::new(),
            settled_receivers: Vec::new(),
            next_ticket: 0,
            woken: Vec::new(),
            on_shutdown: new_event(),
        }
    }

    /// Whether a queue of length `len` has no room left.
    pub fn is_full(&self, len: usize) -> (full: bool)
        ensures
            full == is_full(self.capacity, len as nat),
    {
        match self.capacity {
            Some(cap) => len >= cap,
            None => false,
        }
    }

    /// Whether both a strong sender and a receiver exist.
    pub fn is_connected(&self) -> (connected: bool)
        ensures
            connected == self@.is_connected(),
    {
        self.receiver_count > 0 && self.sender_count > 0
    }

    /// Hands over the wakers that are owed a wake-up, oldest first, and
    /// leaves none behind. The caller invokes them once it has let go of the
    /// mailbox.
    pub fn take_woken(&mut self) -> (wakers: Vec<W>)
        ensures
            wakers@ == old(self)@.woken,
            final(self)@ == (ChanView { woken: Seq::empty(), ..old(self)@ }),
    {
        let mut wakers: Vec<W> = Vec::new();
        core::mem::swap(&mut self.woken, &mut wakers);
        wakers
    }

    /// Wakes every parked receiver, for shutdown or to fetch a broadcast.
    pub fn wake_receivers(&mut self, shutdown: bool)
        requires
            old(self)@.wf(),
        ensures
            final(self)@ == old(self)@.receivers_woken(shutdown),
            final(self)@.wf(),
    {
        let ghost pre = self@;
        let mut parked: Vec<WaitingReceiver<M, W>> = Vec::new();
        core::mem::swap(&mut self.waiting_receivers, &mut parked);
        let n: usize = parked.len();
        let mut i: usize = 0;
        while i < n
            invariant
                i <= n,
                n == pre.waiting_receivers.len(),
                parked@ == pre.waiting_receivers.subrange(i as int, n as int),
                pre.wf(),
                self@ == (ChanView {
                    waiting_receivers: Seq::empty(),
                    settled_receivers: pre.settled_receivers + settle_receivers(
                        pre.waiting_receivers.subrange(0, i as int),
                        shutdown,
                    ),
                    woken: pre.woken + receiver_wakers(pre.waiting_receivers.subrange(0, i as int)),
                    ..pre
                }),
            decreases n - i,
        {
            let ghost before = self@;
            let mut w = parked.remove(0);
            assert(w == pre.waiting_receivers[i as int]);
            let reason = if shutdown {
                WakeReason::Shutdown
            } else {
                WakeReason::MessageToAllActors
            };
            let waker = w.fulfill(reason);
            self.settled_receivers.push(w);
            push_woken(&mut self.woken, waker);
            proof {
                let head = pre.waiting_receivers.subrange(0, i as int);
                let next = pre.waiting_receivers.subrange(0, i + 1);
                assert(next.drop_last() =~= head);
                assert(next.last() == pre.waiting_receivers[i as int]);
                assert(settle_receivers(next, shutdown) =~= settle_receivers(head, shutdown).push(
                    w,
                ));
                assert(self@ =~= (ChanView {
                    waiting_receivers: Seq::empty(),
                    settled_receivers: pre.settled_receivers + settle_receivers(next, shutdown),
                    woken: pre.woken + receiver_wakers(next),
                    ..pre
                }));
            }
            i = i + 1;
        }
        proof {
            assert(pre.waiting_receivers.subrange(0, n as int) =~= pre.waiting_receivers);
            assert(self@ =~= pre.receivers_woken(shutdown));
        }
    }

    /// Closes every parked sender: its message is discarded and it is woken.
    pub fn close_senders(&mut self)
        requires
            old(self)@.wf(),
        ensures
            final(self)@ == old(self)@.senders_closed(),
            final(self)@.wf(),
    {
        let ghost pre = self@;
        let mut parked: Vec<WaitingSender<M, W>> = Vec::new();
        core::mem::swap(&mut self.waiting_senders, &mut parked);
        let n: usize = parked.len();
        let mut i: usize = 0;
        while i < n
            invariant
                i <= n,
                n == pre.waiting_senders.len(),
                parked@ == pre.waiting_senders.subrange(i as int, n as int),
                pre.wf(),
                self@ == (ChanView {
                    waiting_senders: Seq::empty(),
                    settled_senders: pre.settled_senders + settle_senders(
                        pre.waiting_senders.subrange(0, i as int),
                        false,
                    ),
                    woken: pre.woken + sender_wakers(pre.waiting_senders.subrange(0, i as int)),
                    ..pre
                }),
            decreases n - i,
        {
            let mut w = parked.remove(0);
            assert(w == pre.waiting_senders[i as int]);
            let taken = w.fulfill(false);
            self.settled_senders.push(w);
            push_woken(&mut self.woken, taken.1);
            proof {
                let head = pre.waiting_senders.subrange(0, i as int);
                let next = pre.waiting_senders.subrange(0, i + 1);
                assert(next.drop_last() =~= head);
                assert(next.last() == pre.waiting_senders[i as int]);
                assert(settle_senders(next, false) =~= settle_senders(head, false).push(w));
                assert(self@ =~= (ChanView {
                    waiting_senders: Seq::empty(),
                    settled_senders: pre.settled_senders + settle_senders(next, false),
                    woken: pre.woken + sender_wakers(next),
                    ..pre
                }));
            }
            i = i + 1;
        }
        proof {
            assert(pre.waiting_senders.subrange(0, n as int) =~= pre.waiting_senders);
            assert(self@ =~= pre.senders_closed());
        }
    }

    /// Appends a broadcast to the ring and wakes every parked receiver to
    /// fetch it. Capacity is not consulted.
    pub fn send_broadcast(&mut self, m: Arc<M>)
        requires
            old(self)@.wf(),
        ensures
            final(self)@ == old(self)@.broadcasted(m),
            final(self)@.wf(),
    {
        self.broadcast.push(m);
        self.wake_receivers(false);
    }

    /// Whether `msg` can enter now without parking.
    pub fn can_accept(&self, msg: &SentMessage<M>) -> (fits: bool)
        ensures
            fits == self@.can_accept(*msg),
    {
        match msg {
            SentMessage::ToAllActors(_) => !self.is_full(self.broadcast.len()),
            SentMessage::ToOneActor(m) => {
                if self.waiting_receivers.len() > 0 {
                    true
                } else if m.priority == 0 {
                    !self.is_full(self.ordered_queue.len())
                } else {
                    !self.is_full(self.priority_queue.len())
                }
            },
        }
    }

    /// Lets `msg` in: a broadcast joins the ring; a message for one actor goes
    /// into the slot of the oldest parked receiver, else into its queue.
    pub fn accept(&mut self, msg: SentMessage<M>)
        requires
            old(self)@.wf(),
            old(self)@.can_accept(msg),
        ensures
            final(self)@ == old(self)@.accepted(msg),
            final(self)@.wf(),
            old(self)@.within_capacity() ==> final(self)@.within_capacity(),
    {
        let ghost pre = self@;
        match msg {
            SentMessage::ToAllActors(m) => {
                self.send_broadcast(m);
            },
            SentMessage::ToOneActor(m) => {
                if self.waiting_receivers.len() > 0 {
                    let mut r = self.waiting_receivers.remove(0);
                    let waker = r.fulfill(WakeReason::MessageToOneActor(m));
                    self.settled_receivers.push(r);
                    push_woken(&mut self.woken, waker);
                    assert(self@ =~= pre.accepted(msg));
                } else if m.priority == 0 {
                    self.ordered_queue.push(m.val);
                    assert(self@ =~= pre.accepted(msg));
                } else {
                    self.priority_queue.push(m);
                    assert(self@ =~= pre.accepted(msg));
                }
            },
        }
    }

    /// Attempts to send without suspending. A disconnected mailbox refuses;
    /// a message that can enter does; any other is parked behind the senders
    /// that already wait, and its ticket is reported.
    pub fn try_send(&mut self, message: SentMessage<M>) -> (outcome: Result<(), TrySendFail>)
        requires
            old(self)@.wf(),
            old(self)@.next_ticket < u64::MAX,
        ensures
            outcome == old(self)@.send_outcome(message),
            final(self)@ == old(self)@.sent(message),
            final(self)@.wf(),
            old(self)@.within_capacity() ==> final(self)@.within_capacity(),
    {
        if !self.is_connected() {
            return Err(TrySendFail::Disconnected);
        }
        if self.can_accept(&message) {
            self.accept(message);
            Ok(())
        } else {
            let ghost pre = self@;
            let ticket = self.next_ticket;
            let waiting = WaitingSender::new(ticket, message);
            self.waiting_senders.push(waiting);
            self.next_ticket = ticket + 1;
            assert(self@ =~= pre.parked(message));
            Err(TrySendFail::Full(ticket))
        }
    }
}

} // verus!
