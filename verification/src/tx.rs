//! The sending side: sender handles and the suspended send operation.

use crate::chan::Chan;
use crate::message::Error;
use crate::message::MessageToOneActor;
use crate::message::Poll;
use crate::message::SentMessage;
use crate::message::TrySendFail;
use crate::model::ChanView;
use crate::notice::listen;
use crate::refcount::count_after_decrement;
use crate::refcount::count_after_increment;
use crate::refcount::RefCounterInner;
use crate::refcount::TxEither;
use crate::refcount::TxRefCounter;
use crate::refcount::TxStrong;
use crate::refcount::TxWeak;
use crate::tickets::lemma_sender_position_found;
use event_listener::EventListener;
use std::sync::Arc;
use vstd::prelude::*;

verus! {

/// A handle for sending into a mailbox. A strong handle keeps the mailbox
/// open for receivers; a weak one does not.
pub struct Sender<Rc: TxRefCounter> {
    pub rc: Rc,
}

/// The mailbox after a sender handle of the given strength was let go: the
/// count drops, and with the last strong handle every parked receiver is
/// woken for shutdown and every parked sender is closed.
pub open spec fn sender_released<M, W>(chan: ChanView<M, W>, strong: bool) -> ChanView<M, W> {
    let counted = ChanView {
        sender_count: count_after_decrement(strong, chan.sender_count),
        ..chan
    };
    if strong && chan.sender_count == 1 {
        counted.receivers_woken(true).senders_closed()
    } else {
        counted
    }
}

/// The mailbox with one more sender handle of the given strength.
pub open spec fn sender_added<M, W>(chan: ChanView<M, W>, strong: bool) -> ChanView<M, W> {
    ChanView { sender_count: count_after_increment(strong, chan.sender_count), ..chan }
}

impl Sender<TxStrong> {
    /// A new strong handle; the mailbox counts it.
    pub fn new<M, W>(inner: &mut Chan<M, W>) -> (sender: Self)
        requires
            old(inner)@.sender_count < usize::MAX,
        ensures
            sender.rc.strong(),
            final(inner)@ == sender_added(old(inner)@, true),
    {
        let first = TxStrong::first();
        let rc = first.increment(inner);
        Sender { rc }
    }
}

impl<Rc: TxRefCounter> Sender<Rc> {
    /// Attempts to send without suspending; see `Chan::try_send`.
    pub fn try_send<M, W>(&self, inner: &mut Chan<M, W>, message: SentMessage<M>) -> (outcome:
        Result<(), TrySendFail>)
        requires
            old(inner)@.wf(),
            old(inner)@.next_ticket < u64::MAX,
        ensures
            outcome == old(inner)@.send_outcome(message),
            final(inner)@ == old(inner)@.sent(message),
            final(inner)@.wf(),
            old(inner)@.within_capacity() ==> final(inner)@.within_capacity(),
    {
        inner.try_send(message)
    }

    /// Tells every receiver instance to stop: `stop` is appended to the
    /// broadcast ring whatever the capacity, so that each instance meets it
    /// once, after the broadcasts sent before it.
    pub fn stop_all_receivers<M, W>(&self, inner: &mut Chan<M, W>, stop: Arc<M>)
        requires
            old(inner)@.wf(),
        ensures
            final(inner)@ == old(inner)@.broadcasted(stop),
            final(inner)@.wf(),
    {
        inner.send_broadcast(stop);
    }

    /// Starts a send operation. The operation owns a handle of its own.
    pub fn send<M, W>(&self, inner: &mut Chan<M, W>, message: SentMessage<M>) -> (future:
        SendFuture<M, Rc>)
        requires
            old(inner)@.sender_count < usize::MAX,
        ensures
            future.inner == SendFutureInner::New(message),
            future.tx.rc.strong() == self.rc.strong(),
            final(inner)@ == sender_added(old(inner)@, self.rc.strong()),
    {
        SendFuture::new(message, self.duplicate(inner))
    }

    /// A weak handle to the same mailbox.
    pub fn downgrade(&self) -> (weak: Sender<TxWeak>)
        ensures
            !weak.rc.strong(),
    {
        Sender { rc: TxWeak::first() }
    }

    /// Whether this handle keeps the mailbox open.
    pub fn is_strong(&self) -> (strong: bool)
        ensures
            strong == self.rc.strong(),
    {
        self.rc.is_strong()
    }

    /// Turns this handle into one whose strength is decided at run time.
    /// The count of strong senders is the same afterwards.
    pub fn into_either_rc<M, W>(self, inner: &mut Chan<M, W>) -> (either: Sender<TxEither>)
        requires
            old(inner)@.sender_count < usize::MAX,
        ensures
            either.rc.strong() == self.rc.strong(),
            final(inner)@ == old(inner)@,
    {
        let ghost pre = inner@;
        let rc = self.rc.increment(inner).into_either();
        let _ = self.rc.decrement(inner);
        assert(inner@ =~= pre);
        Sender { rc }
    }

    /// Whether both a strong sender and a receiver exist.
    pub fn is_connected<M, W>(&self, inner: &Chan<M, W>) -> (connected: bool)
        ensures
            connected == inner@.is_connected(),
    {
        inner.is_connected()
    }

    /// The capacity of each queue; `None` if unbounded.
    pub fn capacity<M, W>(&self, inner: &Chan<M, W>) -> (capacity: Option<usize>)
        ensures
            capacity == inner@.capacity,
    {
        inner.capacity
    }

    /// The number of messages in the three queues together.
    pub fn len<M, W>(&self, inner: &Chan<M, W>) -> (len: usize)
        requires
            inner@.len() <= usize::MAX,
        ensures
            len == inner@.len(),
    {
        inner.broadcast.len() + inner.ordered_queue.len() + inner.priority_queue.len()
    }

    /// A listener for the loss of the last receiver, or `None` if the mailbox
    /// is disconnected already. The listener is registered before the
    /// connection is tested, so that no notification slips in between.
    pub fn disconnect_notice<M, W>(&self, inner: &Chan<M, W>) -> (notice: Option<EventListener>)
        ensures
            notice is Some == inner@.is_connected(),
    {
        let listener = listen(&inner.on_shutdown);
        if self.is_connected(inner) {
            Some(listener)
        } else {
            None
        }
    }

    /// Another handle of the same strength; the mailbox counts it if strong.
    pub fn duplicate<M, W>(&self, inner: &mut Chan<M, W>) -> (copy: Self)
        requires
            old(inner)@.sender_count < usize::MAX,
        ensures
            copy.rc.strong() == self.rc.strong(),
            final(inner)@ == sender_added(old(inner)@, self.rc.strong()),
    {
        Sender { rc: self.rc.increment(inner) }
    }

    /// Lets go of this handle. With the last strong handle every parked
    /// receiver is woken for shutdown and every parked sender is closed;
    /// messages already queued stay.
    pub fn release<M, W>(self, inner: &mut Chan<M, W>)
        requires
            old(inner)@.wf(),
            self.rc.strong() ==> old(inner)@.sender_count > 0,
        ensures
            final(inner)@ == sender_released(old(inner)@, self.rc.strong()),
            final(inner)@.wf(),
            old(inner)@.within_capacity() ==> final(inner)@.within_capacity(),
    {
        if self.rc.decrement(inner) {
            inner.wake_receivers(true);
            inner.close_senders();
        }
    }
}

/// The state of a send operation.
#[derive(Debug, PartialEq, Eq)]
pub enum SendFutureInner<M> {
    /// Not polled yet; the message is still here.
    New(SentMessage<M>),
    /// Parked in the mailbox under this ticket.
    WaitingToSend(u64),
    /// Finished.
    Complete,
}

/// A send operation: it completes once the message has entered the mailbox
/// or the mailbox is found disconnected.
#[must_use]
pub struct SendFuture<M, Rc: TxRefCounter> {
    pub tx: Sender<Rc>,
    pub inner: SendFutureInner<M>,
}

impl<M, Rc: TxRefCounter> SendFuture<M, Rc> {
    /// The mailbox after this operation was polled with `waker`.
    pub open spec fn polled_chan<W>(self, chan: ChanView<M, W>, waker: W) -> ChanView<M, W> {
        match self.inner {
            SendFutureInner::New(msg) => match chan.send_outcome(msg) {
                Err(TrySendFail::Full(ticket)) => chan.sent(msg).sender_polled(ticket, waker),
                _ => chan.sent(msg),
            },
            SendFutureInner::WaitingToSend(ticket) => chan.sender_polled(ticket, waker),
            SendFutureInner::Complete => chan,
        }
    }

    /// What a poll of this operation reports.
    pub open spec fn poll_outcome<W>(self, chan: ChanView<M, W>) -> Poll<Result<(), Error>> {
        match self.inner {
            SendFutureInner::New(msg) => match chan.send_outcome(msg) {
                Ok(()) => Poll::Ready(Ok(())),
                Err(TrySendFail::Disconnected) => Poll::Ready(Err(Error::Disconnected)),
                Err(TrySendFail::Full(_)) => Poll::Pending,
            },
            SendFutureInner::WaitingToSend(ticket) => chan.sender_poll_outcome(ticket),
            SendFutureInner::Complete => Poll::Pending,
        }
    }

    /// The state of this operation after a poll.
    pub open spec fn polled_state<W>(self, chan: ChanView<M, W>) -> SendFutureInner<M> {
        match self.inner {
            SendFutureInner::New(msg) => match chan.send_outcome(msg) {
                Err(TrySendFail::Full(ticket)) => SendFutureInner::WaitingToSend(ticket),
                _ => SendFutureInner::Complete,
            },
            SendFutureInner::WaitingToSend(ticket) => if chan.sender_poll_outcome(ticket)
                is Pending {
                SendFutureInner::WaitingToSend(ticket)
            } else {
                SendFutureInner::Complete
            },
            SendFutureInner::Complete => SendFutureInner::Complete,
        }
    }

    /// A send operation that has not been polled.
    pub fn new(msg: SentMessage<M>, tx: Sender<Rc>) -> (future: Self)
        ensures
            future.tx == tx,
            future.inner == SendFutureInner::New(msg),
    {
        SendFuture { tx, inner: SendFutureInner::New(msg) }
    }

    /// Whether the priority can still be set: only before the first poll,
    /// and only on a message for one actor.
    pub open spec fn priority_is_open(self) -> bool {
        self.inner matches SendFutureInner::New(SentMessage::ToOneActor(_))
    }

    /// Whether `set_priority` may be called.
    pub fn can_set_priority(&self) -> (open: bool)
        ensures
            open == self.priority_is_open(),
    {
        match &self.inner {
            SendFutureInner::New(SentMessage::ToOneActor(_)) => true,
            _ => false,
        }
    }

    /// Sets the priority of the message. Only the priority changes.
    pub fn set_priority(&mut self, priority: u32)
        requires
            old(self).priority_is_open(),
        ensures
            final(self).tx == old(self).tx,
            final(self).inner == SendFutureInner::New(
                SentMessage::ToOneActor(
                    MessageToOneActor {
                        val: old(self).inner->New_0->ToOneActor_0.val,
                        priority,
                    },
                ),
            ),
    {
        let mut state = SendFutureInner::Complete;
        core::mem::swap(&mut self.inner, &mut state);
        match state {
            SendFutureInner::New(SentMessage::ToOneActor(m)) => {
                self.inner = SendFutureInner::New(
                    SentMessage::ToOneActor(MessageToOneActor { val: m.val, priority }),
                );
            },
            _ => vstd::pervasive::unreached(),
        }
    }

    /// Polls the waiter that this operation parked under `ticket`.
    fn poll_waiting<W>(&mut self, inner: &mut Chan<M, W>, ticket: u64, waker: W) -> (outcome: Poll<
        Result<(), Error>,
    >)
        requires
            old(inner)@.wf(),
        ensures
            outcome == old(inner)@.sender_poll_outcome(ticket),
            final(inner)@ == old(inner)@.sender_polled(ticket, waker),
            final(inner)@.wf(),
            old(inner)@.within_capacity() ==> final(inner)@.within_capacity(),
            final(self).tx == old(self).tx,
            final(self).inner == (if outcome is Pending {
                SendFutureInner::<M>::WaitingToSend(ticket)
            } else {
                SendFutureInner::<M>::Complete
            }),
    {
        match inner.poll_sender(ticket, waker) {
            Poll::Pending => {
                self.inner = SendFutureInner::WaitingToSend(ticket);
                Poll::Pending
            },
            Poll::Ready(res) => {
                self.inner = SendFutureInner::Complete;
                Poll::Ready(res)
            },
        }
    }

    /// Advances the operation. The first poll attempts to send; if the
    /// message is parked, the waiter is polled at once, which installs
    /// `waker`. Later polls ask the waiter. A finished operation stays
    /// pending and leaves the mailbox alone.
    pub fn poll<W>(&mut self, inner: &mut Chan<M, W>, waker: W) -> (outcome: Poll<
        Result<(), Error>,
    >)
        requires
            old(inner)@.wf(),
            old(inner)@.next_ticket < u64::MAX,
        ensures
            outcome == old(self).poll_outcome(old(inner)@),
            final(inner)@ == old(self).polled_chan(old(inner)@, waker),
            final(self).inner == old(self).polled_state(old(inner)@),
            final(self).tx == old(self).tx,
            final(inner)@.wf(),
            old(inner)@.within_capacity() ==> final(inner)@.within_capacity(),
    {
        let ghost pre = inner@;
        let mut state = SendFutureInner::Complete;
        core::mem::swap(&mut self.inner, &mut state);
        match state {
            SendFutureInner::New(msg) => match self.tx.try_send(inner, msg) {
                Ok(()) => Poll::Ready(Ok(())),
                Err(TrySendFail::Disconnected) => Poll::Ready(Err(Error::Disconnected)),
                Err(TrySendFail::Full(ticket)) => {
                    proof {
                        let parked = pre.sent(msg).waiting_senders;
                        lemma_sender_position_found(parked, ticket, parked.len() - 1);
                    }
                    self.poll_waiting(inner, ticket, waker)
                },
            },
            SendFutureInner::WaitingToSend(ticket) => self.poll_waiting(inner, ticket, waker),
            SendFutureInner::Complete => Poll::Pending,
        }
    }

    /// Whether the operation has finished.
    pub fn is_terminated(&self) -> (done: bool)
        ensures
            done == (self.inner is Complete),
    {
        match &self.inner {
            SendFutureInner::Complete => true,
            _ => false,
        }
    }

    /// The mailbox after this operation was abandoned: its waiter, if it
    /// has one, is withdrawn, and its handle is let go.
    pub open spec fn cancelled_chan<W>(self, chan: ChanView<M, W>) -> ChanView<M, W> {
        match self.inner {
            SendFutureInner::WaitingToSend(ticket) => sender_released(
                chan.sender_cancelled(ticket),
                self.tx.rc.strong(),
            ),
            _ => sender_released(chan, self.tx.rc.strong()),
        }
    }

    /// Abandons the operation. A parked message is discarded with its
    /// waiter; nothing in the queues changes.
    pub fn cancel<W>(self, inner: &mut Chan<M, W>)
        requires
            old(inner)@.wf(),
            self.tx.rc.strong() ==> old(inner)@.sender_count > 0,
        ensures
            final(inner)@ == self.cancelled_chan(old(inner)@),
            final(inner)@.wf(),
            old(inner)@.within_capacity() ==> final(inner)@.within_capacity(),
    {
        match self.inner {
            SendFutureInner::WaitingToSend(ticket) => {
                inner.cancel_sender(ticket);
            },
            _ => {},
        }
        self.tx.release(inner);
    }
}

} // verus!
