use mailbox::chan::Chan;
use mailbox::message::MessageToOneActor;
use mailbox::message::SentMessage;
use mailbox::message::WakeReason;
use mailbox::refcount::RefCounterInner;
use mailbox::refcount::TxEither;
use mailbox::refcount::TxStrong;
use mailbox::refcount::TxWeak;
use mailbox::tx::SendFuture;
use mailbox::tx::SendFutureInner;
use mailbox::tx::Sender;
use mailbox::waiting::WaitingReceiver;
use mailbox::waiting::WaitingSender;
use mailbox::waiting::WaitingSenderInner;
use std::time::Duration;

type Mailbox = Chan<u64, u32>;

fn msg(val: u64, priority: u32) -> SentMessage<u64> {
    SentMessage::ToOneActor(MessageToOneActor { val, priority })
}

#[test]
fn new_mailbox_is_empty_and_disconnected() {
    let chan = Mailbox::new(Some(3));
    assert_eq!(chan.capacity, Some(3));
    assert_eq!(chan.sender_count, 0);
    assert_eq!(chan.receiver_count, 0);
    assert!(!chan.is_connected());
    assert!(chan.is_full(3));
    assert!(!chan.is_full(2));
    assert!(!Mailbox::new(None).is_full(usize::MAX));
}

#[test]
fn strong_handles_are_counted_and_weak_ones_are_not() {
    let mut chan = Mailbox::new(None);
    let tx = Sender::new(&mut chan);
    assert!(tx.is_strong());
    assert_eq!(chan.sender_count, 1);
    let weak = tx.downgrade();
    assert!(!weak.is_strong());
    assert_eq!(chan.sender_count, 1);
    let copy = tx.duplicate(&mut chan);
    assert_eq!(chan.sender_count, 2);
    let weak_copy = weak.duplicate(&mut chan);
    assert_eq!(chan.sender_count, 2);
    weak_copy.release(&mut chan);
    assert_eq!(chan.sender_count, 2);
    copy.release(&mut chan);
    assert_eq!(chan.sender_count, 1);
    assert_eq!(tx.capacity(&chan), None);
}

#[test]
fn either_keeps_strength_and_count() {
    let mut chan = Mailbox::new(None);
    let tx = Sender::new(&mut chan);
    let weak = tx.downgrade();
    let either = tx.into_either_rc(&mut chan);
    assert!(either.is_strong());
    assert_eq!(chan.sender_count, 1);
    let weak_either = weak.into_either_rc(&mut chan);
    assert!(!weak_either.is_strong());
    assert_eq!(chan.sender_count, 1);
    let more = either.rc.increment(&mut chan);
    assert!(matches!(more, TxEither::Strong(_)));
    assert_eq!(chan.sender_count, 2);
    assert!(!more.decrement(&mut chan));
    assert!(!weak_either.rc.decrement(&mut chan));
    assert!(either.rc.decrement(&mut chan));
    assert_eq!(chan.sender_count, 0);
}

#[test]
fn zero_strong_count_is_final_for_upgrades() {
    let mut chan = Mailbox::new(None);
    assert!(TxStrong::try_new(&mut chan).is_none());
    assert_eq!(chan.sender_count, 0);
    let tx = Sender::new(&mut chan);
    let upgraded = TxStrong::try_new(&mut chan);
    assert!(upgraded.is_some());
    assert_eq!(chan.sender_count, 2);
    assert!(!upgraded.unwrap().decrement(&mut chan));
    tx.release(&mut chan);
    assert!(TxStrong::try_new(&mut chan).is_none());
    let weak = TxWeak::new(&chan);
    assert!(!weak.is_strong());
    assert!(matches!(weak.into_either(), TxEither::Weak(_)));
}

#[test]
fn waiting_sender_holds_then_gives_its_message() {
    let mut delivered: WaitingSender<u64, u32> = WaitingSender::new(4, msg(10, 1));
    assert_eq!(delivered.ticket, 4);
    assert_eq!(delivered.waker, None);
    assert_eq!(delivered.peek(), &msg(10, 1));
    delivered.waker = Some(77);
    assert_eq!(delivered.fulfill(true), (msg(10, 1), Some(77)));
    assert_eq!(delivered.message, WaitingSenderInner::Delivered);
    assert_eq!(delivered.waker, None);
    let mut closed: WaitingSender<u64, u32> = WaitingSender::new(5, msg(11, 0));
    assert_eq!(closed.fulfill(false), (msg(11, 0), None));
    assert_eq!(closed.message, WaitingSenderInner::Closed);
}

#[test]
fn waiting_receiver_slot_is_filled_once() {
    let mut waiter: WaitingReceiver<u64, u32> = WaitingReceiver::new(9);
    assert_eq!(waiter.reason, None);
    waiter.waker = Some(3);
    assert_eq!(waiter.fulfill(WakeReason::Shutdown), Some(3));
    assert_eq!(waiter.reason, Some(WakeReason::Shutdown));
    assert_eq!(waiter.waker, None);
}

#[test]
fn send_future_starts_new() {
    let mut chan = Mailbox::new(None);
    let tx = Sender::new(&mut chan);
    let future = SendFuture::new(msg(1, 0), tx.duplicate(&mut chan));
    assert_eq!(future.inner, SendFutureInner::New(msg(1, 0)));
    assert!(!future.is_terminated());
    assert!(future.tx.is_strong());
    let started = tx.send(&mut chan, msg(2, 0));
    assert_eq!(chan.sender_count, 3);
    started.cancel(&mut chan);
    assert_eq!(chan.sender_count, 2);
}

#[test]
fn disconnect_notice_only_while_connected() {
    let mut chan = Mailbox::new(None);
    let tx = Sender::new(&mut chan);
    assert!(tx.disconnect_notice(&chan).is_none());
    let rx = chan.add_receiver();
    let notice = tx.disconnect_notice(&chan);
    assert!(notice.is_some());
    chan.drop_receiver(rx);
    assert!(notice.unwrap().wait_timeout(Duration::from_secs(5)));
    assert!(tx.disconnect_notice(&chan).is_none());
}

#[test]
fn cancel_by_ticket_removes_only_that_waiter() {
    let mut chan = Mailbox::new(Some(0));
    let tx = Sender::new(&mut chan);
    let rx = chan.add_receiver();
    let _ = rx;
    assert!(tx.try_send(&mut chan, msg(1, 0)).is_err());
    assert!(tx.try_send(&mut chan, msg(2, 0)).is_err());
    assert!(tx.try_send(&mut chan, msg(3, 0)).is_err());
    chan.cancel_sender(1);
    assert_eq!(chan.waiting_senders.len(), 2);
    assert_eq!(chan.waiting_senders[0].ticket, 0);
    assert_eq!(chan.waiting_senders[1].ticket, 2);
    chan.cancel_sender(9);
    assert_eq!(chan.waiting_senders.len(), 2);
}
