use mailbox::chan::Chan;
use mailbox::message::ActorMessage;
use mailbox::message::Error;
use mailbox::message::MessageToOneActor;
use mailbox::message::Poll;
use mailbox::message::SentMessage;
use mailbox::message::TryRecv;
use mailbox::message::TrySendFail;
use mailbox::message::WakeReason;
use mailbox::tx::SendFutureInner;
use mailbox::tx::Sender;
use std::sync::Arc;

type Mailbox = Chan<String, u32>;

fn one(val: &str, priority: u32) -> SentMessage<String> {
    SentMessage::ToOneActor(MessageToOneActor {
        val: val.to_string(),
        priority,
    })
}

fn all(val: &str) -> SentMessage<String> {
    SentMessage::ToAllActors(Arc::new(val.to_string()))
}

fn got_one(val: &str) -> TryRecv<String> {
    TryRecv::Got(ActorMessage::ToOneActor(val.to_string()))
}

fn got_all(val: &str) -> TryRecv<String> {
    TryRecv::Got(ActorMessage::ToAllActors(Arc::new(val.to_string())))
}

fn open(capacity: Option<usize>) -> (Mailbox, Sender<mailbox::refcount::TxStrong>, usize) {
    let mut chan = Mailbox::new(capacity);
    let tx = Sender::new(&mut chan);
    let rx = chan.add_receiver();
    (chan, tx, rx)
}

#[test]
fn send_then_recv_yields_the_message() {
    let (mut chan, tx, rx) = open(Some(4));
    assert_eq!(tx.try_send(&mut chan, one("m", 0)), Ok(()));
    assert_eq!(tx.len(&chan), 1);
    assert_eq!(chan.try_recv(rx), got_one("m"));
    assert_eq!(tx.len(&chan), 0);
}

#[test]
fn equal_priorities_drain_in_send_order() {
    for priority in [0u32, 7u32] {
        let (mut chan, tx, rx) = open(None);
        let names = ["a", "b", "c", "d", "e"];
        for name in names {
            assert_eq!(tx.try_send(&mut chan, one(name, priority)), Ok(()));
        }
        for name in names {
            assert_eq!(chan.try_recv(rx), got_one(name));
        }
    }
}

#[test]
fn equal_priorities_keep_order_across_parking() {
    let (mut chan, tx, rx) = open(Some(2));
    let names = ["a", "b", "c", "d", "e"];
    let mut outcomes = Vec::new();
    for name in names {
        outcomes.push(tx.try_send(&mut chan, one(name, 3)));
    }
    assert_eq!(
        outcomes,
        vec![
            Ok(()),
            Ok(()),
            Err(TrySendFail::Full(0)),
            Err(TrySendFail::Full(1)),
            Err(TrySendFail::Full(2)),
        ]
    );
    assert_eq!(chan.priority_queue.len(), 2);
    for name in names {
        assert_eq!(chan.try_recv(rx), got_one(name));
        assert!(chan.priority_queue.len() <= 2);
    }
    assert_eq!(chan.try_recv(rx), TryRecv::Empty(3));
}

#[test]
fn full_queue_parks_then_admits_in_order() {
    let (mut chan, tx, rx) = open(Some(2));
    let mut fa = tx.send(&mut chan, one("a", 0));
    let mut fb = tx.send(&mut chan, one("b", 0));
    let mut fc = tx.send(&mut chan, one("c", 0));
    assert_eq!(fa.poll(&mut chan, 1), Poll::Ready(Ok(())));
    assert_eq!(fb.poll(&mut chan, 2), Poll::Ready(Ok(())));
    assert_eq!(fc.poll(&mut chan, 3), Poll::Pending);
    assert!(!fc.is_terminated());
    assert_eq!(tx.len(&chan), 2);
    assert_eq!(chan.try_recv(rx), got_one("a"));
    assert_eq!(chan.take_woken(), vec![3]);
    assert_eq!(fc.poll(&mut chan, 3), Poll::Ready(Ok(())));
    assert!(fc.is_terminated());
    assert_eq!(chan.try_recv(rx), got_one("b"));
    assert_eq!(chan.try_recv(rx), got_one("c"));
    assert_eq!(tx.len(&chan), 0);
}

#[test]
fn higher_priority_overtakes() {
    let (mut chan, tx, rx) = open(Some(2));
    assert_eq!(tx.try_send(&mut chan, one("a", 0)), Ok(()));
    assert_eq!(tx.try_send(&mut chan, one("b", 5)), Ok(()));
    assert_eq!(tx.try_send(&mut chan, one("c", 0)), Ok(()));
    assert_eq!(chan.try_recv(rx), got_one("b"));
    assert_eq!(chan.try_recv(rx), got_one("a"));
    assert_eq!(chan.try_recv(rx), got_one("c"));
}

#[test]
fn priority_queue_is_stable_and_strict() {
    let (mut chan, tx, rx) = open(None);
    for (name, priority) in [("low1", 1), ("high1", 9), ("low2", 1), ("high2", 9), ("mid", 4)] {
        assert_eq!(tx.try_send(&mut chan, one(name, priority)), Ok(()));
    }
    assert_eq!(chan.front_position(), 1);
    for name in ["high1", "high2", "mid", "low1", "low2"] {
        assert_eq!(chan.try_recv(rx), got_one(name));
    }
}

#[test]
fn broadcast_reaches_both_receivers_once() {
    let (mut chan, tx, r1) = open(Some(1));
    let r2 = chan.add_receiver();
    let mut fx = tx.send(&mut chan, all("x"));
    assert_eq!(fx.poll(&mut chan, 1), Poll::Ready(Ok(())));
    assert_eq!(chan.try_recv(r1), got_all("x"));
    assert_eq!(tx.len(&chan), 1);
    let mut fy = tx.send(&mut chan, all("y"));
    assert_eq!(fy.poll(&mut chan, 2), Poll::Pending);
    assert_eq!(chan.try_recv(r2), got_all("x"));
    assert_eq!(chan.take_woken(), vec![2]);
    assert_eq!(fy.poll(&mut chan, 2), Poll::Ready(Ok(())));
    assert_eq!(tx.len(&chan), 1);
    assert_eq!(chan.try_recv(r1), got_all("y"));
    assert_eq!(chan.try_recv(r2), got_all("y"));
    assert_eq!(tx.len(&chan), 0);
    assert_eq!(chan.cursors, vec![Some(0), Some(0)]);
}

#[test]
fn last_sender_gone_drains_then_shuts_down() {
    let (mut chan, tx, rx) = open(Some(1));
    assert_eq!(tx.try_send(&mut chan, one("a", 0)), Ok(()));
    let weak = tx.downgrade();
    let mut parked = weak.send(&mut chan, one("b", 0));
    assert_eq!(parked.poll(&mut chan, 8), Poll::Pending);
    assert_eq!(chan.sender_count, 1);
    tx.release(&mut chan);
    assert_eq!(chan.sender_count, 0);
    assert_eq!(chan.take_woken(), vec![8]);
    assert_eq!(chan.try_recv(rx), got_one("a"));
    assert_eq!(chan.try_recv(rx), TryRecv::Got(ActorMessage::Shutdown));
    assert_eq!(
        parked.poll(&mut chan, 8),
        Poll::Ready(Err(Error::Disconnected))
    );
    assert!(parked.is_terminated());
}

#[test]
fn last_receiver_gone_closes_parked_senders() {
    let (mut chan, tx, rx) = open(Some(1));
    assert_eq!(tx.try_send(&mut chan, one("a", 0)), Ok(()));
    let mut f1 = tx.send(&mut chan, one("b", 0));
    let mut f2 = tx.send(&mut chan, one("c", 0));
    assert_eq!(f1.poll(&mut chan, 1), Poll::Pending);
    assert_eq!(f2.poll(&mut chan, 2), Poll::Pending);
    chan.drop_receiver(rx);
    assert_eq!(chan.receiver_count, 0);
    assert_eq!(chan.take_woken(), vec![1, 2]);
    assert_eq!(f1.poll(&mut chan, 1), Poll::Ready(Err(Error::Disconnected)));
    assert_eq!(f2.poll(&mut chan, 2), Poll::Ready(Err(Error::Disconnected)));
    assert_eq!(f1.poll(&mut chan, 1), Poll::Pending);
    f1.cancel(&mut chan);
    f2.cancel(&mut chan);
    assert!(chan.waiting_senders.is_empty());
    assert!(chan.settled_senders.is_empty());
    assert!(!tx.is_connected(&chan));
    assert_eq!(
        tx.try_send(&mut chan, one("d", 0)),
        Err(TrySendFail::Disconnected)
    );
}

#[test]
fn priority_is_fixed_after_first_poll() {
    let (mut chan, tx, _rx) = open(Some(1));
    let mut first = tx.send(&mut chan, one("a", 0));
    assert!(first.can_set_priority());
    first.set_priority(6);
    assert_eq!(first.inner, SendFutureInner::New(one("a", 6)));
    assert_eq!(first.poll(&mut chan, 1), Poll::Ready(Ok(())));
    assert!(!first.can_set_priority());
    let mut second = tx.send(&mut chan, one("b", 6));
    assert_eq!(second.poll(&mut chan, 2), Poll::Pending);
    assert!(!second.can_set_priority());
    let bcast = tx.send(&mut chan, all("x"));
    assert!(!bcast.can_set_priority());
}

#[test]
fn cancelled_parked_sends_leave_no_trace() {
    let (mut chan, tx, rx) = open(Some(1));
    assert_eq!(tx.try_send(&mut chan, one("a", 0)), Ok(()));
    let mut f1 = tx.send(&mut chan, one("b", 0));
    let mut f2 = tx.send(&mut chan, one("c", 0));
    assert_eq!(f1.poll(&mut chan, 1), Poll::Pending);
    assert_eq!(f2.poll(&mut chan, 2), Poll::Pending);
    assert_eq!(chan.sender_count, 3);
    let before = tx.len(&chan);
    f1.cancel(&mut chan);
    f2.cancel(&mut chan);
    assert_eq!(tx.len(&chan), before);
    assert_eq!(chan.sender_count, 1);
    assert!(chan.waiting_senders.is_empty());
    assert!(chan.take_woken().is_empty());
    assert_eq!(chan.try_recv(rx), got_one("a"));
    assert!(chan.take_woken().is_empty());
    assert_eq!(chan.try_recv(rx), TryRecv::Empty(2));
}

#[test]
fn parked_receiver_gets_the_message_directly() {
    let (mut chan, tx, rx) = open(Some(0));
    assert_eq!(chan.try_recv(rx), TryRecv::Empty(0));
    assert_eq!(chan.poll_receiver(0, 11), Poll::Pending);
    assert_eq!(tx.try_send(&mut chan, one("a", 2)), Ok(()));
    assert_eq!(tx.len(&chan), 0);
    assert_eq!(chan.take_woken(), vec![11]);
    assert_eq!(
        chan.poll_receiver(0, 11),
        Poll::Ready(WakeReason::MessageToOneActor(MessageToOneActor {
            val: "a".to_string(),
            priority: 2
        }))
    );
    assert_eq!(chan.poll_receiver(0, 11), Poll::Pending);
}

#[test]
fn zero_capacity_hands_over_from_the_parked_sender() {
    let (mut chan, tx, rx) = open(Some(0));
    let mut f = tx.send(&mut chan, one("a", 0));
    assert_eq!(f.poll(&mut chan, 5), Poll::Pending);
    assert_eq!(tx.len(&chan), 0);
    assert_eq!(chan.try_recv(rx), got_one("a"));
    assert_eq!(chan.take_woken(), vec![5]);
    assert_eq!(f.poll(&mut chan, 5), Poll::Ready(Ok(())));
}

#[test]
fn parked_receivers_shut_down_with_last_sender() {
    let (mut chan, tx, rx) = open(None);
    assert_eq!(chan.try_recv(rx), TryRecv::Empty(0));
    assert_eq!(chan.try_recv(rx), TryRecv::Empty(1));
    assert_eq!(chan.poll_receiver(1, 21), Poll::Pending);
    tx.release(&mut chan);
    assert_eq!(chan.take_woken(), vec![21]);
    assert_eq!(chan.poll_receiver(0, 20), Poll::Ready(WakeReason::Shutdown));
    assert_eq!(chan.poll_receiver(1, 21), Poll::Ready(WakeReason::Shutdown));
    assert_eq!(chan.try_recv(rx), TryRecv::Got(ActorMessage::Shutdown));
}

#[test]
fn broadcast_wakes_parked_receivers_to_fetch() {
    let (mut chan, tx, r1) = open(Some(2));
    let r2 = chan.add_receiver();
    assert_eq!(chan.try_recv(r1), TryRecv::Empty(0));
    assert_eq!(chan.poll_receiver(0, 1), Poll::Pending);
    assert_eq!(tx.try_send(&mut chan, all("x")), Ok(()));
    assert_eq!(chan.take_woken(), vec![1]);
    assert_eq!(
        chan.poll_receiver(0, 1),
        Poll::Ready(WakeReason::MessageToAllActors)
    );
    assert_eq!(chan.try_recv(r1), got_all("x"));
    assert_eq!(chan.try_recv(r2), got_all("x"));
    assert!(chan.broadcast.is_empty());
}

#[test]
fn new_receiver_sees_only_later_broadcasts() {
    let (mut chan, tx, r1) = open(None);
    assert_eq!(tx.try_send(&mut chan, all("old")), Ok(()));
    let r2 = chan.add_receiver();
    assert_eq!(r2, 1);
    assert_eq!(tx.try_send(&mut chan, all("new")), Ok(()));
    assert_eq!(chan.try_recv(r2), got_all("new"));
    assert_eq!(chan.try_recv(r1), got_all("old"));
    assert_eq!(chan.try_recv(r1), got_all("new"));
    assert_eq!(chan.min_live_cursor(), 0);
    assert!(chan.broadcast.is_empty());
}

#[test]
fn dropped_receiver_releases_its_broadcasts() {
    let (mut chan, tx, r1) = open(Some(1));
    let r2 = chan.add_receiver();
    assert_eq!(tx.try_send(&mut chan, all("x")), Ok(()));
    assert_eq!(chan.try_recv(r1), got_all("x"));
    assert_eq!(tx.try_send(&mut chan, all("y")), Err(TrySendFail::Full(0)));
    chan.drop_receiver(r2);
    assert_eq!(chan.cursors, vec![Some(0), None]);
    assert_eq!(chan.broadcast.len(), 1);
    assert!(chan.waiting_senders.is_empty());
    assert_eq!(chan.try_recv(r1), got_all("y"));
    assert_eq!(chan.receiver_count, 1);
}

#[test]
fn stop_reaches_every_receiver_after_earlier_broadcasts() {
    let (mut chan, tx, r1) = open(Some(1));
    let r2 = chan.add_receiver();
    assert_eq!(tx.try_send(&mut chan, all("x")), Ok(()));
    tx.stop_all_receivers(&mut chan, Arc::new("stop".to_string()));
    assert_eq!(tx.len(&chan), 2);
    for rx in [r1, r2] {
        assert_eq!(chan.try_recv(rx), got_all("x"));
        assert_eq!(chan.try_recv(rx), got_all("stop"));
    }
    assert_eq!(tx.len(&chan), 0);
}

#[test]
fn parked_broadcast_holds_back_later_senders() {
    let (mut chan, tx, r1) = open(Some(1));
    let r2 = chan.add_receiver();
    assert_eq!(tx.try_send(&mut chan, all("x")), Ok(()));
    assert_eq!(chan.try_recv(r1), got_all("x"));
    assert_eq!(tx.try_send(&mut chan, one("a", 0)), Ok(()));
    assert_eq!(tx.try_send(&mut chan, all("y")), Err(TrySendFail::Full(0)));
    assert_eq!(tx.try_send(&mut chan, one("b", 0)), Err(TrySendFail::Full(1)));
    assert_eq!(chan.try_recv(r1), got_one("a"));
    assert_eq!(chan.waiting_senders.len(), 2);
    assert_eq!(chan.try_recv(r1), TryRecv::Empty(2));
    assert_eq!(chan.waiting_senders.len(), 2);
    assert_eq!(chan.try_recv(r2), got_all("x"));
    assert_eq!(chan.waiting_senders.len(), 1);
    assert_eq!(
        chan.poll_receiver(2, 30),
        Poll::Ready(WakeReason::MessageToAllActors)
    );
    assert_eq!(chan.try_recv(r1), got_all("y"));
    assert!(chan.waiting_senders.is_empty());
    assert_eq!(chan.try_recv(r1), got_one("b"));
}
