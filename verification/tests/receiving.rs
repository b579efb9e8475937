use mailbox::chan::Chan;
use mailbox::message::ActorMessage;
use mailbox::message::MessageToOneActor;
use mailbox::message::Poll;
use mailbox::message::SentMessage;
use mailbox::message::TryRecv;
use mailbox::rx::Receiver;
use mailbox::rx::RecvFutureInner;
use mailbox::tx::Sender;
use std::sync::Arc;

type Mailbox = Chan<String, u32>;

fn one(val: &str, priority: u32) -> SentMessage<String> {
    SentMessage::ToOneActor(MessageToOneActor {
        val: val.to_string(),
        priority,
    })
}

fn ready_one(val: &str) -> Poll<ActorMessage<String>> {
    Poll::Ready(ActorMessage::ToOneActor(val.to_string()))
}

fn ready_all(val: &str) -> Poll<ActorMessage<String>> {
    Poll::Ready(ActorMessage::ToAllActors(Arc::new(val.to_string())))
}

#[test]
fn recv_future_completes_at_once_when_a_message_waits() {
    let mut chan = Mailbox::new(Some(2));
    let tx = Sender::new(&mut chan);
    let rx = Receiver::new(&mut chan);
    assert_eq!(rx.id, 0);
    assert_eq!(tx.try_send(&mut chan, one("m", 0)), Ok(()));
    let mut recv = rx.recv();
    assert_eq!(recv.inner, RecvFutureInner::New);
    assert_eq!(recv.poll(&mut chan, 1), ready_one("m"));
    assert!(recv.is_terminated());
    assert_eq!(recv.poll(&mut chan, 1), Poll::Pending);
    assert!(chan.take_woken().is_empty());
}

#[test]
fn recv_future_parks_and_is_filled_by_the_next_send() {
    let mut chan = Mailbox::new(Some(2));
    let tx = Sender::new(&mut chan);
    let rx = Receiver::new(&mut chan);
    let mut recv = rx.recv();
    assert_eq!(recv.poll(&mut chan, 40), Poll::Pending);
    assert_eq!(recv.inner, RecvFutureInner::Waiting(0));
    assert_eq!(recv.poll(&mut chan, 41), Poll::Pending);
    assert_eq!(tx.try_send(&mut chan, one("m", 3)), Ok(()));
    assert_eq!(chan.take_woken(), vec![41]);
    assert_eq!(recv.poll(&mut chan, 41), ready_one("m"));
    assert!(recv.is_terminated());
}

#[test]
fn recv_future_resolves_to_shutdown_when_last_sender_goes() {
    let mut chan = Mailbox::new(None);
    let tx = Sender::new(&mut chan);
    let rx = Receiver::new(&mut chan);
    let mut first = rx.recv();
    let mut second = rx.recv();
    assert_eq!(first.poll(&mut chan, 1), Poll::Pending);
    assert_eq!(second.poll(&mut chan, 2), Poll::Pending);
    tx.release(&mut chan);
    assert_eq!(chan.take_woken(), vec![1, 2]);
    assert_eq!(first.poll(&mut chan, 1), Poll::Ready(ActorMessage::Shutdown));
    assert_eq!(second.poll(&mut chan, 2), Poll::Ready(ActorMessage::Shutdown));
    assert_eq!(rx.try_recv(&mut chan), TryRecv::Got(ActorMessage::Shutdown));
}

#[test]
fn parked_recv_futures_fetch_a_broadcast_one_per_instance() {
    let mut chan = Mailbox::new(Some(4));
    let tx = Sender::new(&mut chan);
    let r1 = Receiver::new(&mut chan);
    let r2 = r1.duplicate(&mut chan);
    assert_eq!(r2.id, 1);
    let mut a = r1.recv();
    let mut b = r1.recv();
    let mut c = r2.recv();
    assert_eq!(a.poll(&mut chan, 1), Poll::Pending);
    assert_eq!(b.poll(&mut chan, 2), Poll::Pending);
    assert_eq!(c.poll(&mut chan, 3), Poll::Pending);
    assert_eq!(
        tx.try_send(&mut chan, SentMessage::ToAllActors(Arc::new("x".to_string()))),
        Ok(())
    );
    assert_eq!(chan.take_woken(), vec![1, 2, 3]);
    assert_eq!(a.poll(&mut chan, 1), ready_all("x"));
    assert_eq!(b.poll(&mut chan, 2), Poll::Pending);
    assert_eq!(b.inner, RecvFutureInner::Waiting(3));
    assert_eq!(c.poll(&mut chan, 3), ready_all("x"));
    assert!(chan.broadcast.is_empty());
    assert_eq!(chan.waiting_receivers.len(), 1);
    b.cancel(&mut chan);
    assert!(chan.waiting_receivers.is_empty());
    r2.release(&mut chan);
    assert_eq!(chan.receiver_count, 1);
    r1.release(&mut chan);
    assert!(!chan.is_connected());
}
