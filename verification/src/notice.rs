//! The shutdown notifier, an `event_listener::Event` carried by the channel.

use event_listener::Event;
use event_listener::EventListener;
use std::sync::Arc;
use vstd::prelude::*;

verus! {

#[verifier::external_type_specification]
#[verifier::external_body]
pub struct ExEvent(Event);

#[verifier::external_type_specification]
#[verifier::external_body]
pub struct ExEventListener(EventListener);

/// `Event::new`: a fresh notifier with no listeners. Nothing is claimed of it.
#[verifier::external_body]
pub(crate) fn new_event() -> (event: Event) {
    Event::new()
}

/// `Event::listen`: registers a listener on the notifier. Nothing is claimed
/// of the listener.
#[verifier::external_body]
pub(crate) fn listen(event: &Event) -> (listener: EventListener) {
    event.listen()
}

/// `Event::notify`: wakes up to `n` listeners that were not notified yet.
/// Nothing is claimed of its effect.
#[verifier::external_body]
pub(crate) fn notify(event: &Event, n: usize) {
    event.notify(n)
}

/// `Arc::clone`: another pointer to the same allocation, so the value behind
/// the result is the value behind the argument.
#[verifier::external_body]
pub(crate) fn share<M>(body: &Arc<M>) -> (copy: Arc<M>)
    ensures
        copy == *body,
{
    Arc::clone(body)
}

} // verus!
