use vstd::prelude::*;

use std::sync::mpsc::Receiver;
use std::sync::mpsc::Sender;

use crate::event::Event;

verus! {

#[verifier::external_type_specification]
#[verifier::external_body]
#[verifier::reject_recursive_types(T)]
pub struct ExSender<T>(Sender<T>);

#[verifier::external_type_specification]
#[verifier::external_body]
#[verifier::reject_recursive_types(T)]
pub struct ExReceiver<T>(Receiver<T>);

/// Relies on `std::sync::mpsc::Sender::send`: queues the event for the
/// receiving half without ever blocking, and fails exactly when the
/// receiving half has been dropped, in which case the event is lost. What
/// arrives at the other end, and in what order, is a property of the
/// channel as a whole; `Conduit` states it, and `recv_until_closed` is the
/// point that relies on it.
#[verifier::external_body]
pub(crate) fn send_event(tx: &Sender<Event>, e: Event) -> (accepted: bool) {
    tx.send(e).is_ok()
}

/// Relies on `std::sync::mpsc::Receiver::iter` and `Iterator::collect`: the
/// iterator blocks for each next message and ends exactly when the channel
/// is closed and drained, so the result holds every event sent before the
/// sending half was dropped, in send order, and a receiver waiting when the
/// sender is dropped resolves to the end of iteration rather than waiting
/// forever. This is the one unbounded blocking wait in the library, which
/// is why it stands behind a trusted item: no bound exists on which a
/// termination argument could rest.
#[verifier::external_body]
pub(crate) fn recv_until_closed(rx: &Receiver<Event>) -> (arrived: Vec<Event>) {
    rx.iter().collect()
}

/// Relies on `thread_priority::set_current_thread_priority`: asks the host
/// scheduler to run the calling thread at the highest available priority.
/// Best-effort — the request may be denied, and the caller proceeds at its
/// former priority either way.
#[verifier::external_body]
pub(crate) fn request_max_priority() -> (granted: bool) {
    thread_priority::set_current_thread_priority(thread_priority::ThreadPriority::Max).is_ok()
}

} // verus!
