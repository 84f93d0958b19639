//! The mutation channel: trusted bindings to std's mpsc queue.
//!
//! Handles on any thread push [`Message`]s into the channel; the hub is the
//! sole consumer and drains it once per frame. Nothing is promised about
//! what arrives or when: the hub's message application states what holds of
//! whatever message comes out.

use vstd::prelude::*;

use crate::hub::Message;

verus! {

#[verifier::external_type_specification]
#[verifier::external_body]
#[verifier::reject_recursive_types(T)]
pub struct ExSender<T>(std::sync::mpsc::Sender<T>);

#[verifier::external_type_specification]
#[verifier::external_body]
#[verifier::reject_recursive_types(T)]
pub struct ExReceiver<T>(std::sync::mpsc::Receiver<T>);

/// Relies on std::sync::mpsc::channel: an unbounded queue whose sender can
/// be cloned freely and used from any thread.
#[verifier::external_body]
pub(crate) fn message_channel() -> (
    std::sync::mpsc::Sender<Message>,
    std::sync::mpsc::Receiver<Message>,
) {
    std::sync::mpsc::channel()
}

/// Relies on std::sync::mpsc::Sender::send: queues the message; an error
/// only means the receiver is gone, and is deliberately swallowed, as a
/// handle outliving its hub is harmless.
#[verifier::external_body]
pub(crate) fn send_message(tx: &std::sync::mpsc::Sender<Message>, message: Message) {
    let _ = tx.send(message);
}

/// Relies on std::sync::mpsc::Receiver::try_recv: takes one queued message
/// without blocking, or reports that none is waiting right now.
#[verifier::external_body]
pub(crate) fn try_recv_message(rx: &std::sync::mpsc::Receiver<Message>) -> Option<Message> {
    match rx.try_recv() {
        Ok(message) => Some(message),
        Err(_) => None,
    }
}

/// Relies on std::sync::mpsc::Sender::clone: a clone sends into the same
/// queue.
#[verifier::external_body]
pub(crate) fn clone_sender(
    tx: &std::sync::mpsc::Sender<Message>,
) -> std::sync::mpsc::Sender<Message> {
    tx.clone()
}

} // verus!
