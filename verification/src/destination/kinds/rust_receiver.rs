use vstd::prelude::*;
use crate::destination::{MessageDestination, MessageSendError};
use crate::message::Message;

verus! {

/// Declares std::sync::mpsc::Sender, which the verifier does not know, so
/// that it can stand in fields and signatures; values of it are opaque here.
#[verifier::external_type_specification]
#[verifier::external_body]
#[verifier::reject_recursive_types(T)]
pub struct ExSender<T>(std::sync::mpsc::Sender<T>);

/// Relies on std::sync::mpsc::Sender::clone, which gives another handle on
/// the same channel; the handles are not related by any contract here.
pub assume_specification<T>[ <std::sync::mpsc::Sender<T> as Clone>::clone ](
    sender: &std::sync::mpsc::Sender<T>,
) -> std::sync::mpsc::Sender<T>;

/// A destination that hands each message to a channel inside the same
/// process: useful for tests and for embedding the router.
#[derive(Debug)]
pub struct RustReceiverDestination {
    pub sender: std::sync::mpsc::Sender<Message>,
}

impl Clone for RustReceiverDestination {
    /// A second handle on the same channel.
    fn clone(&self) -> Self {
        RustReceiverDestination { sender: self.sender.clone() }
    }
}

impl RustReceiverDestination {
    pub fn create(sender: std::sync::mpsc::Sender<Message>) -> (r: Self)
        ensures
            r.sender == sender,
    {
        RustReceiverDestination { sender }
    }
}

impl MessageDestination for RustReceiverDestination {
    fn send(&self, message: &Message) -> Result<(), MessageSendError> {
        sender_send(&self.sender, message.clone())
    }
}

/// Relies on std::sync::mpsc::Sender::send, which accepts the value unless
/// the receiving end is gone.  The outcome depends on the receiver, so
/// nothing is promised of it.
#[verifier::external_body]
fn sender_send(
    sender: &std::sync::mpsc::Sender<Message>,
    message: Message,
) -> Result<(), MessageSendError> {
    sender.send(message).map_err(|e| MessageSendError::new(e.to_string()))
}

} // verus!
