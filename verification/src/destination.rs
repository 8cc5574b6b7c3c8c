pub mod kinds;
pub mod message_condition_config;
pub mod notification_config;
pub mod routed_destination;

use vstd::prelude::*;
use vstd::string::StringExecFns;
use crate::message::Message;

verus! {

/// The capability every destination offers: one send operation that either
/// delivers the message or reports why it could not.  The engine places no
/// constraint on what a send does; any returned error is final for that
/// attempt.  New destination kinds are added by implementing this trait.
pub trait MessageDestination {
    fn send(&self, message: &Message) -> Result<(), MessageSendError>;
}

/// The error a destination hands back when a send fails, carrying a
/// human-readable description.
#[derive(Debug)]
pub struct MessageSendError {
    pub msg: String,
}

impl MessageSendError {
    pub fn new(msg: String) -> (e: Self)
        ensures
            e.msg == msg,
    {
        MessageSendError { msg }
    }

    /// The error written as text.
    pub fn render(&self) -> (r: String)
        ensures
            r@ == "Error sending message: "@ + self.msg@,
    {
        let mut r = ("Error sending message: ").to_owned();
        r.append(self.msg.as_str());
        r
    }
}

impl Clone for MessageSendError {
    fn clone(&self) -> (e: Self)
        ensures
            e == *self,
    {
        MessageSendError { msg: self.msg.clone() }
    }
}

} // verus!
