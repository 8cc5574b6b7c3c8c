use vstd::prelude::*;
use crate::destination::MessageSendError;
use crate::message::Message;
use crate::send_error::borrowed::{build_report_message, is_report_message};

verus! {

/// One failed delivery, owning the message that could not be sent: used for
/// escalation failures, whose synthetic message has no owner to borrow from.
#[derive(Debug)]
pub struct SendErrorOwned {
    pub err: MessageSendError,
    pub destination_id: String,
    pub message: Message,
}

impl SendErrorOwned {
    pub fn create(err: MessageSendError, destination_id: String, message: Message) -> (r: Self)
        ensures
            r == (SendErrorOwned { err, destination_id, message }),
    {
        SendErrorOwned { err, destination_id, message }
    }

    pub fn get_error(&self) -> (e: &MessageSendError)
        ensures
            e == &self.err,
    {
        &self.err
    }

    /// The id of the destination that the message could not be sent to.
    pub fn get_failed_destination_id(&self) -> (id: &str)
        ensures
            id@ == self.destination_id@,
    {
        self.destination_id.as_str()
    }

    /// The message that was not sent.
    pub fn get_failed_message(&self) -> (m: &Message)
        ensures
            m == &self.message,
    {
        &self.message
    }

    /// Synthesizes the self-diagnostic message describing this failure, for
    /// redelivery to root destinations.
    pub fn create_report_message(&self) -> (r: Message)
        ensures
            is_report_message(
                r,
                self.message.message_detail.spec_raw(),
                self.destination_id@,
                self.err.msg@,
                self.message.unix_timestamp_millis,
            ),
    {
        build_report_message(&self.err, self.destination_id.as_str(), &self.message)
    }
}

} // verus!
