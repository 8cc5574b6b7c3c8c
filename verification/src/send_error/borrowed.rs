use vstd::prelude::*;
use vstd::string::StringExecFns;
use crate::destination::MessageSendError;
use crate::message::author::Author;
use crate::message::component::split_segments;
use crate::message::{Level, Message, MessageDetail};

verus! {

/// One failed delivery, borrowing the message that could not be sent.
#[derive(Debug)]
pub struct SendErrorBorrowed<'a> {
    pub err: MessageSendError,
    pub destination_id: String,
    pub message: &'a Message,
}

/// The title of the self-diagnostic message synthesized for a failed
/// delivery.
pub open spec fn report_title(id: Seq<char>) -> Seq<char> {
    "Failed to send notification to destination "@ + id
}

/// The body of the self-diagnostic message synthesized for a failed delivery:
/// it embeds the failed message's raw text, the failing destination's id and
/// the error text.
pub open spec fn report_body(msg_raw: Seq<char>, id: Seq<char>, err: Seq<char>) -> Seq<char> {
    "Rnotify failed to send a message '"@ + msg_raw + "' to destination id '"@ + id
        + "'. Error: '"@ + err
        + "' A notification has been sent here because this is configured as a root logger."@
}

/// What the synthetic self-diagnostic message for a failed delivery looks
/// like: level `SelfError`, the title and body above, no component, an
/// engine-internal author, and the failed message's own timestamp, so the
/// report stays correlated to the event that caused it.
pub open spec fn is_report_message(
    r: Message,
    msg_raw: Seq<char>,
    id: Seq<char>,
    err: Seq<char>,
    timestamp: i64,
) -> bool {
    &&& r.level == Level::SelfError
    &&& r.title matches Some(t) && t@ == report_title(id)
    &&& r.message_detail is Raw
    &&& r.message_detail.spec_raw() == report_body(msg_raw, id, err)
    &&& r.component is None
    &&& r.author.parts.deep_view().len() >= 1
    &&& r.author.parts.deep_view().skip(1) == split_segments("rnotify"@)
    &&& r.unix_timestamp_millis == timestamp
}

impl<'a> SendErrorBorrowed<'a> {
    pub fn create(err: MessageSendError, item_id: String, message: &'a Message) -> (r: Self)
        ensures
            r == (SendErrorBorrowed { err, destination_id: item_id, message }),
    {
        SendErrorBorrowed { err, destination_id: item_id, message }
    }

    pub fn get_error(&self) -> (e: &MessageSendError)
        ensures
            e == &self.err,
    {
        &self.err
    }

    /// The id of the destination that the message could not be sent to.
    pub fn get_failed_destination_id(&self) -> (id: &str)
        ensures
            id@ == self.destination_id@,
    {
        self.destination_id.as_str()
    }

    /// The message that was not sent.
    pub fn get_failed_message(&self) -> (m: &Message)
        ensures
            m == self.message,
    {
        self.message
    }

    /// Synthesizes the self-diagnostic message describing this failure, for
    /// redelivery to root destinations.
    pub fn create_report_message(&self) -> (r: Message)
        ensures
            is_report_message(
                r,
                self.message.message_detail.spec_raw(),
                self.destination_id@,
                self.err.msg@,
                self.message.unix_timestamp_millis,
            ),
    {
        build_report_message(&self.err, self.destination_id.as_str(), self.message)
    }
}

/// Writes the self-diagnostic message for one failed delivery of `message`
/// to the destination named `destination_id`, which answered with `err`.
pub(crate) fn build_report_message(
    err: &crate::destination::MessageSendError,
    destination_id: &str,
    message: &Message,
) -> (r: Message)
    ensures
        is_report_message(
            r,
            message.message_detail.spec_raw(),
            destination_id@,
            err.msg@,
            message.unix_timestamp_millis,
        ),
{
    let mut title = ("Failed to send notification to destination ").to_owned();
    title.append(destination_id);

    let mut body = ("Rnotify failed to send a message '").to_owned();
    body.append(message.get_message_detail().raw());
    body.append("' to destination id '");
    body.append(destination_id);
    body.append("'. Error: '");
    body.append(err.msg.as_str());
    body.append(
        "' A notification has been sent here because this is configured as a root logger.",
    );

    Message::new(
        Level::SelfError,
        Some(title),
        MessageDetail::Raw(body),
        None,
        Author::parse(("rnotify").to_owned()),
        message.get_unix_timestamp_millis(),
    )
}

impl<'a> Clone for SendErrorBorrowed<'a> {
    fn clone(&self) -> (r: Self)
        ensures
            r == *self,
    {
        SendErrorBorrowed {
            err: self.err.clone(),
            destination_id: self.destination_id.clone(),
            message: self.message,
        }
    }
}

} // verus!
