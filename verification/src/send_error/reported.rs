use vstd::prelude::*;
use crate::destination::MessageSendError;
use crate::message::Message;
use crate::send_error::borrowed::{is_report_message, SendErrorBorrowed};
use crate::send_error::owned::SendErrorOwned;

verus! {

/// A failed delivery together with the outcome of escalating it to the root
/// destinations.
#[derive(Debug)]
pub struct ReportedSendError<'a> {
    pub send_err: SendErrorBorrowed<'a>,
    pub error_report_summary: ErrorReportSummary,
}

impl<'a> ReportedSendError<'a> {
    pub fn new(send_err: SendErrorBorrowed<'a>, error_report_summary: ErrorReportSummary) -> (r:
        Self)
        ensures
            r == (ReportedSendError { send_err, error_report_summary }),
    {
        ReportedSendError { send_err, error_report_summary }
    }

    pub fn get_report_summary(&self) -> (s: &ErrorReportSummary)
        ensures
            s == &self.error_report_summary,
    {
        &self.error_report_summary
    }

    pub fn get_error(&self) -> (e: &MessageSendError)
        ensures
            e == &self.send_err.err,
    {
        self.send_err.get_error()
    }

    pub fn get_failed_destination_id(&self) -> (id: &str)
        ensures
            id@ == self.send_err.destination_id@,
    {
        self.send_err.get_failed_destination_id()
    }

    pub fn get_failed_message(&self) -> (m: &Message)
        ensures
            m == self.send_err.message,
    {
        self.send_err.get_failed_message()
    }

    /// Synthesizes the self-diagnostic message describing the underlying
    /// failure, as [`SendErrorBorrowed::create_report_message`] does.
    pub fn create_report_message(&self) -> (r: Message)
        ensures
            is_report_message(
                r,
                self.send_err.message.message_detail.spec_raw(),
                self.send_err.destination_id@,
                self.send_err.err.msg@,
                self.send_err.message.unix_timestamp_millis,
            ),
    {
        self.send_err.create_report_message()
    }
}

/// How escalation of one failed delivery went: whether any root destination
/// accepted the report, and the root destinations where the report itself
/// failed.  `reported` false together with no failures means there was no
/// root destination to attempt; `reported` false with failures means the
/// escalation channel itself is broken.
#[derive(Debug)]
pub struct ErrorReportSummary {
    pub reported: bool,
    pub error_report_failures: Vec<SendErrorOwned>,
}

impl ErrorReportSummary {
    pub fn new(reported: bool, error_report_failures: Vec<SendErrorOwned>) -> (r: Self)
        ensures
            r == (ErrorReportSummary { reported, error_report_failures }),
    {
        ErrorReportSummary { reported, error_report_failures }
    }

    /// Whether the failure was reported to at least one root destination.
    pub fn was_reported(&self) -> (r: bool)
        ensures
            r == self.reported,
    {
        self.reported
    }

    /// The root destinations that failed while receiving the report.
    pub fn get_report_failures(&self) -> (r: &Vec<SendErrorOwned>)
        ensures
            r == &self.error_report_failures,
    {
        &self.error_report_failures
    }
}

impl Default for ErrorReportSummary {
    /// No report attempted: nothing reported, nothing failed.
    fn default() -> (r: Self)
        ensures
            r.reported == false,
            r.error_report_failures@.len() == 0,
    {
        ErrorReportSummary { reported: false, error_report_failures: Vec::new() }
    }
}

} // verus!
