use rnotify::destination::MessageSendError;
use rnotify::message::author::Author;
use rnotify::message::{Level, Message, MessageDetail};
use rnotify::send_error::borrowed::SendErrorBorrowed;
use rnotify::send_error::owned::SendErrorOwned;
use rnotify::send_error::reported::{ErrorReportSummary, ReportedSendError};
use rnotify::send_error::SendErrors;
use rnotify::util::decimal::{u64_to_dec, usize_to_dec};

fn test_message() -> Message {
    Message::new(
        Level::Error,
        None,
        MessageDetail::Raw("disk full".to_owned()),
        None,
        Author::parse_incognito("monitor".to_owned()),
        7,
    )
}

fn one_error_report(message: &Message, reported: bool) -> SendErrors<'_> {
    let send_err = SendErrorBorrowed::create(
        MessageSendError::new("timeout".to_owned()),
        "webhook".to_owned(),
        message,
    );
    let summary = ErrorReportSummary::new(reported, Vec::new());
    SendErrors::new(message, vec![ReportedSendError::new(send_err, summary)], 3)
}

#[test]
fn report_mentions_a_successful_escalation() {
    let message = test_message();
    let report = one_error_report(&message, true);
    assert_eq!(report.get_message().get_unix_timestamp_millis(), 7);
    let expected = "-----\nSummary:\nSuccessfully sent to 3 destinations\nFailed to send to 1 destinations\nMessage: 'disk full'\n--\nFailed to send a message to destination 'webhook'\nDue to error: timeout\nThis was reported to atleast one destination.\n-----\n";
    assert_eq!(report.render(), expected);
}

#[test]
fn report_distinguishes_nowhere_to_escalate() {
    // Not reported and nothing failed during escalation: there was no root
    // destination at all, and the report says so.
    let message = test_message();
    let report = one_error_report(&message, false);
    let expected = "-----\nSummary:\nSuccessfully sent to 3 destinations\nFailed to send to 1 destinations\nMessage: 'disk full'\n--\nFailed to send a message to destination 'webhook'\nDue to error: timeout\nNo error receiving destinations were applicable to send this error to.\n-----\n";
    assert_eq!(report.render(), expected);
}

#[test]
fn summary_default_is_empty() {
    let summary = ErrorReportSummary::default();
    assert!(!summary.was_reported());
    assert!(summary.get_report_failures().is_empty());
}

#[test]
fn decimal_notation() {
    assert_eq!(u64_to_dec(0), "0");
    assert_eq!(u64_to_dec(9), "9");
    assert_eq!(u64_to_dec(10), "10");
    assert_eq!(u64_to_dec(104892), "104892");
    assert_eq!(u64_to_dec(u64::MAX), "18446744073709551615");
    assert_eq!(usize_to_dec(255), "255");
}

#[test]
fn every_error_kind_synthesizes_the_same_report() {
    let message = test_message();
    let borrowed = SendErrorBorrowed::create(
        MessageSendError::new("boom".to_owned()),
        "dest1".to_owned(),
        &message,
    );
    let owned = SendErrorOwned::create(
        MessageSendError::new("boom".to_owned()),
        "dest1".to_owned(),
        message.clone(),
    );
    let reported = ReportedSendError::new(
        SendErrorBorrowed::create(
            MessageSendError::new("boom".to_owned()),
            "dest1".to_owned(),
            &message,
        ),
        ErrorReportSummary::default(),
    );

    let from_borrowed = borrowed.create_report_message();
    let from_owned = owned.create_report_message();
    let from_reported = reported.create_report_message();
    for report in [&from_borrowed, &from_owned, &from_reported] {
        assert_eq!(*report.get_level(), Level::SelfError);
        assert_eq!(
            report.get_title().as_deref(),
            Some("Failed to send notification to destination dest1")
        );
        assert_eq!(report.get_unix_timestamp_millis(), 7);
        assert!(report.get_component().is_none());
    }
    assert_eq!(
        from_borrowed.get_message_detail().raw(),
        from_owned.get_message_detail().raw()
    );
    assert_eq!(
        from_borrowed.get_message_detail().raw(),
        from_reported.get_message_detail().raw()
    );
}

#[test]
fn reported_error_exposes_its_parts() {
    let message = test_message();
    let send_err = SendErrorBorrowed::create(
        MessageSendError::new("refused".to_owned()),
        "relay".to_owned(),
        &message,
    );
    assert_eq!(send_err.get_failed_destination_id(), "relay");
    assert_eq!(send_err.get_error().msg, "refused");
    assert_eq!(send_err.get_failed_message().get_unix_timestamp_millis(), 7);

    let reported = ReportedSendError::new(send_err, ErrorReportSummary::new(true, Vec::new()));
    assert_eq!(reported.get_failed_destination_id(), "relay");
    assert_eq!(reported.get_error().msg, "refused");
    assert!(reported.get_report_summary().was_reported());
}
