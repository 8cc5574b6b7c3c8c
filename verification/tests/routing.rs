use std::sync::mpsc;
use std::sync::mpsc::{Sender, TryRecvError};

use rnotify::destination::kinds::rust_receiver::RustReceiverDestination;
use rnotify::destination::message_condition_config::MessageCondition;
use rnotify::destination::routed_destination::{MessageRoutingBehaviour, RoutedDestinationBase};
use rnotify::destination::{MessageDestination, MessageSendError};
use rnotify::message::author::Author;
use rnotify::message::component::Component;
use rnotify::message::{Level, Message, MessageDetail};
use rnotify::message_router::{MessageRouter, RoutingInfo};
use rnotify::send_error::borrowed::SendErrorBorrowed;

/// How a probe destination behaves when sent to.
#[derive(Debug, Clone, Copy, PartialEq)]
enum Behaviour {
    Succeed,
    Fail,
    /// Succeeds for ordinary messages, fails for `SelfError` ones: a root
    /// destination whose escalation channel is broken.
    FailSelfErrors,
}

/// A test destination that logs every delivery attempt and then succeeds or
/// fails as configured.
#[derive(Debug)]
struct ProbeDest {
    tag: &'static str,
    behaviour: Behaviour,
    log: Sender<&'static str>,
}

impl MessageDestination for ProbeDest {
    fn send(&self, message: &Message) -> Result<(), MessageSendError> {
        self.log.send(self.tag).unwrap();
        let fails = match self.behaviour {
            Behaviour::Succeed => false,
            Behaviour::Fail => true,
            Behaviour::FailSelfErrors => *message.get_level() == Level::SelfError,
        };
        if fails {
            Err(MessageSendError::new(format!("{} failed", self.tag)))
        } else {
            Ok(())
        }
    }
}

fn probe_router(
    dests: &[(&'static str, MessageRoutingBehaviour, Behaviour)],
) -> (MessageRouter<ProbeDest>, mpsc::Receiver<&'static str>) {
    let (log, seen) = mpsc::channel();
    let mut router = MessageRouter::empty();
    for (tag, routing, behaviour) in dests {
        let dest = ProbeDest { tag, behaviour: *behaviour, log: log.clone() };
        router.add_destination(RoutedDestinationBase::create(
            (*tag).to_owned(),
            dest,
            RoutingInfo::of(*routing),
        ));
    }
    (router, seen)
}

fn drain_log(seen: &mpsc::Receiver<&'static str>) -> Vec<&'static str> {
    let mut tags = Vec::new();
    while let Ok(tag) = seen.try_recv() {
        tags.push(tag);
    }
    tags
}

fn test_message() -> Message {
    Message::new(
        Level::Info,
        Some("t".to_owned()),
        MessageDetail::Raw("hello".to_owned()),
        None,
        Author::parse_incognito("test".to_owned()),
        104892,
    )
}

#[test]
fn routing_nothing_eligible_is_a_noop() {
    let (router, seen) = probe_router(&[]);
    let message = test_message();
    let result = router.route(&message);
    assert_eq!(result.unwrap(), 0);
    assert!(drain_log(&seen).is_empty());

    // A registry whose only destination filters the message out is just as
    // silent.
    let (mut router, _seen) = probe_router(&[]);
    let (tx, _rx) = mpsc::channel();
    router.add_destination(RoutedDestinationBase::create(
        "filtered".to_owned(),
        ProbeDest { tag: "filtered", behaviour: Behaviour::Succeed, log: tx },
        RoutingInfo {
            routing_type: MessageRoutingBehaviour::Additive,
            applies_to: Some(MessageCondition::of_min(Level::SelfError)),
        },
    ));
    let message = test_message();
    let result = router.route(&message);
    assert_eq!(result.unwrap(), 0);
}

#[test]
fn drain_skipped_when_additive_succeeds() {
    let (router, seen) = probe_router(&[
        ("additive", MessageRoutingBehaviour::Additive, Behaviour::Succeed),
        ("drain", MessageRoutingBehaviour::Drain, Behaviour::Succeed),
    ]);
    let message = test_message();
    let result = router.route(&message);
    assert_eq!(result.unwrap(), 1);
    assert_eq!(drain_log(&seen), vec!["additive"]);
}

#[test]
fn drain_used_when_only_root_succeeds() {
    let (router, seen) = probe_router(&[
        ("root", MessageRoutingBehaviour::Root, Behaviour::Succeed),
        ("drain", MessageRoutingBehaviour::Drain, Behaviour::Succeed),
    ]);
    let message = test_message();
    let result = router.route(&message);
    assert_eq!(result.unwrap(), 2);
    assert_eq!(drain_log(&seen), vec!["root", "drain"]);
}

#[test]
fn failure_is_reported_to_root() {
    let (router, seen) = probe_router(&[
        ("additive", MessageRoutingBehaviour::Additive, Behaviour::Fail),
        ("root", MessageRoutingBehaviour::Root, Behaviour::Succeed),
    ]);
    let message = test_message();
    let report = router.route(&message).unwrap_err();

    assert_eq!(report.errors.len(), 1);
    let error = &report.errors[0];
    assert_eq!(error.get_failed_destination_id(), "additive");
    assert!(error.get_report_summary().was_reported());
    assert!(error.get_report_summary().get_report_failures().is_empty());
    assert_eq!(report.successfully_sent, 1);

    // The primary pass, then exactly one escalation delivery.
    assert_eq!(drain_log(&seen), vec!["additive", "root", "root"]);
}

#[test]
fn broken_escalation_is_recorded_not_rescalated() {
    let (router, seen) = probe_router(&[
        ("additive", MessageRoutingBehaviour::Additive, Behaviour::Fail),
        ("root", MessageRoutingBehaviour::Root, Behaviour::FailSelfErrors),
    ]);
    let message = test_message();
    let report = router.route(&message).unwrap_err();

    assert_eq!(report.errors.len(), 1);
    let error = &report.errors[0];
    assert!(!error.get_report_summary().was_reported());
    let failures = error.get_report_summary().get_report_failures();
    assert_eq!(failures.len(), 1);
    assert_eq!(failures[0].get_failed_destination_id(), "root");
    assert_eq!(
        *failures[0].get_failed_message().get_level(),
        Level::SelfError
    );
    assert_eq!(
        failures[0].get_failed_message().get_unix_timestamp_millis(),
        104892
    );

    // One primary attempt each, one escalation attempt, and nothing beyond:
    // the failed escalation is never itself escalated.
    assert_eq!(drain_log(&seen), vec!["additive", "root", "root"]);
}

#[test]
fn no_root_leaves_failures_unreported() {
    let (router, _seen) = probe_router(&[(
        "additive",
        MessageRoutingBehaviour::Additive,
        Behaviour::Fail,
    )]);
    let message = test_message();
    let report = router.route(&message).unwrap_err();
    assert_eq!(report.errors.len(), 1);
    assert!(!report.errors[0].get_report_summary().was_reported());
    assert!(report.errors[0].get_report_summary().get_report_failures().is_empty());
}

#[test]
fn routing_twice_is_independent() {
    let (router, seen) = probe_router(&[
        ("additive", MessageRoutingBehaviour::Additive, Behaviour::Succeed),
        ("root", MessageRoutingBehaviour::Root, Behaviour::Succeed),
    ]);
    let message = test_message();
    let first = router.route(&message);
    let second = router.route(&message);
    assert_eq!(first.unwrap(), 2);
    assert_eq!(second.unwrap(), 2);
    assert_eq!(drain_log(&seen), vec!["additive", "root", "additive", "root"]);
}

#[test]
fn condition_filters_by_level_and_component() {
    let condition = MessageCondition::of_min(Level::Warn);
    let mut message = test_message();
    message.level = Level::Warn;
    assert!(condition.matches(&message));
    message.level = Level::Error;
    assert!(condition.matches(&message));
    message.level = Level::Info;
    assert!(!condition.matches(&message));

    let db = MessageCondition::of_component(Component::parse("db"));
    let mut message = test_message();
    message.component = Some(Component::parse("db/backup"));
    assert!(db.matches(&message));
    message.component = Some(Component::parse("web"));
    assert!(!db.matches(&message));
    message.component = None;
    assert!(!db.matches(&message));
}

#[test]
fn report_renders_deterministically() {
    let (router, _seen) = probe_router(&[
        ("bad", MessageRoutingBehaviour::Additive, Behaviour::Fail),
        ("logfail", MessageRoutingBehaviour::Root, Behaviour::FailSelfErrors),
    ]);
    let message = test_message();
    let report = router.route(&message).unwrap_err();
    assert_eq!(report.get_message().get_unix_timestamp_millis(), 104892);

    let expected = "-----\nSummary:\nSuccessfully sent to 1 destinations\nFailed to send to 1 destinations\nMessage: 'hello'\n--\nFailed to send a message to destination 'bad'\nDue to error: bad failed\nSome error receiving destinations failed to be reported to.\n   - logfail: logfail failed\n-----\n";
    assert_eq!(report.render(), expected);
}

#[test]
fn duplicate_ids_are_accepted() {
    // Duplicate ids only blur diagnostics; routing still attempts both.
    let (router, seen) = probe_router(&[
        ("dup", MessageRoutingBehaviour::Additive, Behaviour::Fail),
        ("dup", MessageRoutingBehaviour::Additive, Behaviour::Fail),
    ]);
    let message = test_message();
    let report = router.route(&message).unwrap_err();
    assert_eq!(report.errors.len(), 2);
    assert_eq!(report.errors[0].get_failed_destination_id(), "dup");
    assert_eq!(report.errors[1].get_failed_destination_id(), "dup");
    assert_eq!(drain_log(&seen), vec!["dup", "dup"]);
}

#[test]
fn send_error_renders_its_description() {
    let e = MessageSendError::new("boom".to_owned());
    assert_eq!(e.render(), "Error sending message: boom");
}

#[test]
fn routed_destination_test_send_message() {
    let (send, recv) = mpsc::channel();
    let dest = RoutedDestinationBase::create(
        "test".to_owned(),
        RustReceiverDestination::create(send),
        RoutingInfo::root(),
    );

    let message = Message::new(
        Level::Info,
        None,
        MessageDetail::Raw("hello".to_owned()),
        None,
        Author::parse("test".to_owned()),
        104892,
    );

    assert_eq!(
        recv.try_recv(),
        Err(TryRecvError::Empty),
        "Should be empty before we send a message"
    );

    dest.send(&message).expect("Should not fail to send message");

    assert_eq!(recv.try_recv(), Ok(message));
}

#[test]
fn synthetic_report_message_shape() {
    let message = test_message();
    let err = SendErrorBorrowed::create(
        MessageSendError::new("boom".to_owned()),
        "dest1".to_owned(),
        &message,
    );
    let report = err.create_report_message();
    assert_eq!(*report.get_level(), Level::SelfError);
    assert_eq!(
        report.get_title().as_deref(),
        Some("Failed to send notification to destination dest1")
    );
    assert_eq!(
        report.get_message_detail().raw(),
        "Rnotify failed to send a message 'hello' to destination id 'dest1'. \
         Error: 'boom' A notification has been sent here because this is \
         configured as a root logger."
    );
    assert!(report.get_component().is_none());
    assert_eq!(report.get_unix_timestamp_millis(), 104892);
}
