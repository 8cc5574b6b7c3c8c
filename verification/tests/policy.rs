use rnotify::destination::message_condition_config::{
    MessageCondition, MessageNotifyConditionConfigEntry,
};
use rnotify::destination::notification_config::NotificationConfigEntry;
use rnotify::destination::routed_destination::{MessageRoutingBehaviour, RoutedDestinationBase};
use rnotify::destination::{MessageDestination, MessageSendError};
use rnotify::message::author::Author;
use rnotify::message::component::Component;
use rnotify::message::{Level, Message, MessageDetail};
use rnotify::message_router::RoutingInfo;

#[derive(Debug)]
struct NullDest;

impl MessageDestination for NullDest {
    fn send(&self, _message: &Message) -> Result<(), MessageSendError> {
        Ok(())
    }
}

fn message_at(level: Level) -> Message {
    Message::new(
        level,
        None,
        MessageDetail::Raw("body".to_owned()),
        None,
        Author::parse_incognito("t".to_owned()),
        0,
    )
}

#[test]
fn behaviour_decides_the_passes() {
    assert!(MessageRoutingBehaviour::Root.always_send_messages());
    assert!(MessageRoutingBehaviour::Additive.always_send_messages());
    assert!(!MessageRoutingBehaviour::Drain.always_send_messages());

    assert!(MessageRoutingBehaviour::Root.always_receives_errors());
    assert!(!MessageRoutingBehaviour::Additive.always_receives_errors());
    assert!(!MessageRoutingBehaviour::Drain.always_receives_errors());

    assert_eq!(MessageRoutingBehaviour::default(), MessageRoutingBehaviour::Additive);
}

#[test]
fn routing_info_defaults_to_match_all() {
    let info = RoutingInfo::of(MessageRoutingBehaviour::Additive);
    assert_eq!(*info.get_routing_behaviour(), MessageRoutingBehaviour::Additive);
    assert!(info.applies_to(&message_at(Level::Info)));
    assert!(info.applies_to(&message_at(Level::SelfError)));

    let root = RoutingInfo::root();
    assert_eq!(*root.get_routing_behaviour(), MessageRoutingBehaviour::Root);
}

#[test]
fn default_condition_matches_everything() {
    let condition = MessageCondition::default();
    for level in [Level::Info, Level::Warn, Level::Error, Level::SelfError] {
        assert!(condition.matches(&message_at(level)));
    }
    let mut with_component = message_at(Level::Warn);
    with_component.component = Some(Component::parse("any/topic"));
    assert!(condition.matches(&with_component));
}

#[test]
fn of_max_caps_the_level() {
    let condition = MessageCondition::of_max(Level::Warn);
    assert!(condition.matches(&message_at(Level::Info)));
    assert!(condition.matches(&message_at(Level::Warn)));
    assert!(!condition.matches(&message_at(Level::Error)));
}

#[test]
fn notify_entry_delegates_to_its_condition() {
    let entry = MessageNotifyConditionConfigEntry {
        message_condition: MessageCondition::of_min(Level::Error),
        notify: "@here".to_owned(),
    };
    assert!(entry.matches(&message_at(Level::SelfError)));
    assert!(!entry.matches(&message_at(Level::Warn)));
    assert_eq!(entry.get_notify(), "@here");
}

#[test]
fn notification_entry_checks_levels_only() {
    let entry = NotificationConfigEntry {
        component: Some(Component::parse("db")),
        min_level: Level::Warn,
        max_level: Level::Error,
        notify: 7u32,
    };
    // The component is configuration data; matching looks at the levels.
    assert!(entry.matches(&message_at(Level::Warn)));
    assert!(!entry.matches(&message_at(Level::SelfError)));
    assert_eq!(*entry.get_notify(), 7);
}

#[test]
fn routed_destination_exposes_its_parts() {
    let dest = RoutedDestinationBase::new(
        "log".to_owned(),
        NullDest,
        RoutingInfo::root(),
    );
    assert_eq!(dest.get_id(), "log");
    assert!(dest.is_root());
    assert_eq!(*dest.get_routing_type(), MessageRoutingBehaviour::Root);
    assert!(dest.should_receive(&message_at(Level::Info)));
    dest.get_destination();
    assert!(dest.send(&message_at(Level::Info)).is_ok());
}
