use rnotify::destination::kinds::desktop_notification::DesktopNotificationReceiver;
use rnotify::destination::kinds::discord::DiscordDestination;
use rnotify::destination::message_condition_config::{
    MessageCondition, MessageNotifyConditionConfigEntry,
};
use rnotify::message::author::Author;
use rnotify::message::component::Component;
use rnotify::message::detail_builder::{FormattedStringAppendable, MessageDetailBuilder};
use rnotify::message::formatted_detail::Style;
use rnotify::message::{Level, Message, MessageDetail};

fn formatted_message() -> Message {
    let mut builder = MessageDetailBuilder::new();
    builder
        .text_block(|block| {
            block.append_plain("overview");
        })
        .section("Numbers", |section| {
            section.append_styled("42", Style::Bold);
        })
        .text_block(|block| {
            block.append_plain("closing words");
        });
    Message::new(
        Level::Error,
        None,
        builder.build(),
        Some(Component::parse("db/backup")),
        Author::parse_incognito("cron".to_owned()),
        104892,
    )
}

#[test]
fn discord_model_from_a_formatted_message() {
    let mut dest = DiscordDestination::new("https://example.invalid/webhook".to_owned());
    dest.notify = vec![
        MessageNotifyConditionConfigEntry {
            message_condition: MessageCondition::of_min(Level::Warn),
            notify: "@oncall".to_owned(),
        },
        MessageNotifyConditionConfigEntry {
            message_condition: MessageCondition::default(),
            notify: "@log".to_owned(),
        },
    ];
    let message = formatted_message();
    let model = dest.to_discord_model("2022-01-01T00:00:00.000Z", &message);

    assert_eq!(model.content.as_deref(), Some("@oncall @log"));
    assert_eq!(model.title, "Rnotify Notification");
    assert_eq!(model.footer, "2022-01-01T00:00:00.000Z @ ?/cron");
    assert_eq!(model.color, 0xFF0000);
    assert_eq!(model.author_tag.as_deref(), Some("[db/backup]"));
    // Each plain text block replaces the description; the last one stands.
    assert_eq!(model.description.as_deref(), Some("closing words"));
    assert_eq!(model.fields.len(), 1);
    assert_eq!(model.fields[0].0, "Numbers");
    assert_eq!(model.fields[0].1, "**42**");
}

#[test]
fn discord_model_from_a_raw_message() {
    let dest = DiscordDestination::new("https://example.invalid/webhook".to_owned());
    let message = Message::new(
        Level::Info,
        Some("Hello".to_owned()),
        MessageDetail::Raw("plain body".to_owned()),
        None,
        Author::parse_incognito("t".to_owned()),
        0,
    );
    let model = dest.to_discord_model("ts", &message);
    assert!(model.content.is_none(), "no notify entries, no mentions");
    assert_eq!(model.title, "Hello");
    assert_eq!(model.footer, "ts @ ?/t");
    assert_eq!(model.color, 0x00F4D0);
    assert!(model.author_tag.is_none());
    assert_eq!(model.description.as_deref(), Some("plain body"));
    assert!(model.fields.is_empty());
}

#[test]
fn desktop_notification_from_a_message() {
    let receiver = DesktopNotificationReceiver {};
    let message = Message::new(
        Level::SelfError,
        Some("Broken".to_owned()),
        MessageDetail::Raw("it failed".to_owned()),
        Some(Component::parse("web")),
        Author::parse_incognito("cron".to_owned()),
        0,
    );
    let model = receiver.to_desktop_notification(&message);
    assert_eq!(model.summary, "Broken - web");
    assert_eq!(model.body, "it failed\nFrom: ?/cron");
    assert!(model.critical);
    assert_eq!(model.icon, "dialog-error");
}

#[test]
fn desktop_notification_without_title() {
    let receiver = DesktopNotificationReceiver {};
    let message = Message::new(
        Level::Warn,
        None,
        MessageDetail::Raw("watch out".to_owned()),
        Some(Component::parse("heating")),
        Author::parse_incognito("t".to_owned()),
        0,
    );
    let model = receiver.to_desktop_notification(&message);
    assert_eq!(model.summary, "heating", "no dash when there is no title");
    assert!(!model.critical);
    assert_eq!(model.icon, "dialog-warning");
}
