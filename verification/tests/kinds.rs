use std::path::PathBuf;

use rnotify::destination::kinds::discord::{self, DiscordDestination};
use rnotify::destination::kinds::file::{compose_file_line, FileDestination};
use rnotify::destination::kinds::telegram::{
    self, compose_tg_text, ParseMode, TelegramDestination, TelegramMessage,
};
use rnotify::destination::message_condition_config::{
    MessageCondition, MessageNotifyConditionConfigEntry,
};
use rnotify::message::author::Author;
use rnotify::message::component::Component;
use rnotify::message::formatted_detail::{FormattedString, Style};
use rnotify::message::{Level, Message, MessageDetail};

fn test_message() -> Message {
    Message::new(
        Level::Warn,
        Some("Backup slow".to_owned()),
        MessageDetail::Raw("first\nsecond".to_owned()),
        Some(Component::parse("db/backup")),
        Author::parse_incognito("cron".to_owned()),
        104892,
    )
}

#[test]
fn file_line_is_composed_from_its_parts() {
    let line = compose_file_line("2022-01-01T00:00:00.000Z", &test_message());
    assert_eq!(
        line,
        "2022-01-01T00:00:00.000Z - Warn: [db/backup] Backup slow - 'first\\nsecond' @ ?/cron"
    );
}

#[test]
fn inline_joins_lines_with_escaped_newlines() {
    assert_eq!(rnotify::destination::kinds::file::inline("a\nb\nc"), "a\\nb\\nc");
    assert_eq!(rnotify::destination::kinds::file::inline("a\r\nb"), "a\\nb");
    assert_eq!(rnotify::destination::kinds::file::inline("single"), "single");
    assert_eq!(rnotify::destination::kinds::file::inline(""), "");
}

#[test]
fn file_destination_keeps_its_path() {
    let dest = FileDestination::new(PathBuf::from("/var/log/notify.log"));
    assert_eq!(*dest.get_path(), PathBuf::from("/var/log/notify.log"));
    let line = dest.format_message(&test_message());
    assert!(line.ends_with("'first\\nsecond' @ ?/cron"));
}

#[test]
fn far_out_of_range_timestamps_render_as_invalid() {
    // Timestamps millennia beyond the renderable bound get the placeholder
    // instead of a chrono rendering.
    let mut message = test_message();
    message.unix_timestamp_millis = i64::MAX;
    let dest = FileDestination::new(PathBuf::from("/tmp/notify.log"));
    assert!(dest.format_message(&message).starts_with("invalid timestamp - "));
    message.unix_timestamp_millis = i64::MIN;
    assert!(dest.format_message(&message).starts_with("invalid timestamp - "));
}

#[test]
fn telegram_text_for_raw_messages() {
    let text = compose_tg_text("2022-01-01T00:00:00.000Z", &test_message());
    assert_eq!(
        text,
        "Warn: Backup slow\nfirst\nsecond\n-----\n2022-01-01T00:00:00.000Z\n@ ?/cron"
    );
}

#[test]
fn telegram_message_fields() {
    let dest = TelegramDestination {
        bot_token: "token".to_owned(),
        chat_id: "42".to_owned(),
        notify: vec![MessageNotifyConditionConfigEntry {
            message_condition: MessageCondition::of_min(Level::Warn),
            notify: true,
        }],
    };
    let message = dest.to_tg_message(&test_message());
    assert_eq!(message.chat_id, "42");
    assert!(!message.disable_notification, "a matching notify entry asked for notification");
    assert!(message.parse_mode.is_none(), "raw messages carry no parse mode");

    let plain = TelegramMessage::new("7".to_owned(), "text".to_owned(), false, Some(ParseMode::HTML));
    assert_eq!(plain.chat_id, "7");
    assert_eq!(plain.text, "text");
    assert!(plain.disable_notification);
}

#[test]
fn telegram_markup_wraps_styles() {
    let styled = FormattedString::new("x".to_owned(), vec![Style::Bold, Style::Monospace]);
    assert_eq!(telegram::to_tg_format(&styled), "`*x*`");
    assert_eq!(telegram::apply_style("t", &Style::Italics), "_t_");
}

#[test]
fn discord_markup_wraps_styles() {
    let styled = FormattedString::new("x".to_owned(), vec![Style::Bold, Style::Italics]);
    assert_eq!(discord::to_discord_format(&styled), "_**x**_");
    assert_eq!(discord::apply_style("m", &Style::Monospace), "`m`");
}

#[test]
fn discord_colors_by_level() {
    assert_eq!(discord::get_color_from_level(&Level::Info), 0x00F4D0);
    assert_eq!(discord::get_color_from_level(&Level::Warn), 0xFFFF00);
    assert_eq!(discord::get_color_from_level(&Level::Error), 0xFF0000);
    assert_eq!(discord::get_color_from_level(&Level::SelfError), 0xB30000);
}

#[test]
fn discord_notify_receivers_filters_by_condition() {
    let mut dest = DiscordDestination::new("https://example.invalid/webhook".to_owned());
    dest.notify = vec![
        MessageNotifyConditionConfigEntry {
            message_condition: MessageCondition::of_min(Level::Warn),
            notify: "@oncall".to_owned(),
        },
        MessageNotifyConditionConfigEntry {
            message_condition: MessageCondition::of_min(Level::SelfError),
            notify: "@admin".to_owned(),
        },
    ];
    assert_eq!(dest.notify_receivers(&test_message()), vec!["@oncall".to_owned()]);
}
