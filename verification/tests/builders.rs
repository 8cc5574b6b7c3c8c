use rnotify::message::author::Author;
use rnotify::message::component::Component;
use rnotify::message::detail_builder::{FormattedStringAppendable, MessageDetailBuilder};
use rnotify::message::formatted_detail::{
    FormattedMessageComponent, FormattedMessageDetail, FormattedString, Style,
};
use rnotify::message::builder::MessageBuilder;
use rnotify::message::{Level, MessageDetail};

#[test]
fn detail_builder_test_detail_builder() {
    let mut builder = MessageDetailBuilder::new();
    builder
        .text_block(|block| {
            block.append_plain("Base Description");
        })
        .section("New section", |section| {
            section.append_styled("hello", Style::Monospace);
        });

    let built = builder.build();

    let test = MessageDetail::Formatted(FormattedMessageDetail::new(
        "Raw not available".to_string(),
        vec![
            FormattedMessageComponent::Text(vec![FormattedString::plain(
                "Base Description".to_owned(),
            )]),
            FormattedMessageComponent::Section(
                "New section".to_owned(),
                vec![FormattedString::styled("hello", Style::Monospace)],
            ),
        ],
    ));

    assert_eq!(built, test);
}

#[test]
fn message_detail_builder_test_detail_builder() {
    let built = rnotify::message::message_detail_builder::MessageDetailBuilder::new()
        .section("New section", |section| {
            section.append_styled("hello", Style::Monospace);
        })
        .build();

    let test = MessageDetail::Formatted(FormattedMessageDetail::new(
        "Raw not available".to_string(),
        vec![FormattedMessageComponent::Section(
            "New section".to_owned(),
            vec![FormattedString::styled("hello", Style::Monospace)],
        )],
    ));

    assert_eq!(built, test);
}

#[test]
fn message_builder_builds_what_was_set() {
    let mut builder = MessageBuilder::new();
    builder
        .level(Level::Warn)
        .title("A title")
        .component(Component::parse("db/backup"))
        .timestamp(104892);
    let message = builder.build_clone();
    assert_eq!(*message.get_level(), Level::Warn);
    assert_eq!(message.get_title().as_deref(), Some("A title"));
    assert_eq!(message.get_component().as_ref().unwrap().render(), "db/backup");
    assert_eq!(message.get_unix_timestamp_millis(), 104892);

    let built = builder.build();
    assert_eq!(built.get_unix_timestamp_millis(), 104892);
}

#[test]
fn author_renders_with_slashes() {
    let mut author = Author::base_incognito();
    author.extend("user".to_owned());
    author.extend("cron".to_owned());
    author.extend("db_checker".to_owned());
    assert_eq!(author.render(), "?/user/cron/db_checker");

    let parsed = Author::parse_incognito("user/cron/db_checker".to_owned());
    assert_eq!(parsed.render(), "?/user/cron/db_checker");
}

#[test]
fn parse_raw_to_formatted_splits_sections() {
    let detail = rnotify::message::formatted_detail::parse_raw_to_formatted(
        "intro\n#<Section One>#\nbody line",
    );
    assert_eq!(detail.raw(), "intro\n#<Section One>#\nbody line");
    let expected = vec![
        FormattedMessageComponent::Text(vec![FormattedString::new(
            "intro\n".to_owned(),
            vec![],
        )]),
        FormattedMessageComponent::Section(
            "Section One".to_owned(),
            vec![FormattedString::new("body line\n".to_owned(), vec![])],
        ),
    ];
    assert_eq!(*detail.components(), expected);
}

#[test]
fn parse_raw_without_sections_is_one_text_block() {
    let detail = rnotify::message::formatted_detail::parse_raw_to_formatted("one\r\ntwo");
    let expected = vec![FormattedMessageComponent::Text(vec![
        FormattedString::new("one\n".to_owned(), vec![]),
        FormattedString::new("two\n".to_owned(), vec![]),
    ])];
    assert_eq!(*detail.components(), expected);
}
