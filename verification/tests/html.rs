use rnotify::message::detail_builder::{FormattedStringAppendable, MessageDetailBuilder};
use rnotify::message::formatted_detail::Style;
use rnotify::message::MessageDetail::Formatted;
use rnotify::util::html::{escape_html, formatted_to_html, HtmlMessageDetail};

#[test]
fn test_html_conversion() {
    let mut builder = MessageDetailBuilder::new();
    builder.section("hello world", |body| {
        body.append_plain("Dear fellow inhabitants. it has come to my attention that ");
        body.append_styled("you have not been doing your job.", Style::Bold);
    });
    builder.text_block(|block| {
        block.append_plain("That is all.");
    });
    let message = builder.build();
    if let Formatted(formatted_detail) = message {
        let html = formatted_to_html(&formatted_detail);
        assert_eq!(html, "<div><h2>hello world</h2><p>Dear fellow inhabitants. it has come to my attention that <b>you have not been doing your job.</b></p></div><p>That is all.</p>")
    } else {
        panic!("oops");
    }
}

#[test]
fn escape_html_rewrites_the_three_special_characters() {
    assert_eq!(escape_html("a < b && b > c"), "a &lt; b &amp;&amp; b &gt; c");
    assert_eq!(escape_html("plain"), "plain");
    assert_eq!(escape_html(""), "");
}

#[test]
fn create_html_styles_and_escapes() {
    let mut builder = MessageDetailBuilder::new();
    builder.text_block(|block| {
        block.append_styled("x<1", Style::Italics);
        block.append_styled("code", Style::Monospace);
    });
    if let Formatted(detail) = builder.build() {
        assert_eq!(detail.create_html(), "<p><i>x&lt;1</i><code>code</code></p>");
    } else {
        panic!("expected a formatted detail");
    }
}
