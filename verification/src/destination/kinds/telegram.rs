use vstd::prelude::*;
use vstd::string::StringExecFns;
use crate::destination::kinds::render_local_timestamp;
use crate::destination::message_condition_config::{
    condition_matches, MessageNotifyConditionConfigEntry,
};
use crate::message::component::{join_slash, join_slash_exec};
use crate::message::formatted_detail::{
    ComponentView, FormattedMessageComponent, FormattedString, FormattedStringView, Style,
};
use crate::message::{level_name, Message, MessageDetail};

verus! {

/// A destination that posts messages to a Telegram chat.  Building the
/// request body is done here; the HTTP call is the caller's side of the
/// boundary.
#[derive(Debug)]
pub struct TelegramDestination {
    pub bot_token: String,
    pub chat_id: String,
    pub notify: Vec<MessageNotifyConditionConfigEntry<bool>>,
}

/// One Telegram API message: the chat it goes to, its text, whether the
/// chat is notified, and how the text is to be parsed.
#[derive(Debug)]
pub struct TelegramMessage {
    pub chat_id: String,
    pub text: String,
    pub disable_notification: bool,
    pub parse_mode: Option<ParseMode>,
}

/// How Telegram parses the message text.
#[derive(Debug, Clone, Copy, PartialEq, Eq, Structural)]
pub enum ParseMode {
    HTML,
}

impl TelegramMessage {
    pub fn new(chat_id: String, message: String, notify: bool, parse_mode: Option<ParseMode>) -> (r:
        Self)
        ensures
            r.chat_id == chat_id,
            r.text == message,
            r.disable_notification == !notify,
            r.parse_mode == parse_mode,
    {
        TelegramMessage { chat_id, text: message, disable_notification: !notify, parse_mode }
    }
}

/// One style layer in Telegram markup.
pub open spec fn tg_wrap(style: Style, s: Seq<char>) -> Seq<char> {
    match style {
        Style::Bold => "*"@ + s + "*"@,
        Style::Italics => "_"@ + s + "_"@,
        Style::Monospace => "`"@ + s + "`"@,
    }
}

/// The text wrapped in all its style layers, first style innermost.
pub open spec fn tg_styled(styles: Seq<Style>, s: Seq<char>) -> Seq<char>
    decreases styles.len(),
{
    if styles.len() == 0 {
        s
    } else {
        tg_wrap(styles.last(), tg_styled(styles.drop_last(), s))
    }
}

/// A run of styled text in Telegram markup.
pub open spec fn tg_part(p: FormattedStringView) -> Seq<char> {
    tg_styled(p.styles, p.s)
}

/// A list of runs in Telegram markup, concatenated.
pub open spec fn tg_parts(ps: Seq<FormattedStringView>) -> Seq<char>
    decreases ps.len(),
{
    if ps.len() == 0 {
        Seq::empty()
    } else {
        tg_parts(ps.drop_last()) + tg_part(ps.last())
    }
}

/// One block in Telegram markup: a section leads with its title, bold and
/// underlined.
pub open spec fn tg_component(c: ComponentView) -> Seq<char> {
    match c {
        ComponentView::Section(name, ps) => "<b><u>"@ + name + "</u></b>\n"@ + tg_parts(ps),
        ComponentView::Text(ps) => tg_parts(ps),
    }
}

/// All blocks in Telegram markup, concatenated.
pub open spec fn tg_components(cs: Seq<ComponentView>) -> Seq<char>
    decreases cs.len(),
{
    if cs.len() == 0 {
        Seq::empty()
    } else {
        tg_components(cs.drop_last()) + tg_component(cs.last())
    }
}

/// The message body in Telegram markup: the raw text as it stands, or the
/// formatted blocks.
pub open spec fn tg_body(d: MessageDetail) -> Seq<char> {
    match d {
        MessageDetail::Raw(raw) => raw@,
        MessageDetail::Formatted(f) => tg_components(f.components.deep_view()),
    }
}

/// The full text posted for a message under the given timestamp text: the
/// level and title, the body, a rule, the timestamp, and the author.  HTML
/// decoration is used exactly when the body is formatted.
pub open spec fn tg_text(ts: Seq<char>, m: &Message) -> Seq<char> {
    let fmt = m.message_detail is Formatted;
    level_name(m.level) + (match m.title {
        Some(ref t) => if fmt {
            ": <b>"@ + t@ + "</b>"@
        } else {
            ": "@ + t@
        },
        None => Seq::empty(),
    }) + "\n"@ + tg_body(m.message_detail) + "\n-----\n"@ + (if fmt {
        "<pre>"@ + ts + "</pre>"@
    } else {
        ts
    }) + "\n@ "@ + join_slash(m.author.parts.deep_view())
}

/// Whether any notify entry matching the message asks for notification.
pub open spec fn spec_notify(
    entries: Seq<MessageNotifyConditionConfigEntry<bool>>,
    m: &Message,
) -> bool {
    exists|i: int|
        0 <= i < entries.len() && condition_matches(&entries[i].message_condition, m)
            && entries[i].notify
}

impl TelegramDestination {
    /// Builds the Telegram API message for one routed message: the composed
    /// text under the machine's local rendering of the timestamp, notifying
    /// the chat exactly when a matching notify entry asks for it, and HTML
    /// parsing exactly when the body is formatted.
    pub fn to_tg_message(&self, message: &Message) -> (r: TelegramMessage)
        ensures
            r.chat_id@ == self.chat_id@,
            exists|ts: Seq<char>| r.text@ == tg_text(ts, message),
            r.disable_notification == !spec_notify(self.notify@, message),
            r.parse_mode == (if message.message_detail is Formatted {
                Some(ParseMode::HTML)
            } else {
                None::<ParseMode>
            }),
    {
        let ts = render_local_timestamp(message.get_unix_timestamp_millis());
        let content = compose_tg_text(ts.as_str(), message);

        let html_formatting = message.get_message_detail().has_formatting();
        let parse_mode = if html_formatting {
            Some(ParseMode::HTML)
        } else {
            None
        };

        let mut notify = false;
        let mut i: usize = 0;
        while i < self.notify.len()
            invariant
                i <= self.notify@.len(),
                notify <==> exists|k: int|
                    0 <= k < i && condition_matches(&self.notify@[k].message_condition, message)
                        && self.notify@[k].notify,
            decreases self.notify@.len() - i,
        {
            if self.notify[i].matches(message) && *self.notify[i].get_notify() {
                notify = true;
            }
            i += 1;
        }

        TelegramMessage::new(self.chat_id.clone(), content, notify, parse_mode)
    }
}

/// Writes the Telegram markup for one styled run.
pub fn to_tg_format(formatted_string: &FormattedString) -> (r: String)
    ensures
        r@ == tg_part(formatted_string.deep_view()),
{
    let mut result = formatted_string.get_string().to_owned();
    let styles = formatted_string.get_styles();
    let mut k: usize = 0;
    while k < styles.len()
        invariant
            k <= styles@.len(),
            styles == &formatted_string.styles,
            result@ == tg_styled(styles@.take(k as int), formatted_string.s@),
        decreases styles@.len() - k,
    {
        result = apply_style(result.as_str(), &styles[k]);
        k += 1;
        proof {
            assert(styles@.take(k as int).drop_last() =~= styles@.take(k - 1));
        }
    }
    proof {
        assert(styles@.take(styles@.len() as int) =~= styles@);
    }
    result
}

/// Wraps text in one layer of Telegram markup.
pub fn apply_style(s: &str, style: &Style) -> (r: String)
    ensures
        r@ == tg_wrap(*style, s@),
{
    let (open, close) = match style {
        Style::Bold => ("*", "*"),
        Style::Italics => ("_", "_"),
        Style::Monospace => ("`", "`"),
    };
    let mut r = open.to_owned();
    r.append(s);
    r.append(close);
    r
}

/// Writes the full text posted for a message, under the given timestamp
/// text.
pub fn compose_tg_text(ts: &str, message: &Message) -> (r: String)
    ensures
        r@ == tg_text(ts@, message),
{
    let html_formatting = message.get_message_detail().has_formatting();
    let mut content = message.get_level().name().to_owned();
    if let Some(title) = message.get_title() {
        if html_formatting {
            content.append(": <b>");
            content.append(title.as_str());
            content.append("</b>");
        } else {
            content.append(": ");
            content.append(title.as_str());
        }
    }
    content.append("\n");

    match message.get_message_detail() {
        MessageDetail::Raw(raw) => content.append(raw.as_str()),
        MessageDetail::Formatted(formatted) => {
            let components = formatted.components();
            let ghost body_head = content@;
            let mut i: usize = 0;
            while i < components.len()
                invariant
                    i <= components@.len(),
                    components == &formatted.components,
                    content@ == body_head + tg_components(components.deep_view().take(i as int)),
                decreases components@.len() - i,
            {
                match &components[i] {
                    FormattedMessageComponent::Section(title, section_content) => {
                        content.append("<b><u>");
                        content.append(title.as_str());
                        content.append("</u></b>\n");
                        append_tg_parts(&mut content, section_content);
                    },
                    FormattedMessageComponent::Text(parts) => {
                        append_tg_parts(&mut content, parts);
                    },
                }
                i += 1;
                proof {
                    assert(components.deep_view().take(i as int).drop_last()
                        =~= components.deep_view().take(i - 1));
                    assert(components.deep_view().take(i as int).last()
                        == components.deep_view()[i - 1]);
                    assert(content@ =~= body_head + tg_components(
                        components.deep_view().take(i as int),
                    ));
                }
            }
            proof {
                assert(components.deep_view().take(components.deep_view().len() as int)
                    =~= components.deep_view());
            }
        },
    }

    content.append("\n-----\n");
    if html_formatting {
        content.append("<pre>");
        content.append(ts);
        content.append("</pre>");
    } else {
        content.append(ts);
    }
    content.append("\n@ ");
    content.append(join_slash_exec(&message.get_author().parts).as_str());
    proof {
        assert(content@ =~= tg_text(ts@, message));
    }
    content
}

fn append_tg_parts(content: &mut String, parts: &Vec<FormattedString>)
    ensures
        final (content)@ == old(content)@ + tg_parts(parts.deep_view()),
{
    let ghost head = content@;
    let mut k: usize = 0;
    while k < parts.len()
        invariant
            k <= parts@.len(),
            content@ == head + tg_parts(parts.deep_view().take(k as int)),
        decreases parts@.len() - k,
    {
        content.append(to_tg_format(&parts[k]).as_str());
        k += 1;
        proof {
            assert(parts.deep_view().take(k as int).drop_last() =~= parts.deep_view().take(k - 1));
            assert(parts.deep_view().take(k as int).last() == parts.deep_view()[k - 1]);
            assert(content@ =~= head + tg_parts(parts.deep_view().take(k as int)));
        }
    }
    proof {
        assert(parts.deep_view().take(parts.deep_view().len() as int) =~= parts.deep_view());
    }
}

} // verus!
