use vstd::prelude::*;
use vstd::string::StringExecFns;
use crate::destination::message_condition_config::{
    condition_matches, MessageNotifyConditionConfigEntry,
};
use crate::message::component::{join_slash, join_slash_exec};
use crate::message::formatted_detail::{
    ComponentView, FormattedMessageComponent, FormattedString, FormattedStringView, Style,
};
use crate::message::{Level, Message, MessageDetail};

verus! {

/// A destination that posts messages to a Discord webhook.  The markup for
/// the embed is written here; assembling and posting the webhook payload is
/// the caller's side of the boundary.
#[derive(Debug)]
pub struct DiscordDestination {
    pub url: String,
    pub username: Option<String>,
    pub notify: Vec<MessageNotifyConditionConfigEntry<String>>,
}

impl DiscordDestination {
    pub fn new(url: String) -> (r: Self)
        ensures
            r.url == url,
            r.username is None,
            r.notify@ == Seq::<MessageNotifyConditionConfigEntry<String>>::empty(),
    {
        DiscordDestination { url, username: None, notify: Vec::new() }
    }

    /// The mentions to prepend for this message: the notify entries whose
    /// condition matches, joined with single spaces.
    pub fn notify_receivers(&self, message: &crate::message::Message) -> (r: Vec<String>)
        ensures
            r.deep_view() == notify_matches(self.notify@, message),
    {
        let mut out: Vec<String> = Vec::new();
        let mut i: usize = 0;
        while i < self.notify.len()
            invariant
                i <= self.notify@.len(),
                out.deep_view() == notify_matches(self.notify@.take(i as int), message),
            decreases self.notify@.len() - i,
        {
            proof {
                assert(self.notify@.take(i + 1).drop_last() =~= self.notify@.take(i as int));
                assert(self.notify@.take(i + 1).last() == self.notify@[i as int]);
            }
            if self.notify[i].matches(message) {
                out.push(self.notify[i].get_notify().clone());
            }
            proof {
                assert(out.deep_view() =~= notify_matches(self.notify@.take(i + 1), message));
            }
            i += 1;
        }
        proof {
            assert(self.notify@.take(self.notify@.len() as int) =~= self.notify@);
        }
        out
    }
}

/// The notify targets of the entries whose condition matches the message,
/// in order.
pub open spec fn notify_matches(
    entries: Seq<MessageNotifyConditionConfigEntry<String>>,
    m: &crate::message::Message,
) -> Seq<Seq<char>>
    decreases entries.len(),
{
    if entries.len() == 0 {
        Seq::empty()
    } else {
        let rest = notify_matches(entries.drop_last(), m);
        if condition_matches(&entries.last().message_condition, m) {
            rest.push(entries.last().notify@)
        } else {
            rest
        }
    }
}

/// One style layer in Discord markdown.
pub open spec fn discord_wrap(style: Style, s: Seq<char>) -> Seq<char> {
    match style {
        Style::Bold => "**"@ + s + "**"@,
        Style::Italics => "_"@ + s + "_"@,
        Style::Monospace => "`"@ + s + "`"@,
    }
}

/// The text wrapped in all its style layers, first style innermost.
pub open spec fn discord_styled(styles: Seq<Style>, s: Seq<char>) -> Seq<char>
    decreases styles.len(),
{
    if styles.len() == 0 {
        s
    } else {
        discord_wrap(styles.last(), discord_styled(styles.drop_last(), s))
    }
}

/// A run of styled text in Discord markdown.
pub open spec fn discord_part(p: FormattedStringView) -> Seq<char> {
    discord_styled(p.styles, p.s)
}

/// Writes the Discord markdown for one styled run.
pub fn to_discord_format(formatted_string: &FormattedString) -> (r: String)
    ensures
        r@ == discord_part(formatted_string.deep_view()),
{
    let mut result = formatted_string.get_string().to_owned();
    let styles = formatted_string.get_styles();
    let mut k: usize = 0;
    while k < styles.len()
        invariant
            k <= styles@.len(),
            styles == &formatted_string.styles,
            result@ == discord_styled(styles@.take(k as int), formatted_string.s@),
        decreases styles@.len() - k,
    {
        result = apply_style(result.as_str(), &styles[k]);
        k += 1;
        proof {
            assert(styles@.take(k as int).drop_last() =~= styles@.take(k - 1));
        }
    }
    proof {
        assert(styles@.take(styles@.len() as int) =~= styles@);
    }
    result
}

/// Wraps text in one layer of Discord markdown.
pub fn apply_style(s: &str, style: &Style) -> (r: String)
    ensures
        r@ == discord_wrap(*style, s@),
{
    let (open, close) = match style {
        Style::Bold => ("**", "**"),
        Style::Italics => ("_", "_"),
        Style::Monospace => ("`", "`"),
    };
    let mut r = open.to_owned();
    r.append(s);
    r.append(close);
    r
}

/// Everything this destination decides about one webhook message: the
/// mentions, the embed's title, footer, colour and author tag, and the body
/// as a description and titled fields.  Copying these into the wire format
/// is the caller's side of the boundary.
#[derive(Debug)]
pub struct DiscordMessageModel {
    /// The matching notify entries' mentions, joined with spaces; absent
    /// when none matched.
    pub content: Option<String>,
    pub title: String,
    pub footer: String,
    pub color: u32,
    /// The message's component in brackets, shown as the embed's author.
    pub author_tag: Option<String>,
    pub description: Option<String>,
    /// One `(title, markup)` field per section of a formatted body.
    pub fields: Vec<(String, String)>,
}

/// The pieces joined with single spaces between them.
pub open spec fn join_space(items: Seq<Seq<char>>) -> Seq<char>
    decreases items.len(),
{
    if items.len() == 0 {
        Seq::empty()
    } else if items.len() == 1 {
        items[0]
    } else {
        join_space(items.drop_last()) + " "@ + items.last()
    }
}

/// A list of runs in Discord markdown, concatenated.
pub open spec fn discord_parts(ps: Seq<FormattedStringView>) -> Seq<char>
    decreases ps.len(),
{
    if ps.len() == 0 {
        Seq::empty()
    } else {
        discord_parts(ps.drop_last()) + discord_part(ps.last())
    }
}

/// The embed fields of a formatted body: one per section, in order, holding
/// the section's title and its runs in Discord markdown.
pub open spec fn discord_fields(cs: Seq<ComponentView>) -> Seq<(Seq<char>, Seq<char>)>
    decreases cs.len(),
{
    if cs.len() == 0 {
        Seq::empty()
    } else {
        let rest = discord_fields(cs.drop_last());
        match cs.last() {
            ComponentView::Section(name, ps) => rest.push((name, discord_parts(ps))),
            ComponentView::Text(_) => rest,
        }
    }
}

/// The embed description of a formatted body: the markdown of the last
/// plain text block, each such block replacing the one before it; absent
/// when the body has none.
pub open spec fn discord_description(cs: Seq<ComponentView>) -> Option<Seq<char>>
    decreases cs.len(),
{
    if cs.len() == 0 {
        None
    } else {
        match cs.last() {
            ComponentView::Text(ps) => Some(discord_parts(ps)),
            ComponentView::Section(_, _) => discord_description(cs.drop_last()),
        }
    }
}

impl DiscordDestination {
    /// Builds the webhook message model for one routed message under the
    /// given timestamp text: the matching mentions, the title (or its fixed
    /// stand-in), the timestamp-and-author footer, the severity colour, the
    /// bracketed component, and the body as description and fields.
    pub fn to_discord_model(&self, ts: &str, message: &Message) -> (r: DiscordMessageModel)
        ensures
            (match r.content {
                Some(ref c) => notify_matches(self.notify@, message).len() > 0 && c@ == join_space(
                    notify_matches(self.notify@, message),
                ),
                None => notify_matches(self.notify@, message).len() == 0,
            }),
            r.title@ == (match message.title {
                Some(ref t) => t@,
                None => "Rnotify Notification"@,
            }),
            r.footer@ == ts@ + " @ "@ + join_slash(message.author.parts.deep_view()),
            r.color == spec_color_from_level(message.level),
            (match (r.author_tag, message.component) {
                (Some(ref a), Some(ref c)) => a@ == "["@ + join_slash(c.segments()) + "]"@,
                (None, None) => true,
                _ => false,
            }),
            (match message.message_detail {
                MessageDetail::Raw(ref raw) => {
                    &&& r.description matches Some(d) && d@ == raw@
                    &&& r.fields@.len() == 0
                },
                MessageDetail::Formatted(ref f) => {
                    &&& (match (r.description, discord_description(f.components.deep_view())) {
                        (Some(ref a), Some(b)) => a@ == b,
                        (None, None) => true,
                        _ => false,
                    })
                    &&& r.fields@.len() == discord_fields(f.components.deep_view()).len()
                    &&& forall|k: int|
                        0 <= k < r.fields@.len() ==> #[trigger] r.fields@[k].0@ == discord_fields(
                            f.components.deep_view(),
                        )[k].0 && r.fields@[k].1@ == discord_fields(f.components.deep_view())[k].1
                },
            }),
    {
        let receivers = self.notify_receivers(message);
        let content = if receivers.len() == 0 {
            None
        } else {
            Some(join_space_exec(&receivers))
        };

        let title = match message.get_title() {
            Some(t) => t.clone(),
            None => ("Rnotify Notification").to_owned(),
        };

        let mut footer = ts.to_owned();
        footer.append(" @ ");
        footer.append(join_slash_exec(&message.get_author().parts).as_str());

        let author_tag = match message.get_component() {
            Some(c) => {
                let mut tag = ("[").to_owned();
                tag.append(join_slash_exec(&c.parts).as_str());
                tag.append("]");
                Some(tag)
            },
            None => None,
        };

        let mut description: Option<String> = None;
        let mut fields: Vec<(String, String)> = Vec::new();
        match message.get_message_detail() {
            MessageDetail::Raw(raw) => {
                description = Some(raw.clone());
            },
            MessageDetail::Formatted(formatted) => {
                let components = formatted.components();
                let mut i: usize = 0;
                while i < components.len()
                    invariant
                        i <= components@.len(),
                        components == &formatted.components,
                        (match (
                            description,
                            discord_description(components.deep_view().take(i as int)),
                        ) {
                            (Some(ref a), Some(b)) => a@ == b,
                            (None, None) => true,
                            _ => false,
                        }),
                        fields@.len() == discord_fields(
                            components.deep_view().take(i as int),
                        ).len(),
                        forall|k: int|
                            0 <= k < fields@.len() ==> #[trigger] fields@[k].0@ == discord_fields(
                                components.deep_view().take(i as int),
                            )[k].0 && fields@[k].1@ == discord_fields(
                                components.deep_view().take(i as int),
                            )[k].1,
                    decreases components@.len() - i,
                {
                    proof {
                        assert(components.deep_view().take(i + 1).drop_last()
                            =~= components.deep_view().take(i as int));
                        assert(components.deep_view().take(i + 1).last()
                            == components.deep_view()[i as int]);
                    }
                    let ghost prev_fields = fields@;
                    match &components[i] {
                        FormattedMessageComponent::Section(name, parts) => {
                            fields.push((name.clone(), discord_parts_exec(parts)));
                        },
                        FormattedMessageComponent::Text(parts) => {
                            description = Some(discord_parts_exec(parts));
                        },
                    }
                    proof {
                        assert forall|k: int|
                            0 <= k < fields@.len() implies #[trigger] fields@[k].0@
                            == discord_fields(components.deep_view().take(i + 1))[k].0
                            && fields@[k].1@ == discord_fields(
                            components.deep_view().take(i + 1),
                        )[k].1 by {
                            if k < prev_fields.len() {
                                assert(fields@[k] == prev_fields[k]);
                                assert(prev_fields[k].0@ == discord_fields(
                                    components.deep_view().take(i as int),
                                )[k].0 && prev_fields[k].1@ == discord_fields(
                                    components.deep_view().take(i as int),
                                )[k].1);
                            }
                        }
                    }
                    i += 1;
                }
                proof {
                    assert(components.deep_view().take(components.deep_view().len() as int)
                        =~= components.deep_view());
                }
            },
        }

        DiscordMessageModel {
            content,
            title,
            footer,
            color: get_color_from_level(message.get_level()),
            author_tag,
            description,
            fields,
        }
    }
}

/// Writes the Discord markdown of the runs, one after the other.
pub fn discord_parts_exec(parts: &Vec<FormattedString>) -> (r: String)
    ensures
        r@ == discord_parts(parts.deep_view()),
{
    let mut r = String::new();
    let mut k: usize = 0;
    while k < parts.len()
        invariant
            k <= parts@.len(),
            r@ == discord_parts(parts.deep_view().take(k as int)),
        decreases parts@.len() - k,
    {
        r.append(to_discord_format(&parts[k]).as_str());
        k += 1;
        proof {
            assert(parts.deep_view().take(k as int).drop_last() =~= parts.deep_view().take(k - 1));
            assert(parts.deep_view().take(k as int).last() == parts.deep_view()[k - 1]);
            assert(r@ =~= discord_parts(parts.deep_view().take(k as int)));
        }
    }
    proof {
        assert(parts.deep_view().take(parts.deep_view().len() as int) =~= parts.deep_view());
    }
    r
}

/// Joins the pieces with single spaces.
fn join_space_exec(items: &Vec<String>) -> (r: String)
    ensures
        r@ == join_space(items.deep_view()),
{
    let mut r = String::new();
    let mut i: usize = 0;
    while i < items.len()
        invariant
            i <= items@.len(),
            r@ == join_space(items.deep_view().take(i as int)),
        decreases items@.len() - i,
    {
        if i > 0 {
            r.append(" ");
        }
        r.append(items[i].as_str());
        proof {
            assert(items.deep_view().take(i + 1).drop_last() =~= items.deep_view().take(i as int));
            assert(items.deep_view().take(i + 1).last() == items.deep_view()[i as int]);
            if i > 0 {
                assert(r@ =~= join_space(items.deep_view().take(i + 1)));
            } else {
                assert(r@ =~= join_space(items.deep_view().take(1)));
            }
        }
        i += 1;
    }
    proof {
        assert(items.deep_view().take(items.deep_view().len() as int) =~= items.deep_view());
    }
    r
}

/// The embed colour Discord shows for each severity.
pub open spec fn spec_color_from_level(level: Level) -> u32 {
    match level {
        Level::Info => 0x00F4D0u32,
        Level::Warn => 0xFFFF00u32,
        Level::Error => 0xFF0000u32,
        Level::SelfError => 0xB30000u32,
    }
}

/// The embed colour for a severity: teal, yellow, red, dark red.
pub fn get_color_from_level(level: &Level) -> (c: u32)
    ensures
        c == spec_color_from_level(*level),
{
    match level {
        Level::Info => 0x00F4D0,
        Level::Warn => 0xFFFF00,
        Level::Error => 0xFF0000,
        Level::SelfError => 0xB30000,
    }
}

} // verus!
