pub mod author;
pub mod builder;
pub mod component;
pub mod detail_builder;
pub mod formatted_detail;
pub mod message_detail_builder;

use vstd::prelude::*;
use vstd::std_specs::cmp::PartialOrdSpec;
use core::cmp::Ordering;
use crate::message::author::Author;
use crate::message::component::Component;
use crate::message::formatted_detail::FormattedMessageDetail;

verus! {

/// One notification: a severity, an optional short title, a body, an optional
/// topic tag, an author, and a unix timestamp in milliseconds.  A message is
/// built once by the caller and read-only inside the engine.
#[derive(Debug)]
pub struct Message {
    pub level: Level,
    pub title: Option<String>,
    pub message_detail: MessageDetail,
    pub component: Option<Component>,
    pub author: Author,
    pub unix_timestamp_millis: i64,
}

impl Message {
    pub fn new(
        level: Level,
        title: Option<String>,
        message_detail: MessageDetail,
        component: Option<Component>,
        author: Author,
        unix_timestamp_millis: i64,
    ) -> (m: Message)
        ensures
            m == (Message { level, title, message_detail, component, author, unix_timestamp_millis }),
    {
        Message { level, title, message_detail, component, author, unix_timestamp_millis }
    }

    pub fn get_level(&self) -> (l: &Level)
        ensures
            l == &self.level,
    {
        &self.level
    }

    pub fn get_title(&self) -> (t: &Option<String>)
        ensures
            t == &self.title,
    {
        &self.title
    }

    pub fn get_message_detail(&self) -> (d: &MessageDetail)
        ensures
            d == &self.message_detail,
    {
        &self.message_detail
    }

    pub fn get_unix_timestamp_millis(&self) -> (t: i64)
        ensures
            t == self.unix_timestamp_millis,
    {
        self.unix_timestamp_millis
    }

    pub fn get_author(&self) -> (a: &Author)
        ensures
            a == &self.author,
    {
        &self.author
    }

    pub fn get_component(&self) -> (c: &Option<Component>)
        ensures
            c == &self.component,
    {
        &self.component
    }
}

impl Clone for Message {
    fn clone(&self) -> (m: Self)
        ensures
            m.congruent(self),
    {
        Message {
            level: self.level,
            title: match &self.title {
                Some(t) => Some(t.clone()),
                None => None,
            },
            message_detail: self.message_detail.clone(),
            component: match &self.component {
                Some(c) => Some(c.clone()),
                None => None,
            },
            author: self.author.clone(),
            unix_timestamp_millis: self.unix_timestamp_millis,
        }
    }
}

impl Message {
    /// Two messages with the same content.  Cloning gives a congruent message;
    /// only opaque allocation identity may differ, never any field a reader of
    /// the message can see.
    pub open spec fn congruent(self, other: &Message) -> bool {
        &&& self.level == other.level
        &&& match (self.title, other.title) {
            (Some(a), Some(b)) => a@ == b@,
            (None, None) => true,
            _ => false,
        }
        &&& self.message_detail.congruent(&other.message_detail)
        &&& match (self.component, other.component) {
            (Some(a), Some(b)) => a.segments() == b.segments(),
            (None, None) => true,
            _ => false,
        }
        &&& self.author.parts.deep_view() == other.author.parts.deep_view()
        &&& self.unix_timestamp_millis == other.unix_timestamp_millis
    }
}

impl PartialEq for Message {
    fn eq(&self, other: &Self) -> (r: bool) {
        let levels_eq = match (&self.level, &other.level) {
            (Level::Info, Level::Info) => true,
            (Level::Warn, Level::Warn) => true,
            (Level::Error, Level::Error) => true,
            (Level::SelfError, Level::SelfError) => true,
            _ => false,
        };
        levels_eq && (match (&self.title, &other.title) {
            (Some(a), Some(b)) => a.eq(b),
            (None, None) => true,
            _ => false,
        }) && self.message_detail.eq(&other.message_detail) && (match (
            &self.component,
            &other.component,
        ) {
            (Some(a), Some(b)) => a.eq(b),
            (None, None) => true,
            _ => false,
        }) && self.author.eq(&other.author)
            && self.unix_timestamp_millis == other.unix_timestamp_millis
    }
}

impl vstd::std_specs::cmp::PartialEqSpecImpl for Message {
    open spec fn obeys_eq_spec() -> bool {
        true
    }

    open spec fn eq_spec(&self, other: &Self) -> bool {
        self.congruent(other)
    }
}

/// The body of a message: either raw text, or a formatted body that also
/// remembers the raw text it came from.
#[derive(Debug)]
pub enum MessageDetail {
    Raw(String),
    Formatted(FormattedMessageDetail),
}

impl MessageDetail {
    /// The raw text of the body.
    pub open spec fn spec_raw(self) -> Seq<char> {
        match self {
            MessageDetail::Raw(raw) => raw@,
            MessageDetail::Formatted(formatted) => formatted.raw@,
        }
    }

    pub fn raw(&self) -> (r: &str)
        ensures
            r@ == self.spec_raw(),
    {
        match self {
            MessageDetail::Raw(raw) => raw.as_str(),
            MessageDetail::Formatted(formatted) => formatted.raw(),
        }
    }

    pub fn has_formatting(&self) -> (r: bool)
        ensures
            r == (self is Formatted),
    {
        matches!(self, MessageDetail::Formatted(_))
    }

    /// Two bodies with the same content.
    pub open spec fn congruent(self, other: &MessageDetail) -> bool {
        match (self, *other) {
            (MessageDetail::Raw(a), MessageDetail::Raw(b)) => a@ == b@,
            (MessageDetail::Formatted(a), MessageDetail::Formatted(b)) => {
                a.raw@ == b.raw@ && a.components.deep_view() == b.components.deep_view()
            },
            _ => false,
        }
    }
}

impl Clone for MessageDetail {
    fn clone(&self) -> (r: Self)
        ensures
            r.congruent(self),
    {
        match self {
            MessageDetail::Raw(raw) => MessageDetail::Raw(raw.clone()),
            MessageDetail::Formatted(formatted) => MessageDetail::Formatted(formatted.clone()),
        }
    }
}

impl PartialEq for MessageDetail {
    fn eq(&self, other: &Self) -> (r: bool) {
        match (self, other) {
            (MessageDetail::Raw(a), MessageDetail::Raw(b)) => a.eq(b),
            (MessageDetail::Formatted(a), MessageDetail::Formatted(b)) => a.eq(b),
            _ => false,
        }
    }
}

impl vstd::std_specs::cmp::PartialEqSpecImpl for MessageDetail {
    open spec fn obeys_eq_spec() -> bool {
        true
    }

    open spec fn eq_spec(&self, other: &Self) -> bool {
        self.congruent(other)
    }
}

impl Default for MessageDetail {
    fn default() -> (r: Self)
        ensures
            r is Raw && r.spec_raw() == Seq::<char>::empty(),
    {
        MessageDetail::Raw(String::new())
    }
}

/// The severity of a message, ordered by an explicit priority so that new
/// levels can be inserted without disturbing existing comparisons.
#[derive(Debug, Clone, Copy, PartialEq, Eq, Structural)]
pub enum Level {
    /// Everything is working as intended.
    Info,
    /// Something unexpected that may need a look.
    Warn,
    /// A failure occurred.
    Error,
    /// A failure inside the notification machinery itself.
    SelfError,
}

impl Level {
    /// The priority that defines the ordering of levels.
    pub open spec fn spec_priority(self) -> int {
        match self {
            Level::Info => 1,
            Level::Warn => 3,
            Level::Error => 4,
            Level::SelfError => 5,
        }
    }

    pub(crate) fn get_priority(&self) -> (p: u32)
        ensures
            p == self.spec_priority(),
    {
        match self {
            Level::Info => 1,
            Level::Warn => 3,
            Level::Error => 4,
            Level::SelfError => 5,
        }
    }

    /// The least severe level.
    pub fn min() -> (l: Level)
        ensures
            l == Level::Info,
    {
        Level::Info
    }

    /// The most severe level.
    pub fn max() -> (l: Level)
        ensures
            l == Level::SelfError,
    {
        Level::SelfError
    }

    /// The level's name, as diagnostics write it.
    pub fn name(&self) -> (r: &'static str)
        ensures
            r@ == level_name(*self),
    {
        match self {
            Level::Info => "Info",
            Level::Warn => "Warn",
            Level::Error => "Error",
            Level::SelfError => "SelfError",
        }
    }
}

/// The name of a level, as diagnostics write it.
pub open spec fn level_name(l: Level) -> Seq<char> {
    match l {
        Level::Info => "Info"@,
        Level::Warn => "Warn"@,
        Level::Error => "Error"@,
        Level::SelfError => "SelfError"@,
    }
}

/// `a <= b` for levels, as the comparison operators decide it: by priority,
/// not by declaration order.
pub open spec fn level_le(a: Level, b: Level) -> bool {
    a.spec_priority() <= b.spec_priority()
}

impl PartialOrd for Level {
    fn partial_cmp(&self, other: &Self) -> (r: Option<Ordering>) {
        let a = self.get_priority();
        let b = other.get_priority();
        if a < b {
            Some(Ordering::Less)
        } else if a == b {
            Some(Ordering::Equal)
        } else {
            Some(Ordering::Greater)
        }
    }
}

impl vstd::std_specs::cmp::PartialOrdSpecImpl for Level {
    open spec fn obeys_partial_cmp_spec() -> bool {
        true
    }

    open spec fn partial_cmp_spec(&self, other: &Self) -> Option<Ordering> {
        if self.spec_priority() < other.spec_priority() {
            Some(Ordering::Less)
        } else if self.spec_priority() == other.spec_priority() {
            Some(Ordering::Equal)
        } else {
            Some(Ordering::Greater)
        }
    }
}

/// Level ordering is consistent with priority: comparisons between levels are
/// decided exactly by `spec_priority`, and the four levels are strictly
/// ordered `Info < Warn < Error < SelfError`, with `Info` and `SelfError` the
/// two sentinels.
pub proof fn lemma_level_order_consistent_with_priority()
    ensures
        forall|a: Level, b: Level| #[trigger]
            a.partial_cmp_spec(&b) == Some(Ordering::Less) <==> a.spec_priority()
                < b.spec_priority(),
        forall|a: Level, b: Level| #[trigger]
            a.partial_cmp_spec(&b) == Some(Ordering::Equal) <==> a == b,
        Level::Info.spec_priority() < Level::Warn.spec_priority()
            < Level::Error.spec_priority() < Level::SelfError.spec_priority(),
        forall|l: Level| level_le(Level::Info, l) && level_le(l, Level::SelfError),
{
    assert(forall|a: Level, b: Level|
        a.spec_priority() == b.spec_priority() ==> a == b) by {
        assert forall|a: Level, b: Level|
            a.spec_priority() == b.spec_priority() implies a == b by {
            match (a, b) {
                _ => {},
            }
        }
    }
}

} // verus!
