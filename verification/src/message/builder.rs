use vstd::prelude::*;
use crate::message::author::Author;
use crate::message::component::{split_segments, Component};
use crate::message::detail_builder::MessageDetailBuilder;
use crate::message::formatted_detail::{FormattedMessageComponent, FormattedMessageDetail};
use crate::message::{Level, Message, MessageDetail};

verus! {

/// Builds a [`Message`] step by step.  Everything has a default: level
/// `Info`, no title, an empty body, no component, the machine's hostname as
/// author, and the current time as timestamp.
pub struct MessageBuilder {
    pub level: Level,
    pub title: Option<String>,
    pub detail: MessageDetail,
    pub component: Option<Component>,
    pub author: Author,
    pub unix_timestamp_millis: Option<i64>,
}

impl MessageBuilder {
    /// A builder with every field at its default.
    pub fn new() -> (r: Self)
        ensures
            r.level == Level::Info,
            r.title is None,
            r.detail is Raw && r.detail.spec_raw() == Seq::<char>::empty(),
            r.component is None,
            r.author.parts.deep_view().len() == 1,
            r.unix_timestamp_millis is None,
    {
        let author = Author::base();
        MessageBuilder {
            level: Level::Info,
            title: None,
            detail: MessageDetail::Raw(String::new()),
            component: None,
            author,
            unix_timestamp_millis: None,
        }
    }

    /// Replaces the body with one assembled by `apply`.
    pub fn body<F: FnOnce(&mut MessageDetailBuilder)>(&mut self, apply: F) -> (r: &mut Self)
        requires
            forall|arg: &mut MessageDetailBuilder| call_requires(apply, (arg,)),
        ensures
            exists|arg: &mut MessageDetailBuilder|
                {
                    &&& #[trigger] call_ensures(apply, (arg,), ())
                    &&& mut_ref_current(arg).contents@ == Seq::<FormattedMessageComponent>::empty()
                    &&& mut_ref_current(arg).raw@ == "Raw not available"@
                    &&& r.detail == MessageDetail::Formatted(
                        FormattedMessageDetail {
                            raw: mut_ref_future(arg).raw,
                            components: mut_ref_future(arg).contents,
                        },
                    )
                },
            r.level == old(self).level,
            r.title == old(self).title,
            r.component == old(self).component,
            r.author == old(self).author,
            r.unix_timestamp_millis == old(self).unix_timestamp_millis,
            *final (self) == *final (r),
    {
        let mut builder = MessageDetailBuilder::new();
        apply(&mut builder);
        self.detail = builder.build();
        self
    }

    /// Sets the severity.
    pub fn level(&mut self, level: Level) -> (r: &mut Self)
        ensures
            r.level == level,
            r.title == old(self).title,
            r.detail == old(self).detail,
            r.component == old(self).component,
            r.author == old(self).author,
            r.unix_timestamp_millis == old(self).unix_timestamp_millis,
            *final (self) == *final (r),
    {
        self.level = level;
        self
    }

    /// Sets the title.
    pub fn title(&mut self, title: &str) -> (r: &mut Self)
        ensures
            r.title matches Some(t) && t@ == title@,
            r.level == old(self).level,
            r.detail == old(self).detail,
            r.component == old(self).component,
            r.author == old(self).author,
            r.unix_timestamp_millis == old(self).unix_timestamp_millis,
            *final (self) == *final (r),
    {
        self.title = Some(title.to_owned());
        self
    }

    /// Sets the component.
    pub fn component(&mut self, component: Component) -> (r: &mut Self)
        ensures
            r.component == Some(component),
            r.level == old(self).level,
            r.title == old(self).title,
            r.detail == old(self).detail,
            r.author == old(self).author,
            r.unix_timestamp_millis == old(self).unix_timestamp_millis,
            *final (self) == *final (r),
    {
        self.component = Some(component);
        self
    }

    /// Appends author detail after the hostname, split on `/`.
    pub fn author(&mut self, parts: &str) -> (r: &mut Self)
        ensures
            r.author.parts.deep_view() == old(self).author.parts.deep_view() + split_segments(
                parts@,
            ),
            r.level == old(self).level,
            r.title == old(self).title,
            r.detail == old(self).detail,
            r.component == old(self).component,
            r.unix_timestamp_millis == old(self).unix_timestamp_millis,
            *final (self) == *final (r),
    {
        self.author.extend(parts.to_owned());
        self
    }

    /// Sets the timestamp; without this, building stamps the current time.
    pub fn timestamp(&mut self, unix_timestamp_millis: i64) -> (r: &mut Self)
        ensures
            r.unix_timestamp_millis == Some(unix_timestamp_millis),
            r.level == old(self).level,
            r.title == old(self).title,
            r.detail == old(self).detail,
            r.component == old(self).component,
            r.author == old(self).author,
            *final (self) == *final (r),
    {
        self.unix_timestamp_millis = Some(unix_timestamp_millis);
        self
    }

    /// Builds the message, consuming the builder.  A timestamp that was set
    /// is used; otherwise the current time is stamped.
    pub fn build(self) -> (m: Message)
        ensures
            m.level == self.level,
            m.title == self.title,
            m.message_detail == self.detail,
            m.component == self.component,
            m.author == self.author,
            self.unix_timestamp_millis matches Some(t) ==> m.unix_timestamp_millis == t,
    {
        let unix_timestamp_millis = match self.unix_timestamp_millis {
            Some(t) => t,
            None => get_unix_time_millis(),
        };
        Message {
            level: self.level,
            title: self.title,
            message_detail: self.detail,
            component: self.component,
            author: self.author,
            unix_timestamp_millis,
        }
    }

    /// Builds a message without consuming the builder; the message's content
    /// equals the builder's, field for field.
    pub fn build_clone(&self) -> (m: Message)
        ensures
            m.level == self.level,
            match (m.title, self.title) {
                (Some(a), Some(b)) => a@ == b@,
                (None, None) => true,
                _ => false,
            },
            m.message_detail.congruent(&self.detail),
            match (m.component, self.component) {
                (Some(a), Some(b)) => a.segments() == b.segments(),
                (None, None) => true,
                _ => false,
            },
            m.author.parts.deep_view() == self.author.parts.deep_view(),
            self.unix_timestamp_millis matches Some(t) ==> m.unix_timestamp_millis == t,
    {
        let unix_timestamp_millis = match self.unix_timestamp_millis {
            Some(t) => t,
            None => get_unix_time_millis(),
        };
        Message {
            level: self.level,
            title: match &self.title {
                Some(t) => Some(t.clone()),
                None => None,
            },
            message_detail: self.detail.clone(),
            component: match &self.component {
                Some(c) => Some(c.clone()),
                None => None,
            },
            author: self.author.clone(),
            unix_timestamp_millis,
        }
    }
}

/// Relies on std::time::SystemTime::now for the current unix time in
/// milliseconds.  The result depends on the clock; nothing is promised of
/// it, and a clock reading before the epoch stamps zero rather than
/// aborting.
#[verifier::external_body]
fn get_unix_time_millis() -> i64 {
    std::time::SystemTime::now()
        .duration_since(std::time::UNIX_EPOCH)
        .map(|d| d.as_millis() as i64)
        .unwrap_or(0)
}

} // verus!
