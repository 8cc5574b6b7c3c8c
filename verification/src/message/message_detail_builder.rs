use vstd::prelude::*;
use vstd::string::StringExecFns;
use crate::message::formatted_detail::{
    FormattedMessageComponent, FormattedMessageDetail, FormattedString, Style,
};
use crate::message::MessageDetail;

verus! {

/// Builds a formatted message body block by block, passing the builder along
/// by value.
pub struct MessageDetailBuilder {
    pub contents: Vec<FormattedMessageComponent>,
    pub raw: String,
}

impl MessageDetailBuilder {
    /// A builder with a placeholder raw text.
    pub fn new() -> (r: Self)
        ensures
            r.contents@ == Seq::<FormattedMessageComponent>::empty(),
            r.raw@ == "Raw not available"@,
    {
        Self::with_raw(("Raw not available").to_owned())
    }

    pub fn with_raw(raw: String) -> (r: Self)
        ensures
            r.contents@ == Seq::<FormattedMessageComponent>::empty(),
            r.raw == raw,
    {
        MessageDetailBuilder { contents: Vec::new(), raw }
    }

    /// Appends a titled section, filled in by `apply`.
    pub fn section<F: FnOnce(&mut SectionBuilder)>(self, name: &str, apply: F) -> (r: Self)
        requires
            forall|arg: &mut SectionBuilder| call_requires(apply, (arg,)),
        ensures
            exists|arg: &mut SectionBuilder|
                {
                    &&& #[trigger] call_ensures(apply, (arg,), ())
                    &&& mut_ref_current(arg).name@ == name@
                    &&& mut_ref_current(arg).contents@ == Seq::<FormattedString>::empty()
                    &&& r.contents@ == self.contents@.push(
                        FormattedMessageComponent::Section(
                            mut_ref_future(arg).name,
                            mut_ref_future(arg).contents,
                        ),
                    )
                },
            r.raw == self.raw,
    {
        let mut this = self;
        let mut section = SectionBuilder { name: name.to_owned(), contents: Vec::new() };
        apply(&mut section);
        this.contents.push(section.build());
        this
    }

    /// Appends a plain text block holding the given runs.
    pub fn text(self, parts: Vec<FormattedString>) -> (r: Self)
        ensures
            r.contents@ == self.contents@.push(FormattedMessageComponent::Text(parts)),
            r.raw == self.raw,
    {
        let mut this = self;
        this.contents.push(FormattedMessageComponent::Text(parts));
        this
    }

    /// Finishes the body.
    pub fn build(self) -> (r: MessageDetail)
        ensures
            r matches MessageDetail::Formatted(f) && f.raw == self.raw && f.components
                == self.contents,
    {
        MessageDetail::Formatted(FormattedMessageDetail::new(self.raw, self.contents))
    }
}

/// Builds one titled section.
pub struct SectionBuilder {
    pub name: String,
    pub contents: Vec<FormattedString>,
}

impl SectionBuilder {
    pub fn append(&mut self, s: FormattedString) -> (r: &mut Self)
        ensures
            r.name == old(self).name,
            r.contents@ == old(self).contents@.push(s),
            *final (self) == *final (r),
    {
        self.contents.push(s);
        self
    }

    pub fn append_styled(&mut self, s: &str, style: Style) -> (r: &mut Self)
        ensures
            r.name == old(self).name,
            r.contents@.len() == old(self).contents@.len() + 1,
            r.contents@ == old(self).contents@.push(r.contents@.last()),
            r.contents@.last().deep_view().s == s@,
            r.contents@.last().deep_view().styles == seq![style],
            *final (self) == *final (r),
    {
        self.contents.push(FormattedString::styled(s, style));
        self
    }

    pub fn append_plain(&mut self, s: &str) -> (r: &mut Self)
        ensures
            r.name == old(self).name,
            r.contents@.len() == old(self).contents@.len() + 1,
            r.contents@ == old(self).contents@.push(r.contents@.last()),
            r.contents@.last().deep_view().s == s@,
            r.contents@.last().deep_view().styles == Seq::<Style>::empty(),
            *final (self) == *final (r),
    {
        self.contents.push(FormattedString::plain(s.to_owned()));
        self
    }

    pub fn build(self) -> (r: FormattedMessageComponent)
        ensures
            r == FormattedMessageComponent::Section(self.name, self.contents),
    {
        FormattedMessageComponent::Section(self.name, self.contents)
    }
}

} // verus!
