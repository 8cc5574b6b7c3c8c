use vstd::prelude::*;
use vstd::string::StringExecFns;
use crate::message::formatted_detail::{
    FormattedMessageComponent, FormattedMessageDetail, FormattedString, Style,
};
use crate::message::MessageDetail;

verus! {

/// Something styled runs of text can be appended to.
pub trait FormattedStringAppendable: Sized {
    /// The runs gathered so far.
    spec fn spec_contents(&self) -> Seq<FormattedString>;

    fn append(&mut self, s: FormattedString) -> (r: &mut Self)
        ensures
            r.spec_contents() == old(self).spec_contents().push(s),
            *final (self) == *final (r),
    ;

    fn append_styled(&mut self, s: &str, style: Style) -> (r: &mut Self)
        ensures
            r.spec_contents().len() == old(self).spec_contents().len() + 1,
            r.spec_contents() == old(self).spec_contents().push(r.spec_contents().last()),
            r.spec_contents().last().deep_view().s == s@,
            r.spec_contents().last().deep_view().styles == seq![style],
            *final (self) == *final (r),
    {
        self.append(FormattedString::styled(s, style));
        self
    }

    fn append_plain(&mut self, s: &str) -> (r: &mut Self)
        ensures
            r.spec_contents().len() == old(self).spec_contents().len() + 1,
            r.spec_contents() == old(self).spec_contents().push(r.spec_contents().last()),
            r.spec_contents().last().deep_view().s == s@,
            r.spec_contents().last().deep_view().styles == Seq::<Style>::empty(),
            *final (self) == *final (r),
    {
        self.append(FormattedString::plain(s.to_owned()));
        self
    }
}

/// Builds a formatted message body block by block.
pub struct MessageDetailBuilder {
    pub contents: Vec<FormattedMessageComponent>,
    pub raw: String,
}

impl MessageDetailBuilder {
    /// A builder with a placeholder raw text.
    pub fn new() -> (r: Self)
        ensures
            r.contents@ == Seq::<FormattedMessageComponent>::empty(),
            r.raw@ == "Raw not available"@,
    {
        Self::with_raw(("Raw not available").to_owned())
    }

    pub fn with_raw(raw: String) -> (r: Self)
        ensures
            r.contents@ == Seq::<FormattedMessageComponent>::empty(),
            r.raw == raw,
    {
        MessageDetailBuilder { contents: Vec::new(), raw }
    }

    /// Replaces the raw text.
    pub fn raw(&mut self, raw: String) -> (r: &mut Self)
        ensures
            r.contents == old(self).contents,
            r.raw == raw,
            *final (self) == *final (r),
    {
        self.raw = raw;
        self
    }

    /// Appends a titled section, filled in by `apply`.
    pub fn section<F: FnOnce(&mut SectionBuilder)>(&mut self, name: &str, apply: F) -> (r:
        &mut Self)
        requires
            forall|arg: &mut SectionBuilder| call_requires(apply, (arg,)),
        ensures
            exists|arg: &mut SectionBuilder|
                {
                    &&& #[trigger] call_ensures(apply, (arg,), ())
                    &&& mut_ref_current(arg).name@ == name@
                    &&& mut_ref_current(arg).contents@ == Seq::<FormattedString>::empty()
                    &&& r.contents@ == old(self).contents@.push(
                        FormattedMessageComponent::Section(
                            mut_ref_future(arg).name,
                            mut_ref_future(arg).contents,
                        ),
                    )
                },
            r.raw == old(self).raw,
            *final (self) == *final (r),
    {
        let mut section = SectionBuilder { name: name.to_owned(), contents: Vec::new() };
        apply(&mut section);
        self.contents.push(section.build());
        self
    }

    /// Appends a plain text block, filled in by `apply`.
    pub fn text_block<F: FnOnce(&mut TextBlockBuilder)>(&mut self, apply: F) -> (r: &mut Self)
        requires
            forall|arg: &mut TextBlockBuilder| call_requires(apply, (arg,)),
        ensures
            exists|arg: &mut TextBlockBuilder|
                {
                    &&& #[trigger] call_ensures(apply, (arg,), ())
                    &&& mut_ref_current(arg).contents@ == Seq::<FormattedString>::empty()
                    &&& r.contents@ == old(self).contents@.push(
                        FormattedMessageComponent::Text(mut_ref_future(arg).contents),
                    )
                },
            r.raw == old(self).raw,
            *final (self) == *final (r),
    {
        let mut text_block = TextBlockBuilder::default();
        apply(&mut text_block);
        self.contents.push(text_block.build());
        self
    }

    /// Finishes the body.
    pub fn build(self) -> (r: MessageDetail)
        ensures
            r matches MessageDetail::Formatted(f) && f.raw == self.raw && f.components
                == self.contents,
    {
        MessageDetail::Formatted(FormattedMessageDetail::new(self.raw, self.contents))
    }
}

/// Builds one plain text block.
pub struct TextBlockBuilder {
    pub contents: Vec<FormattedString>,
}

impl Default for TextBlockBuilder {
    fn default() -> (r: Self)
        ensures
            r.contents@ == Seq::<FormattedString>::empty(),
    {
        TextBlockBuilder { contents: Vec::new() }
    }
}

impl TextBlockBuilder {
    pub fn build(self) -> (r: FormattedMessageComponent)
        ensures
            r == FormattedMessageComponent::Text(self.contents),
    {
        FormattedMessageComponent::Text(self.contents)
    }

    pub fn build_vec(self) -> (r: Vec<FormattedString>)
        ensures
            r == self.contents,
    {
        self.contents
    }
}

impl FormattedStringAppendable for TextBlockBuilder {
    open spec fn spec_contents(&self) -> Seq<FormattedString> {
        self.contents@
    }

    fn append(&mut self, s: FormattedString) -> (r: &mut Self)
        ensures
            r.contents@ == old(self).contents@.push(s),
            *final (self) == *final (r),
    {
        self.contents.push(s);
        self
    }
}

/// Builds one titled section.
pub struct SectionBuilder {
    pub name: String,
    pub contents: Vec<FormattedString>,
}

impl SectionBuilder {
    pub fn build(self) -> (r: FormattedMessageComponent)
        ensures
            r == FormattedMessageComponent::Section(self.name, self.contents),
    {
        FormattedMessageComponent::Section(self.name, self.contents)
    }
}

impl FormattedStringAppendable for SectionBuilder {
    open spec fn spec_contents(&self) -> Seq<FormattedString> {
        self.contents@
    }

    fn append(&mut self, s: FormattedString) -> (r: &mut Self)
        ensures
            r.name == old(self).name,
            r.contents@ == old(self).contents@.push(s),
            *final (self) == *final (r),
    {
        self.contents.push(s);
        self
    }
}

} // verus!
