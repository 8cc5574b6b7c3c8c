use vstd::prelude::*;
use vstd::string::{StrSliceExecFns, StringExecFns};

verus! {

/// A message body that keeps both the raw text it was made from and a
/// structured, styled form of it.
#[derive(Debug)]
pub struct FormattedMessageDetail {
    pub raw: String,
    pub components: Vec<FormattedMessageComponent>,
}

impl FormattedMessageDetail {
    pub fn new(raw: String, components: Vec<FormattedMessageComponent>) -> (r: Self)
        ensures
            r.raw == raw,
            r.components == components,
    {
        FormattedMessageDetail { raw, components }
    }

    pub fn raw(&self) -> (r: &str)
        ensures
            r@ == self.raw@,
    {
        self.raw.as_str()
    }

    pub fn components(&self) -> (r: &Vec<FormattedMessageComponent>)
        ensures
            r == &self.components,
    {
        &self.components
    }
}

impl Clone for FormattedMessageDetail {
    fn clone(&self) -> (r: Self)
        ensures
            r.raw@ == self.raw@,
            r.components.deep_view() == self.components.deep_view(),
    {
        FormattedMessageDetail { raw: self.raw.clone(), components: clone_components(&self.components) }
    }
}

impl PartialEq for FormattedMessageDetail {
    fn eq(&self, other: &Self) -> (r: bool) {
        self.raw.eq(&other.raw) && components_eq(&self.components, &other.components)
    }
}

impl vstd::std_specs::cmp::PartialEqSpecImpl for FormattedMessageDetail {
    open spec fn obeys_eq_spec() -> bool {
        true
    }

    open spec fn eq_spec(&self, other: &Self) -> bool {
        self.raw@ == other.raw@ && self.components.deep_view() == other.components.deep_view()
    }
}

/// One block of a formatted body: either a titled section or plain text.
#[derive(Debug)]
pub enum FormattedMessageComponent {
    Section(String, Vec<FormattedString>),
    Text(Vec<FormattedString>),
}

/// The mathematical shape of a [`FormattedMessageComponent`].
pub enum ComponentView {
    Section(Seq<char>, Seq<FormattedStringView>),
    Text(Seq<FormattedStringView>),
}

impl DeepView for FormattedMessageComponent {
    type V = ComponentView;

    open spec fn deep_view(&self) -> ComponentView {
        match self {
            FormattedMessageComponent::Section(name, parts) => ComponentView::Section(
                name@,
                parts.deep_view(),
            ),
            FormattedMessageComponent::Text(parts) => ComponentView::Text(parts.deep_view()),
        }
    }
}

impl Clone for FormattedMessageComponent {
    fn clone(&self) -> (r: Self)
        ensures
            r.deep_view() == self.deep_view(),
    {
        match self {
            FormattedMessageComponent::Section(name, parts) => FormattedMessageComponent::Section(
                name.clone(),
                clone_strings(parts),
            ),
            FormattedMessageComponent::Text(parts) => FormattedMessageComponent::Text(
                clone_strings(parts),
            ),
        }
    }
}

impl PartialEq for FormattedMessageComponent {
    fn eq(&self, other: &Self) -> (r: bool) {
        match (self, other) {
            (
                FormattedMessageComponent::Section(n1, p1),
                FormattedMessageComponent::Section(n2, p2),
            ) => n1.eq(n2) && strings_eq(p1, p2),
            (FormattedMessageComponent::Text(p1), FormattedMessageComponent::Text(p2)) => {
                strings_eq(p1, p2)
            },
            _ => false,
        }
    }
}

impl vstd::std_specs::cmp::PartialEqSpecImpl for FormattedMessageComponent {
    open spec fn obeys_eq_spec() -> bool {
        true
    }

    open spec fn eq_spec(&self, other: &Self) -> bool {
        self.deep_view() == other.deep_view()
    }
}

/// A run of text together with the styles applied to it.
#[derive(Debug)]
pub struct FormattedString {
    pub styles: Vec<Style>,
    pub s: String,
}

/// The mathematical shape of a [`FormattedString`].
pub struct FormattedStringView {
    pub styles: Seq<Style>,
    pub s: Seq<char>,
}

impl DeepView for FormattedString {
    type V = FormattedStringView;

    open spec fn deep_view(&self) -> FormattedStringView {
        FormattedStringView { styles: self.styles@, s: self.s@ }
    }
}

impl FormattedString {
    pub fn new(s: String, styles: Vec<Style>) -> (r: Self)
        ensures
            r.s == s,
            r.styles == styles,
    {
        FormattedString { s, styles }
    }

    /// A run of text with no styling.
    pub fn plain(s: String) -> (r: Self)
        ensures
            r.s == s,
            r.styles@ == Seq::<Style>::empty(),
    {
        FormattedString { s, styles: Vec::new() }
    }

    /// A run of text with a single style.
    pub fn styled(s: &str, style: Style) -> (r: Self)
        ensures
            r.s@ == s@,
            r.styles@ == seq![style],
    {
        let mut styles: Vec<Style> = Vec::new();
        styles.push(style);
        proof {
            assert(styles@ =~= seq![style]);
        }
        FormattedString { s: s.to_owned(), styles }
    }

    pub fn get_styles(&self) -> (r: &Vec<Style>)
        ensures
            r == &self.styles,
    {
        &self.styles
    }

    pub fn get_string(&self) -> (r: &str)
        ensures
            r@ == self.s@,
    {
        self.s.as_str()
    }
}

impl Clone for FormattedString {
    fn clone(&self) -> (r: Self)
        ensures
            r.deep_view() == self.deep_view(),
    {
        let mut styles: Vec<Style> = Vec::new();
        let mut i: usize = 0;
        while i < self.styles.len()
            invariant
                i <= self.styles.len(),
                styles@ == self.styles@.take(i as int),
            decreases self.styles.len() - i,
        {
            styles.push(self.styles[i]);
            i += 1;
            proof {
                assert(styles@ =~= self.styles@.take(i as int));
            }
        }
        proof {
            assert(styles@ =~= self.styles@);
        }
        FormattedString { styles, s: self.s.clone() }
    }
}

impl PartialEq for FormattedString {
    fn eq(&self, other: &Self) -> (r: bool) {
        self.s.eq(&other.s) && styles_eq(&self.styles, &other.styles)
    }
}

impl vstd::std_specs::cmp::PartialEqSpecImpl for FormattedString {
    open spec fn obeys_eq_spec() -> bool {
        true
    }

    open spec fn eq_spec(&self, other: &Self) -> bool {
        self.s@ == other.s@ && self.styles@ == other.styles@
    }
}

/// A style applied to a run of text.
#[derive(Debug, Clone, Copy, PartialEq, Eq, Structural)]
pub enum Style {
    Bold,
    Italics,
    Monospace,
}

fn clone_strings(parts: &Vec<FormattedString>) -> (r: Vec<FormattedString>)
    ensures
        r.deep_view() == parts.deep_view(),
{
    let mut out: Vec<FormattedString> = Vec::new();
    let mut i: usize = 0;
    while i < parts.len()
        invariant
            i <= parts.len(),
            out@.len() == i,
            out.deep_view() == parts.deep_view().take(i as int),
        decreases parts.len() - i,
    {
        let ghost prev = out@;
        let c = parts[i].clone();
        assert(c.deep_view() == parts.deep_view()[i as int]);
        out.push(c);
        i += 1;
        proof {
            assert forall|k: int| 0 <= k < i implies out.deep_view()[k] == parts.deep_view().take(
                i as int,
            )[k] by {
                assert(out.deep_view()[k] == out@[k].deep_view());
                if k < i - 1 {
                    assert(out@[k] == prev[k]);
                    assert(prev[k].deep_view() == parts.deep_view().take(i - 1)[k]);
                }
            }
            assert(out.deep_view() =~= parts.deep_view().take(i as int));
        }
    }
    proof {
        assert(out.deep_view() =~= parts.deep_view());
    }
    out
}

fn clone_components(parts: &Vec<FormattedMessageComponent>) -> (r: Vec<FormattedMessageComponent>)
    ensures
        r.deep_view() == parts.deep_view(),
{
    let mut out: Vec<FormattedMessageComponent> = Vec::new();
    let mut i: usize = 0;
    while i < parts.len()
        invariant
            i <= parts.len(),
            out@.len() == i,
            out.deep_view() == parts.deep_view().take(i as int),
        decreases parts.len() - i,
    {
        let ghost prev = out@;
        let c = parts[i].clone();
        assert(c.deep_view() == parts.deep_view()[i as int]);
        out.push(c);
        i += 1;
        proof {
            assert(out@.len() == i);
            assert forall|k: int| 0 <= k < i implies out.deep_view()[k] == parts.deep_view().take(
                i as int,
            )[k] by {
                assert(out.deep_view()[k] == out@[k].deep_view());
                if k < i - 1 {
                    assert(out@[k] == prev[k]);
                    assert(prev[k].deep_view() == parts.deep_view().take(i - 1)[k]);
                }
            }
            assert(out.deep_view() =~= parts.deep_view().take(i as int));
        }
    }
    proof {
        assert(out.deep_view() =~= parts.deep_view());
    }
    out
}

fn styles_eq(a: &Vec<Style>, b: &Vec<Style>) -> (r: bool)
    ensures
        r == (a@ == b@),
{
    if a.len() != b.len() {
        proof {
            assert(a@ != b@);
        }
        return false;
    }
    let mut i: usize = 0;
    while i < a.len()
        invariant
            i <= a.len(),
            a.len() == b.len(),
            forall|j: int| 0 <= j < i ==> a@[j] == b@[j],
        decreases a.len() - i,
    {
        if a[i] != b[i] {
            proof {
                assert(a@[i as int] != b@[i as int]);
            }
            return false;
        }
        i += 1;
    }
    proof {
        assert(a@ =~= b@);
    }
    true
}

fn strings_eq(a: &Vec<FormattedString>, b: &Vec<FormattedString>) -> (r: bool)
    ensures
        r == (a.deep_view() == b.deep_view()),
{
    if a.len() != b.len() {
        proof {
            assert(a.deep_view().len() != b.deep_view().len());
        }
        return false;
    }
    let mut i: usize = 0;
    while i < a.len()
        invariant
            i <= a.len(),
            a.len() == b.len(),
            a.deep_view().len() == b.deep_view().len(),
            forall|j: int| 0 <= j < i ==> a.deep_view()[j] == b.deep_view()[j],
        decreases a.len() - i,
    {
        if !a[i].eq(&b[i]) {
            proof {
                assert(a.deep_view()[i as int] != b.deep_view()[i as int]);
            }
            return false;
        }
        i += 1;
    }
    proof {
        assert(a.deep_view() =~= b.deep_view());
    }
    true
}

fn components_eq(a: &Vec<FormattedMessageComponent>, b: &Vec<FormattedMessageComponent>) -> (r:
    bool)
    ensures
        r == (a.deep_view() == b.deep_view()),
{
    if a.len() != b.len() {
        proof {
            assert(a.deep_view().len() != b.deep_view().len());
        }
        return false;
    }
    let mut i: usize = 0;
    while i < a.len()
        invariant
            i <= a.len(),
            a.len() == b.len(),
            a.deep_view().len() == b.deep_view().len(),
            forall|j: int| 0 <= j < i ==> a.deep_view()[j] == b.deep_view()[j],
        decreases a.len() - i,
    {
        if !a[i].eq(&b[i]) {
            proof {
                assert(a.deep_view()[i as int] != b.deep_view()[i as int]);
            }
            return false;
        }
        i += 1;
    }
    proof {
        assert(a.deep_view() =~= b.deep_view());
    }
    true
}

} // verus!

use vstd::prelude::*;

verus! {

/// A line with one carriage return stripped from its end, the way line
/// splitting treats `\r\n` endings.
pub open spec fn strip_cr(line: Seq<char>) -> Seq<char> {
    if line.len() > 0 && line.last() == '\r' {
        line.drop_last()
    } else {
        line
    }
}

/// The lines finished while walking `s` from the left, and the text gathered
/// since the last newline.
pub open spec fn lines_state(s: Seq<char>) -> (Seq<Seq<char>>, Seq<char>)
    decreases s.len(),
{
    if s.len() == 0 {
        (Seq::empty(), Seq::empty())
    } else {
        let (done, cur) = lines_state(s.drop_last());
        if s.last() == '\n' {
            (done.push(strip_cr(cur)), Seq::empty())
        } else {
            (done, cur.push(s.last()))
        }
    }
}

/// The lines of `s`: split at newlines, with `\r\n` treated as one ending,
/// and no empty final line when `s` ends with a newline.
pub open spec fn spec_lines(s: Seq<char>) -> Seq<Seq<char>> {
    let (done, cur) = lines_state(s);
    if cur.len() > 0 {
        done.push(cur)
    } else {
        done
    }
}

/// A line of the shape `#<title>#`, opening a new section.
pub open spec fn is_section_header(line: Seq<char>) -> bool {
    line.len() > 4 && line[0] == '#' && line[1] == '<' && line[line.len() - 2] == '>'
        && line[line.len() - 1] == '#'
}

/// The title inside a section header line.
pub open spec fn header_title(line: Seq<char>) -> Seq<char> {
    line.subrange(2, line.len() - 2)
}

/// The pending section closed into a block: a titled section, plain text
/// where no title is open, and nothing at all where both are empty.
pub open spec fn close_section(
    comps: Seq<ComponentView>,
    title: Option<Seq<char>>,
    text: Seq<FormattedStringView>,
) -> Seq<ComponentView> {
    if title is Some || text.len() > 0 {
        comps.push(
            match title {
                Some(t) => ComponentView::Section(t, text),
                None => ComponentView::Text(text),
            },
        )
    } else {
        comps
    }
}

/// The parser's state after the given lines: the finished blocks, the open
/// section title, and the open section's text runs.  Each ordinary line
/// contributes one unstyled run ending in a newline; each header line closes
/// the open section and opens a new one.
pub open spec fn parse_lines(lines: Seq<Seq<char>>) -> (
    Seq<ComponentView>,
    Option<Seq<char>>,
    Seq<FormattedStringView>,
)
    decreases lines.len(),
{
    if lines.len() == 0 {
        (Seq::empty(), None, Seq::empty())
    } else {
        let (comps, title, text) = parse_lines(lines.drop_last());
        let line = lines.last();
        if is_section_header(line) {
            (close_section(comps, title, text), Some(header_title(line)), Seq::empty())
        } else {
            (
                comps,
                title,
                text.push(FormattedStringView { styles: Seq::empty(), s: line.push('\n') }),
            )
        }
    }
}

/// The blocks that parsing `s` yields.
pub open spec fn parse_raw_spec(s: Seq<char>) -> Seq<ComponentView> {
    let (comps, title, text) = parse_lines(spec_lines(s));
    close_section(comps, title, text)
}

/// Splits `s` into its lines.
pub(crate) fn split_lines(s: &str) -> (lines: Vec<String>)
    ensures
        lines.deep_view() == spec_lines(s@),
{
    let n = s.unicode_len();
    let mut lines: Vec<String> = Vec::new();
    let mut start: usize = 0;
    let mut i: usize = 0;
    while i < n
        invariant
            start <= i <= n,
            n == s@.len(),
            lines_state(s@.take(i as int)).0 == lines.deep_view(),
            lines_state(s@.take(i as int)).1 == s@.subrange(start as int, i as int),
        decreases n - i,
    {
        let ch = s.get_char(i);
        proof {
            assert(s@.take(i + 1).drop_last() =~= s@.take(i as int));
            assert(s@.take(i + 1).last() == s@[i as int]);
        }
        if ch == '\n' {
            let end = if i > start && s.get_char(i - 1) == '\r' {
                i - 1
            } else {
                i
            };
            let line = s.substring_char(start, end);
            proof {
                assert(strip_cr(s@.subrange(start as int, i as int)) =~= s@.subrange(
                    start as int,
                    end as int,
                ));
            }
            lines.push(line.to_owned());
            proof {
                assert(lines.deep_view() =~= lines_state(s@.take(i + 1)).0);
            }
            start = i + 1;
            proof {
                assert(s@.subrange(start as int, i + 1) =~= Seq::<char>::empty());
            }
        } else {
            proof {
                assert(s@.subrange(start as int, i + 1) =~= s@.subrange(
                    start as int,
                    i as int,
                ).push(s@[i as int]));
            }
        }
        i += 1;
    }
    proof {
        assert(s@.take(n as int) =~= s@);
    }
    if i > start {
        let line = s.substring_char(start, i);
        lines.push(line.to_owned());
        proof {
            assert(lines.deep_view() =~= spec_lines(s@));
        }
    }
    lines
}

fn close_section_exec(
    comps: &mut Vec<FormattedMessageComponent>,
    title: Option<String>,
    text: Vec<FormattedString>,
)
    ensures
        final (comps).deep_view() == close_section(
            old(comps).deep_view(),
            match title {
                Some(t) => Some(t@),
                None => None,
            },
            text.deep_view(),
        ),
{
    let has_title = title.is_some();
    if has_title || text.len() > 0 {
        let component = match title {
            Some(t) => FormattedMessageComponent::Section(t, text),
            None => FormattedMessageComponent::Text(text),
        };
        let ghost cv = component.deep_view();
        comps.push(component);
        proof {
            assert(comps.deep_view() =~= old(comps).deep_view().push(cv));
        }
    }
}

/// Parses raw text into a formatted body: lines of the shape `#<title>#`
/// open a titled section, every other line becomes an unstyled run, ending
/// in a newline, of the open section or of the leading plain block.  The
/// parsed body keeps the whole raw text.
pub fn parse_raw_to_formatted(s: &str) -> (r: FormattedMessageDetail)
    ensures
        r.raw@ == s@,
        r.components.deep_view() == parse_raw_spec(s@),
{
    let lines = split_lines(s);
    let mut components: Vec<FormattedMessageComponent> = Vec::new();
    let mut section_title: Option<String> = None;
    let mut section_text: Vec<FormattedString> = Vec::new();

    let mut k: usize = 0;
    while k < lines.len()
        invariant
            k <= lines@.len(),
            lines.deep_view() == spec_lines(s@),
            parse_lines(lines.deep_view().take(k as int)) == (
                components.deep_view(),
                match section_title {
                    Some(ref t) => Some(t@),
                    None => None,
                },
                section_text.deep_view(),
            ),
        decreases lines@.len() - k,
    {
        proof {
            assert(lines.deep_view().take(k + 1).drop_last() =~= lines.deep_view().take(k as int));
            assert(lines.deep_view().take(k + 1).last() == lines.deep_view()[k as int]);
        }
        let line = &lines[k];
        let line_len = line.as_str().unicode_len();
        let is_header = line_len > 4 && line.as_str().get_char(0) == '#' && line.as_str().get_char(
            1,
        ) == '<' && line.as_str().get_char(line_len - 2) == '>' && line.as_str().get_char(
            line_len - 1,
        ) == '#';
        if is_header {
            let old_title = section_title;
            section_title = None;
            let old_text = section_text;
            section_text = Vec::new();
            close_section_exec(&mut components, old_title, old_text);
            section_title = Some(line.as_str().substring_char(2, line_len - 2).to_owned());
            proof {
                assert(section_text.deep_view() =~= Seq::<FormattedStringView>::empty());
            }
        } else {
            let mut run = line.clone();
            run.append("\n");
            proof {
                reveal_strlit("\n");
                assert(run@ =~= lines.deep_view()[k as int].push('\n'));
            }
            section_text.push(FormattedString::new(run, Vec::new()));
            proof {
                assert(section_text.deep_view() =~= parse_lines(
                    lines.deep_view().take(k + 1),
                ).2);
            }
        }
        k += 1;
    }
    proof {
        assert(lines.deep_view().take(lines.deep_view().len() as int) =~= lines.deep_view());
    }
    let final_title = section_title;
    let final_text = section_text;
    close_section_exec(&mut components, final_title, final_text);
    FormattedMessageDetail::new(s.to_owned(), components)
}

} // verus!
