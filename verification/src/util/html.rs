use vstd::prelude::*;
use vstd::string::{StrSliceExecFns, StringExecFns};
use crate::message::formatted_detail::{
    ComponentView, FormattedMessageComponent, FormattedMessageDetail, FormattedString,
    FormattedStringView, Style,
};

verus! {

/// A message body that can write itself as HTML.
pub trait HtmlMessageDetail {
    fn create_html(&self) -> String;
}

impl HtmlMessageDetail for FormattedMessageDetail {
    fn create_html(&self) -> (r: String)
        ensures
            r@ == html_components(self.components.deep_view()),
    {
        formatted_to_html(self)
    }
}

/// How one character reads in HTML text.
pub open spec fn escape_char(c: char) -> Seq<char> {
    if c == '&' {
        "&amp;"@
    } else if c == '>' {
        "&gt;"@
    } else if c == '<' {
        "&lt;"@
    } else {
        seq![c]
    }
}

/// The text with `&`, `>` and `<` written as HTML entities.
pub open spec fn escape_html_spec(s: Seq<char>) -> Seq<char>
    decreases s.len(),
{
    if s.len() == 0 {
        Seq::empty()
    } else {
        escape_html_spec(s.drop_last()) + escape_char(s.last())
    }
}

/// The opening tag for a style.
pub open spec fn start_tag(st: Style) -> Seq<char> {
    match st {
        Style::Bold => "<b>"@,
        Style::Italics => "<i>"@,
        Style::Monospace => "<code>"@,
    }
}

/// The closing tag for a style.
pub open spec fn end_tag(st: Style) -> Seq<char> {
    match st {
        Style::Bold => "</b>"@,
        Style::Italics => "</i>"@,
        Style::Monospace => "</code>"@,
    }
}

/// The opening tags of all the styles, in order.
pub open spec fn start_tags(styles: Seq<Style>) -> Seq<char>
    decreases styles.len(),
{
    if styles.len() == 0 {
        Seq::empty()
    } else {
        start_tags(styles.drop_last()) + start_tag(styles.last())
    }
}

/// The closing tags of all the styles, in order.
pub open spec fn end_tags(styles: Seq<Style>) -> Seq<char>
    decreases styles.len(),
{
    if styles.len() == 0 {
        Seq::empty()
    } else {
        end_tags(styles.drop_last()) + end_tag(styles.last())
    }
}

/// One styled run as HTML: its opening tags, the escaped text, its closing
/// tags.
pub open spec fn html_part(p: FormattedStringView) -> Seq<char> {
    start_tags(p.styles) + escape_html_spec(p.s) + end_tags(p.styles)
}

/// A list of styled runs as HTML, concatenated.
pub open spec fn html_parts(ps: Seq<FormattedStringView>) -> Seq<char>
    decreases ps.len(),
{
    if ps.len() == 0 {
        Seq::empty()
    } else {
        html_parts(ps.drop_last()) + html_part(ps.last())
    }
}

/// One block as HTML: a section becomes a heading and a paragraph, plain
/// text a paragraph.
pub open spec fn html_component(c: ComponentView) -> Seq<char> {
    match c {
        ComponentView::Section(name, ps) => "<div><h2>"@ + escape_html_spec(name) + "</h2><p>"@
            + html_parts(ps) + "</p></div>"@,
        ComponentView::Text(ps) => "<p>"@ + html_parts(ps) + "</p>"@,
    }
}

/// All blocks as HTML, concatenated.
pub open spec fn html_components(cs: Seq<ComponentView>) -> Seq<char>
    decreases cs.len(),
{
    if cs.len() == 0 {
        Seq::empty()
    } else {
        html_components(cs.drop_last()) + html_component(cs.last())
    }
}

/// Writes `&`, `>` and `<` as HTML entities and leaves every other character
/// alone.
pub fn escape_html(s: &str) -> (r: String)
    ensures
        r@ == escape_html_spec(s@),
{
    let n = s.unicode_len();
    let mut r = String::new();
    let mut i: usize = 0;
    while i < n
        invariant
            i <= n,
            n == s@.len(),
            r@ == escape_html_spec(s@.take(i as int)),
        decreases n - i,
    {
        let c = s.get_char(i);
        if c == '&' {
            r.append("&amp;");
        } else if c == '>' {
            r.append("&gt;");
        } else if c == '<' {
            r.append("&lt;");
        } else {
            r.append(s.substring_char(i, i + 1));
            proof {
                assert(s@.subrange(i as int, i + 1) =~= seq![s@[i as int]]);
            }
        }
        i += 1;
        proof {
            assert(s@.take(i as int).drop_last() =~= s@.take(i - 1));
            assert(r@ =~= escape_html_spec(s@.take(i as int)));
        }
    }
    proof {
        assert(s@.take(n as int) =~= s@);
    }
    r
}

fn append_part(r: &mut String, part: &FormattedString)
    ensures
        final (r)@ == old(r)@ + html_part(part.deep_view()),
{
    let ghost head = r@;
    let mut k: usize = 0;
    while k < part.styles.len()
        invariant
            k <= part.styles@.len(),
            r@ == head + start_tags(part.styles@.take(k as int)),
        decreases part.styles@.len() - k,
    {
        match part.styles[k] {
            Style::Bold => r.append("<b>"),
            Style::Italics => r.append("<i>"),
            Style::Monospace => r.append("<code>"),
        }
        k += 1;
        proof {
            assert(part.styles@.take(k as int).drop_last() =~= part.styles@.take(k - 1));
            assert(r@ =~= head + start_tags(part.styles@.take(k as int)));
        }
    }
    proof {
        assert(part.styles@.take(part.styles@.len() as int) =~= part.styles@);
    }
    r.append(escape_html(part.get_string()).as_str());
    let ghost mid = r@;
    let mut k2: usize = 0;
    while k2 < part.styles.len()
        invariant
            k2 <= part.styles@.len(),
            r@ == mid + end_tags(part.styles@.take(k2 as int)),
        decreases part.styles@.len() - k2,
    {
        match part.styles[k2] {
            Style::Bold => r.append("</b>"),
            Style::Italics => r.append("</i>"),
            Style::Monospace => r.append("</code>"),
        }
        k2 += 1;
        proof {
            assert(part.styles@.take(k2 as int).drop_last() =~= part.styles@.take(k2 - 1));
            assert(r@ =~= mid + end_tags(part.styles@.take(k2 as int)));
        }
    }
    proof {
        assert(part.styles@.take(part.styles@.len() as int) =~= part.styles@);
        assert(r@ =~= old(r)@ + html_part(part.deep_view()));
    }
}

/// Writes the styled runs as HTML, one after the other.
pub fn parse_formatted(formatted: &Vec<FormattedString>) -> (r: String)
    ensures
        r@ == html_parts(formatted.deep_view()),
{
    let mut r = String::new();
    let mut i: usize = 0;
    while i < formatted.len()
        invariant
            i <= formatted@.len(),
            r@ == html_parts(formatted.deep_view().take(i as int)),
        decreases formatted@.len() - i,
    {
        append_part(&mut r, &formatted[i]);
        i += 1;
        proof {
            assert(formatted.deep_view().take(i as int).drop_last() =~= formatted.deep_view().take(
                i - 1,
            ));
            assert(formatted.deep_view().take(i as int).last() == formatted.deep_view()[i - 1]);
            assert(r@ =~= html_parts(formatted.deep_view().take(i as int)));
        }
    }
    proof {
        assert(formatted.deep_view().take(formatted.deep_view().len() as int)
            =~= formatted.deep_view());
    }
    r
}

/// Writes a formatted body as HTML: a `div` with a heading for each section,
/// a paragraph for plain text.
pub fn formatted_to_html(formatted: &FormattedMessageDetail) -> (r: String)
    ensures
        r@ == html_components(formatted.components.deep_view()),
{
    let mut html = String::new();
    let components = formatted.components();
    let mut i: usize = 0;
    while i < components.len()
        invariant
            i <= components@.len(),
            components == &formatted.components,
            html@ == html_components(components.deep_view().take(i as int)),
        decreases components@.len() - i,
    {
        match &components[i] {
            FormattedMessageComponent::Section(section, parts) => {
                html.append("<div><h2>");
                html.append(escape_html(section.as_str()).as_str());
                html.append("</h2><p>");
                html.append(parse_formatted(parts).as_str());
                html.append("</p></div>");
            },
            FormattedMessageComponent::Text(parts) => {
                html.append("<p>");
                html.append(parse_formatted(parts).as_str());
                html.append("</p>");
            },
        }
        i += 1;
        proof {
            assert(components.deep_view().take(i as int).drop_last() =~= components.deep_view()
                .take(i - 1));
            assert(components.deep_view().take(i as int).last() == components.deep_view()[i - 1]);
            assert(html@ =~= html_components(components.deep_view().take(i as int)));
        }
    }
    proof {
        assert(components.deep_view().take(components.deep_view().len() as int)
            =~= components.deep_view());
    }
    html
}

} // verus!
