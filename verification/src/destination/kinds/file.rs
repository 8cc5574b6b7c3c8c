use vstd::prelude::*;
use vstd::string::StringExecFns;
use crate::destination::kinds::render_local_timestamp;
use crate::message::component::{join_slash, join_slash_exec};
use crate::message::formatted_detail::{spec_lines, split_lines};
use crate::message::{level_name, Message};

verus! {

/// Declares std::path::PathBuf, which the verifier does not know, so that it
/// can stand in fields and signatures; values of it are opaque here.
#[verifier::external_type_specification]
#[verifier::external_body]
pub struct ExPathBuf(std::path::PathBuf);

/// A destination that appends one formatted line per message to a file.
/// Writing the file is the caller's side of the boundary; this type holds
/// the path and formats the line.
#[derive(Debug)]
pub struct FileDestination {
    pub path: std::path::PathBuf,
}

/// The lines of `s` joined into one, with a literal `\n` between them.
pub open spec fn join_escaped_newline(lines: Seq<Seq<char>>) -> Seq<char>
    decreases lines.len(),
{
    if lines.len() == 0 {
        Seq::empty()
    } else if lines.len() == 1 {
        lines[0]
    } else {
        join_escaped_newline(lines.drop_last()) + "\\n"@ + lines.last()
    }
}

/// The text flattened onto one line: its lines joined with a literal `\n`.
pub open spec fn inline_spec(s: Seq<char>) -> Seq<char> {
    join_escaped_newline(spec_lines(s))
}

/// The line written to the file for a message under the given timestamp
/// text: the timestamp, the level, the component in brackets and the title
/// where present, the body flattened onto one line, and the author.
pub open spec fn file_line(ts: Seq<char>, m: &Message) -> Seq<char> {
    ts + " - "@ + level_name(m.level) + ": "@ + (match m.component {
        Some(ref c) => "["@ + join_slash(c.segments()) + "] "@,
        None => Seq::empty(),
    }) + (match m.title {
        Some(ref t) => t@ + " - "@,
        None => Seq::empty(),
    }) + "'"@ + inline_spec(m.message_detail.spec_raw()) + "'"@ + " @ "@ + join_slash(
        m.author.parts.deep_view(),
    )
}

impl FileDestination {
    pub fn new(path: std::path::PathBuf) -> (r: Self)
        ensures
            r.path == path,
    {
        FileDestination { path }
    }

    pub fn get_path(&self) -> (p: &std::path::PathBuf)
        ensures
            p == &self.path,
    {
        &self.path
    }

    /// The line this destination writes for a message: [`file_line`] under
    /// the machine's local rendering of the message's timestamp.
    pub fn format_message(&self, message: &Message) -> (r: String)
        ensures
            exists|ts: Seq<char>| r@ == file_line(ts, message),
    {
        let ts = render_local_timestamp(message.get_unix_timestamp_millis());
        compose_file_line(ts.as_str(), message)
    }
}

/// Writes the file line for a message under the given timestamp text.
pub fn compose_file_line(ts: &str, message: &Message) -> (r: String)
    ensures
        r@ == file_line(ts@, message),
{
    let mut r = ts.to_owned();
    r.append(" - ");
    r.append(message.get_level().name());
    r.append(": ");
    if let Some(c) = message.get_component() {
        r.append("[");
        r.append(join_slash_exec(&c.parts).as_str());
        r.append("] ");
    }
    if let Some(t) = message.get_title() {
        r.append(t.as_str());
        r.append(" - ");
    }
    r.append("'");
    r.append(inline(message.get_message_detail().raw()).as_str());
    r.append("'");
    r.append(" @ ");
    r.append(join_slash_exec(&message.get_author().parts).as_str());
    proof {
        assert(r@ =~= file_line(ts@, message));
    }
    r
}

/// Flattens text onto one line, joining its lines with a literal `\n`.
pub fn inline(s: &str) -> (r: String)
    ensures
        r@ == inline_spec(s@),
{
    let lines = split_lines(s);
    let mut r = String::new();
    let mut i: usize = 0;
    while i < lines.len()
        invariant
            i <= lines@.len(),
            lines.deep_view() == spec_lines(s@),
            r@ == join_escaped_newline(lines.deep_view().take(i as int)),
        decreases lines@.len() - i,
    {
        if i > 0 {
            r.append("\\n");
        }
        r.append(lines[i].as_str());
        proof {
            assert(lines.deep_view().take(i + 1).drop_last() =~= lines.deep_view().take(i as int));
            assert(lines.deep_view().take(i + 1).last() == lines.deep_view()[i as int]);
            if i > 0 {
                assert(r@ =~= join_escaped_newline(lines.deep_view().take(i + 1)));
            } else {
                assert(r@ =~= join_escaped_newline(lines.deep_view().take(1)));
            }
        }
        i += 1;
    }
    proof {
        assert(lines.deep_view().take(lines.deep_view().len() as int) =~= lines.deep_view());
    }
    r
}

} // verus!
