use vstd::prelude::*;
use crate::message::component::{
    clone_string_vec, join_slash, join_slash_exec, split_segments, split_slash,
};

verus! {

/// The author of a message: who or what created it, as a path of segments.
/// The first segment is the hostname of the machine the message came from,
/// or `?` where the hostname cannot be read.
#[derive(Debug)]
pub struct Author {
    pub parts: Vec<String>,
}

/// The placeholder used when the hostname cannot be read, or must not be
/// exposed.
pub open spec fn unknown_host() -> Seq<char> {
    "?"@
}

impl Author {
    /// Parses an author from the given text: the machine's hostname followed
    /// by the non-empty `/`-separated segments of `parts`.
    pub fn parse(parts: String) -> (a: Author)
        ensures
            a.parts.deep_view().len() >= 1,
            a.parts.deep_view().skip(1) == split_segments(parts@),
    {
        let mut a = Author::base();
        a.extend(parts);
        a
    }

    /// The base author: one segment holding the machine's hostname, or the
    /// unknown-host placeholder where it cannot be read.
    pub fn base() -> (a: Author)
        ensures
            a.parts.deep_view().len() == 1,
    {
        match get_hostname() {
            Some(host) => {
                let mut parts: Vec<String> = Vec::new();
                parts.push(host);
                proof {
                    assert(parts.deep_view() =~= seq![parts@[0]@]);
                }
                Author { parts }
            },
            None => Author::base_incognito(),
        }
    }

    /// The base author with the hostname withheld: one `?` segment.
    pub fn base_incognito() -> (a: Author)
        ensures
            a.parts.deep_view() == seq![unknown_host()],
    {
        let mut parts: Vec<String> = Vec::new();
        let q = "?";
        parts.push(q.to_owned());
        proof {
            assert(parts.deep_view() =~= seq![unknown_host()]);
        }
        Author { parts }
    }

    /// Parses an author as [`parse`](Self::parse) does, with the hostname
    /// withheld.
    pub fn parse_incognito(s: String) -> (a: Author)
        ensures
            a.parts.deep_view() == seq![unknown_host()] + split_segments(s@),
    {
        let mut base = Author::base_incognito();
        base.extend(s);
        base
    }

    /// Appends the non-empty `/`-separated segments of `parts` to this author.
    pub fn extend(&mut self, parts: String)
        ensures
            final (self).parts.deep_view() == old(self).parts.deep_view() + split_segments(
                parts@,
            ),
    {
        let mut new_parts = split_slash(parts.as_str());
        let ghost old_parts = self.parts.deep_view();
        let mut i: usize = 0;
        while i < new_parts.len()
            invariant
                i <= new_parts.len(),
                self.parts@.len() == old_parts.len() + i,
                self.parts.deep_view() == old_parts + new_parts.deep_view().take(i as int),
            decreases new_parts.len() - i,
        {
            let ghost prev = self.parts@;
            let seg = new_parts[i].clone();
            assert(seg@ == new_parts.deep_view()[i as int]);
            self.parts.push(seg);
            i += 1;
            proof {
                assert forall|k: int| 0 <= k < self.parts@.len() implies self.parts.deep_view()[k]
                    == (old_parts + new_parts.deep_view().take(i as int))[k] by {
                    assert(self.parts.deep_view()[k] == self.parts@[k].deep_view());
                    if k < prev.len() {
                        assert(self.parts@[k] == prev[k]);
                        assert(prev[k].deep_view() == (old_parts + new_parts.deep_view().take(
                            i - 1,
                        ))[k]);
                    }
                }
                assert(self.parts.deep_view() =~= old_parts + new_parts.deep_view().take(
                    i as int,
                ));
            }
        }
        proof {
            assert(old_parts + new_parts.deep_view().take(new_parts.deep_view().len() as int)
                =~= old_parts + new_parts.deep_view());
        }
    }

    /// The author written as text, segments joined by `/`.
    pub fn render(&self) -> (r: String)
        ensures
            r@ == join_slash(self.parts.deep_view()),
    {
        join_slash_exec(&self.parts)
    }
}

impl Clone for Author {
    fn clone(&self) -> (a: Self)
        ensures
            a.parts@ == self.parts@,
            a.parts.deep_view() == self.parts.deep_view(),
    {
        Author { parts: clone_string_vec(&self.parts) }
    }
}

impl PartialEq for Author {
    fn eq(&self, other: &Self) -> (r: bool) {
        string_vec_eq(&self.parts, &other.parts)
    }
}

impl vstd::std_specs::cmp::PartialEqSpecImpl for Author {
    open spec fn obeys_eq_spec() -> bool {
        true
    }

    open spec fn eq_spec(&self, other: &Self) -> bool {
        self.parts.deep_view() == other.parts.deep_view()
    }
}

fn string_vec_eq(a: &Vec<String>, b: &Vec<String>) -> (r: bool)
    ensures
        r == (a.deep_view() == b.deep_view()),
{
    if a.len() != b.len() {
        proof {
            assert(a.deep_view().len() != b.deep_view().len());
        }
        return false;
    }
    let mut i: usize = 0;
    while i < a.len()
        invariant
            i <= a.len(),
            a.len() == b.len(),
            a.deep_view().len() == b.deep_view().len(),
            forall|j: int| 0 <= j < i ==> a.deep_view()[j] == b.deep_view()[j],
        decreases a.len() - i,
    {
        if !a[i].eq(&b[i]) {
            proof {
                assert(a.deep_view()[i as int] != b.deep_view()[i as int]);
            }
            return false;
        }
        i += 1;
    }
    proof {
        assert(a.deep_view() =~= b.deep_view());
    }
    true
}

/// Relies on hostname::get for the machine's hostname.  The result depends on
/// the machine, so nothing is promised of it; callers treat the text as
/// opaque.
#[verifier::external_body]
fn get_hostname() -> Option<String> {
    match hostname::get() {
        Ok(host) => Some(host.to_string_lossy().to_string()),
        Err(_) => None,
    }
}

} // verus!
