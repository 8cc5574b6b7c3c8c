use vstd::prelude::*;
use vstd::string::{StrSliceExecFns, StringExecFns};

verus! {

/// A hierarchical topic tag, such as `database/backup`: a path of non-empty
/// segments, parsed by splitting on `/` and dropping empty segments.
/// Destinations subscribe to a component and receive every message whose
/// component is a child of it.
#[derive(Debug)]
pub struct Component {
    pub parts: Vec<String>,
}

/// The segments still open while walking `s` from the left: the finished
/// non-empty segments, and the text gathered since the last `/`.
pub open spec fn split_state(s: Seq<char>) -> (Seq<Seq<char>>, Seq<char>)
    decreases s.len(),
{
    if s.len() == 0 {
        (Seq::empty(), Seq::empty())
    } else {
        let (done, cur) = split_state(s.drop_last());
        if s.last() == '/' {
            if cur.len() > 0 {
                (done.push(cur), Seq::empty())
            } else {
                (done, Seq::empty())
            }
        } else {
            (done, cur.push(s.last()))
        }
    }
}

/// The non-empty segments of `s`, split on `/`.
pub open spec fn split_segments(s: Seq<char>) -> Seq<Seq<char>> {
    let (done, cur) = split_state(s);
    if cur.len() > 0 {
        done.push(cur)
    } else {
        done
    }
}

/// `child` is a child of `parent`: `child` has at least as many segments and
/// starts with all of `parent`'s, exactly.  Every component is a child of
/// itself.
pub open spec fn spec_is_child_of(child: Seq<Seq<char>>, parent: Seq<Seq<char>>) -> bool {
    parent.len() <= child.len() && forall|i: int| 0 <= i < parent.len() ==> child[i] == parent[i]
}

/// `is_child_of` is reflexive: every component is a child of itself.
pub proof fn lemma_is_child_of_reflexive(c: Seq<Seq<char>>)
    ensures
        spec_is_child_of(c, c),
{
}

impl Component {
    /// The segments of this component.
    pub open spec fn segments(&self) -> Seq<Seq<char>> {
        self.parts.deep_view()
    }

    /// Whether this component sits at or below `parent` in the hierarchy.
    pub fn is_child_of(&self, parent: &Component) -> (r: bool)
        ensures
            r == spec_is_child_of(self.segments(), parent.segments()),
    {
        if parent.parts.len() > self.parts.len() {
            return false;
        }
        let mut i: usize = 0;
        while i < parent.parts.len()
            invariant
                i <= parent.parts.len() <= self.parts.len(),
                forall|j: int| 0 <= j < i ==> self.segments()[j] == parent.segments()[j],
            decreases parent.parts.len() - i,
        {
            if !self.parts[i].eq(&parent.parts[i]) {
                proof {
                    assert(self.segments()[i as int] != parent.segments()[i as int]);
                }
                return false;
            }
            i += 1;
        }
        true
    }

    /// Parses a component from text, splitting on `/` and dropping empty
    /// segments, so `a/b/`, `/a/b` and `a//b` all read as `a`,`b`.
    pub fn parse(s: &str) -> (c: Component)
        ensures
            c.segments() == split_segments(s@),
    {
        Component { parts: split_slash(s) }
    }

    /// The component written back as text, segments joined by `/`.
    pub fn render(&self) -> (r: String)
        ensures
            r@ == join_slash(self.parts.deep_view()),
    {
        join_slash_exec(&self.parts)
    }
}

impl Clone for Component {
    fn clone(&self) -> (r: Self)
        ensures
            r.parts@ == self.parts@,
            r.segments() == self.segments(),
    {
        Component { parts: clone_string_vec(&self.parts) }
    }
}

impl PartialEq for Component {
    fn eq(&self, other: &Self) -> (r: bool) {
        if self.parts.len() != other.parts.len() {
            proof {
                assert(self.segments().len() != other.segments().len());
            }
            return false;
        }
        let mut i: usize = 0;
        while i < self.parts.len()
            invariant
                i <= self.parts.len(),
                self.parts.len() == other.parts.len(),
                self.segments().len() == other.segments().len(),
                forall|j: int| 0 <= j < i ==> self.segments()[j] == other.segments()[j],
            decreases self.parts.len() - i,
        {
            if !self.parts[i].eq(&other.parts[i]) {
                proof {
                    assert(self.segments()[i as int] != other.segments()[i as int]);
                }
                return false;
            }
            i += 1;
        }
        proof {
            assert(self.segments() =~= other.segments());
        }
        true
    }
}

impl vstd::std_specs::cmp::PartialEqSpecImpl for Component {
    open spec fn obeys_eq_spec() -> bool {
        true
    }

    open spec fn eq_spec(&self, other: &Self) -> bool {
        self.segments() == other.segments()
    }
}

impl From<&str> for Component {
    /// Same behaviour as [`Component::parse`]; callers inside the crate use
    /// `parse`, which carries the contract.
    fn from(s: &str) -> (c: Self) {
        Component::parse(s)
    }
}

impl vstd::std_specs::convert::FromSpecImpl<&str> for Component {
    open spec fn obeys_from_spec() -> bool {
        false
    }

    open spec fn from_spec(s: &str) -> Component {
        vstd::pervasive::arbitrary()
    }
}

/// Splits `s` on `/` into its non-empty segments.
pub(crate) fn split_slash(s: &str) -> (parts: Vec<String>)
    ensures
        parts.deep_view() == split_segments(s@),
{
    let n = s.unicode_len();
    let mut parts: Vec<String> = Vec::new();
    let mut start: usize = 0;
    let mut i: usize = 0;
    while i < n
        invariant
            start <= i <= n,
            n == s@.len(),
            split_state(s@.take(i as int)).0 == parts.deep_view(),
            split_state(s@.take(i as int)).1 == s@.subrange(start as int, i as int),
        decreases n - i,
    {
        let ch = s.get_char(i);
        proof {
            assert(s@.take(i + 1).drop_last() =~= s@.take(i as int));
            assert(s@.take(i + 1).last() == s@[i as int]);
        }
        if ch == '/' {
            if i > start {
                let seg = s.substring_char(start, i);
                parts.push(seg.to_owned());
                proof {
                    assert(parts.deep_view() =~= split_state(s@.take(i + 1)).0);
                }
            }
            start = i + 1;
            proof {
                assert(s@.subrange(start as int, i + 1) =~= Seq::<char>::empty());
            }
        } else {
            proof {
                assert(s@.subrange(start as int, i + 1) =~= s@.subrange(
                    start as int,
                    i as int,
                ).push(s@[i as int]));
            }
        }
        i += 1;
    }
    proof {
        assert(s@.take(n as int) =~= s@);
    }
    if i > start {
        let seg = s.substring_char(start, i);
        parts.push(seg.to_owned());
        proof {
            assert(parts.deep_view() =~= split_segments(s@));
        }
    }
    parts
}

/// The segments joined back together with `/` between them.
pub open spec fn join_slash(segs: Seq<Seq<char>>) -> Seq<char>
    decreases segs.len(),
{
    if segs.len() == 0 {
        Seq::empty()
    } else if segs.len() == 1 {
        segs[0]
    } else {
        join_slash(segs.drop_last()) + seq!['/'] + segs.last()
    }
}

pub(crate) fn join_slash_exec(parts: &Vec<String>) -> (r: String)
    ensures
        r@ == join_slash(parts.deep_view()),
{
    let mut r = String::new();
    let mut i: usize = 0;
    while i < parts.len()
        invariant
            i <= parts.len(),
            r@ == join_slash(parts.deep_view().take(i as int)),
        decreases parts.len() - i,
    {
        if i > 0 {
            r.append("/");
            proof {
                reveal_strlit("/");
            }
        }
        r.append(parts[i].as_str());
        proof {
            assert(parts.deep_view().take(i + 1).drop_last() =~= parts.deep_view().take(i as int));
            assert(parts.deep_view().take(i + 1).last() == parts.deep_view()[i as int]);
            if i > 0 {
                assert(r@ =~= join_slash(parts.deep_view().take(i + 1)));
            } else {
                assert(r@ =~= join_slash(parts.deep_view().take(1)));
            }
        }
        i += 1;
    }
    proof {
        assert(parts.deep_view().take(parts.deep_view().len() as int) =~= parts.deep_view());
    }
    r
}

pub(crate) fn clone_string_vec(v: &Vec<String>) -> (r: Vec<String>)
    ensures
        r.deep_view() == v.deep_view(),
        r@ == v@,
{
    let mut out: Vec<String> = Vec::new();
    let mut i: usize = 0;
    while i < v.len()
        invariant
            i <= v.len(),
            out@ == v@.take(i as int),
        decreases v.len() - i,
    {
        out.push(v[i].clone());
        i += 1;
        proof {
            assert(out@ =~= v@.take(i as int));
        }
    }
    proof {
        assert(out@ =~= v@);
        assert(out.deep_view() =~= v.deep_view());
    }
    out
}

} // verus!
