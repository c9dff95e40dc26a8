//! A structural model of filesystem paths: a path is a sequence of plain
//! segments, never a string with separators. Building paths from validated
//! segments is what makes the traversal guard provable: a safe segment can
//! never name a parent directory or smuggle a separator.

use vstd::prelude::*;

verus! {

/// A separator character that would let one segment span several path
/// components if it were embedded in a segment string.
pub open spec fn is_path_separator(c: char) -> bool {
    c == '/' || c == '\\'
}

/// A segment is safe when it names exactly one child entry: it is
/// non-empty, is not a current- or parent-directory reference, and
/// contains no separator and no NUL.
pub open spec fn is_safe_segment(s: Seq<char>) -> bool {
    &&& s.len() > 0
    &&& s != seq!['.']
    &&& s != seq!['.', '.']
    &&& forall|i: int|
        0 <= i < s.len() ==> !is_path_separator(#[trigger] s[i]) && s[i] != '\u{0}'
}

/// Every segment of the sequence is safe.
pub open spec fn all_segments_safe(p: Seq<Seq<char>>) -> bool {
    forall|i: int| 0 <= i < p.len() ==> is_safe_segment(#[trigger] p[i])
}

/// `p` stays inside `root`: it extends `root` segment for segment.
pub open spec fn path_is_within(p: Seq<Seq<char>>, root: Seq<Seq<char>>) -> bool {
    &&& p.len() >= root.len()
    &&& p.subrange(0, root.len() as int) == root
}

/// A filesystem path as a sequence of segments relative to some mount
/// point chosen by the caller. The caller turns it into a platform path
/// by joining the segments with its platform's separator; because safe
/// segments contain no separators, that join is injective.
#[derive(Debug)]
pub struct StoragePath {
    pub segments: Vec<String>,
}

impl View for StoragePath {
    type V = Seq<Seq<char>>;

    open spec fn view(&self) -> Seq<Seq<char>> {
        self.segments.deep_view()
    }
}

impl Clone for StoragePath {
    /// Cloning keeps the segments.
    fn clone(&self) -> (r: Self)
        ensures
            r@ == self@,
    {
        let segments = self.segments.clone();
        proof {
            assert forall|j: int| 0 <= j < segments@.len() implies segments@[j]
                == self.segments@[j] by {
                assert(cloned::<String>(self.segments[j], segments[j]));
            }
            assert(segments.deep_view() =~~= self.segments.deep_view());
        }
        StoragePath { segments }
    }
}

impl StoragePath {
    /// The empty path: the mount point itself.
    pub fn empty() -> (r: Self)
        ensures
            r@ == Seq::<Seq<char>>::empty(),
    {
        let r = StoragePath { segments: Vec::new() };
        proof {
            assert(r@ =~~= Seq::<Seq<char>>::empty());
        }
        r
    }

    /// The number of segments.
    pub fn len(&self) -> (n: usize)
        ensures
            n == self@.len(),
    {
        self.segments.len()
    }

    /// Appends one segment at the end.
    pub fn push_segment(&mut self, seg: String)
        ensures
            final(self)@ == old(self)@.push(seg@),
    {
        let ghost before = self.segments.deep_view();
        self.segments.push(seg);
        proof {
            assert(self.segments.deep_view() =~~= before.push(seg@));
        }
    }

    /// A copy of this path with one more segment at the end.
    pub fn child(&self, seg: String) -> (r: Self)
        ensures
            r@ == self@.push(seg@),
    {
        let mut r = self.clone();
        r.push_segment(seg);
        r
    }
}

/// Runtime check that a string is a safe segment.
pub fn check_safe_segment(seg: &str) -> (b: bool)
    ensures
        b == is_safe_segment(seg@),
{
    let n = seg.unicode_len();
    if n == 0 {
        return false;
    }
    if n == 1 && seg.get_char(0) == '.' {
        proof {
            assert(seg@ =~= seq!['.']);
        }
        return false;
    }
    if n == 2 && seg.get_char(0) == '.' && seg.get_char(1) == '.' {
        proof {
            assert(seg@ =~= seq!['.', '.']);
        }
        return false;
    }
    let mut i: usize = 0;
    while i < n
        invariant
            n == seg@.len(),
            i <= n,
            forall|j: int|
                0 <= j < i ==> !is_path_separator(#[trigger] seg@[j]) && seg@[j] != '\u{0}',
        decreases n - i,
    {
        let c = seg.get_char(i);
        if c == '/' || c == '\\' || c == '\u{0}' {
            return false;
        }
        i = i + 1;
    }
    proof {
        if seg@ == seq!['.'] {
            assert(seg@.len() == 1);
            assert(seg@[0] == '.');
        }
        if seg@ == seq!['.', '.'] {
            assert(seg@.len() == 2);
        }
    }
    true
}

/// A path built by appending segments to a root stays within that root.
pub proof fn lemma_path_within_extends(root: Seq<Seq<char>>, rest: Seq<Seq<char>>)
    ensures
        path_is_within(root + rest, root),
{
    assert((root + rest).subrange(0, root.len() as int) =~~= root);
}

} // verus!
