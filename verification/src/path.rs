//! Paths as text, with `/` between their segments.

use vstd::prelude::*;
use vstd::string::StringExecFns;

verus! {

/// The path of `segment` directly below `base`: the two texts with one `/`
/// between them, whatever they hold.
pub open spec fn child(base: Seq<char>, segment: Seq<char>) -> Seq<char> {
    base + seq!['/'] + segment
}

/// Builds the path of `segment` directly below `base`.
pub fn child_path(base: &str, segment: &str) -> (path: String)
    ensures
        path@ == child(base@, segment@),
{
    let mut path = String::from_str(base);
    path.append("/");
    path.append(segment);
    proof {
        reveal_strlit("/");
        assert("/"@ =~= seq!['/']);
    }
    path
}

/// A text below `base` tells its segment: two children of one base are the same
/// path only if their segments are the same.
pub proof fn lemma_child_tells_segment(base: Seq<char>, first: Seq<char>, second: Seq<char>)
    ensures
        child(base, first) == child(base, second) <==> first == second,
{
    if child(base, first) == child(base, second) {
        let start = base.len() as int + 1;
        let one = child(base, first);
        let other = child(base, second);
        assert(one.subrange(start, one.len() as int) =~= first);
        assert(other.subrange(start, other.len() as int) =~= second);
    }
}

/// A path tells the base of a given segment: the same segment below two bases
/// gives the same path only if the bases are the same.
pub proof fn lemma_child_tells_base(first: Seq<char>, second: Seq<char>, segment: Seq<char>)
    ensures
        child(first, segment) == child(second, segment) <==> first == second,
{
    if child(first, segment) == child(second, segment) {
        let a = child(first, segment);
        let b = child(second, segment);
        assert(a.len() == first.len() + 1 + segment.len());
        assert(b.len() == second.len() + 1 + segment.len());
        assert(a.subrange(0, first.len() as int) =~= first);
        assert(b.subrange(0, second.len() as int) =~= second);
    }
}

} // verus!
