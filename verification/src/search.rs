//! Finding the first element of a sequence that meets a condition.

use vstd::prelude::*;

verus! {

/// Position of the first element for which `p` holds; the length of the
/// sequence if there is none.
pub open spec fn first_where<A>(s: Seq<A>, p: spec_fn(A) -> bool) -> int
    decreases s.len(),
{
    if s.len() == 0 {
        0
    } else if p(s[0]) {
        0
    } else {
        1 + first_where(s.skip(1), p)
    }
}

/// `first_where` is the position before which `p` holds nowhere and at
/// which it holds or the sequence ends.
pub proof fn lemma_first_where<A>(s: Seq<A>, p: spec_fn(A) -> bool, at: int)
    requires
        0 <= at <= s.len(),
        forall|k: int| 0 <= k < at ==> !p(#[trigger] s[k]),
        at < s.len() ==> p(s[at]),
    ensures
        first_where(s, p) == at,
    decreases at,
{
    if at > 0 {
        let rest = s.skip(1);
        assert forall|k: int| 0 <= k < at - 1 implies !p(#[trigger] rest[k]) by {
            assert(rest[k] == s[k + 1]);
        }
        lemma_first_where(rest, p, at - 1);
    }
}

} // verus!
