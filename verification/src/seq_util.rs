//! First-index-of-a-match over sequences: the "find first by scanning"
//! shape that the selector and the directory lookups share.

use vstd::prelude::*;

verus! {

/// Index of the first element of `s` satisfying `p`, or `s.len()` when none
/// does.
pub open spec fn first_ix<A>(s: Seq<A>, p: spec_fn(A) -> bool) -> int
    decreases s.len(),
{
    if s.len() == 0 {
        0
    } else if p(s[0]) {
        0
    } else {
        1 + first_ix(s.drop_first(), p)
    }
}

/// `first_ix` lands in bounds exactly when a match exists, lands on a match,
/// and nothing before it matches.
pub proof fn lemma_first_ix<A>(s: Seq<A>, p: spec_fn(A) -> bool)
    ensures
        0 <= first_ix(s, p) <= s.len(),
        first_ix(s, p) < s.len() ==> p(s[first_ix(s, p)]),
        forall|j: int| 0 <= j < first_ix(s, p) ==> !p(s[j]),
        first_ix(s, p) == s.len() ==> forall|j: int| 0 <= j < s.len() ==> !p(s[j]),
    decreases s.len(),
{
    if s.len() == 0 {
    } else if p(s[0]) {
    } else {
        let s2 = s.drop_first();
        lemma_first_ix(s2, p);
        assert forall|j: int| 0 <= j < first_ix(s, p) implies !p(s[j]) by {
            if j > 0 {
                assert(s2[j - 1] == s[j]);
            }
        }
        if first_ix(s, p) < s.len() {
            assert(s2[first_ix(s2, p)] == s[first_ix(s, p)]);
        } else {
            assert forall|j: int| 0 <= j < s.len() implies !p(s[j]) by {
                if j > 0 {
                    assert(s2[j - 1] == s[j]);
                }
            }
        }
    }
}

/// An in-bounds match with nothing matching before it is exactly where
/// `first_ix` lands.
pub proof fn lemma_first_ix_is<A>(s: Seq<A>, p: spec_fn(A) -> bool, i: int)
    requires
        0 <= i < s.len(),
        p(s[i]),
        forall|j: int| 0 <= j < i ==> !p(s[j]),
    ensures
        first_ix(s, p) == i,
{
    lemma_first_ix(s, p);
    if first_ix(s, p) < i {
        assert(!p(s[first_ix(s, p)]));
    }
    if first_ix(s, p) > i {
        assert(!p(s[i]));
    }
}

} // verus!
