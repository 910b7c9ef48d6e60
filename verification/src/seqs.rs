//! First-match search over sequences, the shape shared by every
//! "take the first rule that applies" decision in the library.
use vstd::prelude::*;

verus! {

/// The index of the first element of `s` that satisfies `p`, if any.
pub open spec fn find_first<A>(s: Seq<A>, p: spec_fn(A) -> bool) -> Option<int>
    decreases s.len(),
{
    if s.len() == 0 {
        None
    } else if p(s[0]) {
        Some(0)
    } else {
        match find_first(s.drop_first(), p) {
            Some(i) => Some(i + 1),
            None => None,
        }
    }
}

/// `i` is the first index of `s` whose element satisfies `p`.
pub open spec fn is_first<A>(s: Seq<A>, p: spec_fn(A) -> bool, i: int) -> bool {
    &&& 0 <= i < s.len()
    &&& p(s[i])
    &&& forall|j: int| 0 <= j < i ==> !p(#[trigger] s[j])
}

/// No element of `s` satisfies `p`.
pub open spec fn none_satisfy<A>(s: Seq<A>, p: spec_fn(A) -> bool) -> bool {
    forall|j: int| 0 <= j < s.len() ==> !p(#[trigger] s[j])
}

/// `find_first` returns exactly the first satisfying index, and `None` exactly
/// when no element satisfies the predicate.
pub proof fn lemma_find_first<A>(s: Seq<A>, p: spec_fn(A) -> bool)
    ensures
        find_first(s, p) is None <==> none_satisfy(s, p),
        forall|i: int| #[trigger] is_first(s, p, i) <==> find_first(s, p) == Some(i),
    decreases s.len(),
{
    if s.len() > 0 {
        let t = s.drop_first();
        lemma_find_first(t, p);
        if p(s[0]) {
            assert forall|i: int| #[trigger] is_first(s, p, i) implies i == 0 by {
                if i > 0 {
                    assert(!p(s[0]));
                }
            }
        } else {
            assert forall|i: int| #[trigger] is_first(s, p, i) <==> find_first(s, p) == Some(
                i,
            ) by {
                if is_first(s, p, i) {
                    assert(i > 0);
                    assert forall|j: int| 0 <= j < i - 1 implies !p(#[trigger] t[j]) by {
                        assert(t[j] == s[j + 1]);
                    }
                    assert(t[i - 1] == s[i]);
                    assert(is_first(t, p, i - 1));
                }
                if find_first(s, p) == Some(i) {
                    assert(is_first(t, p, i - 1));
                    assert(t[i - 1] == s[i]);
                    assert forall|j: int| 0 <= j < i implies !p(#[trigger] s[j]) by {
                        if j > 0 {
                            assert(t[j - 1] == s[j]);
                        }
                    }
                }
            }
            if none_satisfy(t, p) {
                assert forall|j: int| 0 <= j < s.len() implies !p(#[trigger] s[j]) by {
                    if j > 0 {
                        assert(t[j - 1] == s[j]);
                    }
                }
            }
            if none_satisfy(s, p) {
                assert forall|j: int| 0 <= j < t.len() implies !p(#[trigger] t[j]) by {
                    assert(t[j] == s[j + 1]);
                }
            }
        }
    }
}

} // verus!
