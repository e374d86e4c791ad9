//! The order in which texts are sorted: character by character, a text before
//! every text that it begins.

use vstd::prelude::*;

verus! {

/// Whether `a` stands before `b`, and `k` is the place that decides it: up to
/// `k` the two agree, and there `a` ends while `b` goes on, or `a` holds the
/// lesser character.
pub open spec fn sorts_before_at(a: Seq<char>, b: Seq<char>, k: int) -> bool {
    &&& 0 <= k <= a.len()
    &&& k < b.len()
    &&& forall|i: int| 0 <= i < k ==> a[i] == b[i]
    &&& k < a.len() ==> (a[k] as u32) < (b[k] as u32)
}

/// Whether `a` stands before `b` where texts are sorted.
pub open spec fn sorts_before(a: Seq<char>, b: Seq<char>) -> bool {
    exists|k: int| sorts_before_at(a, b, k)
}

/// Of two texts at most one stands before the other.
pub proof fn lemma_sorts_one_way(a: Seq<char>, b: Seq<char>)
    requires
        sorts_before(a, b),
    ensures
        !sorts_before(b, a),
{
    let k = choose|k: int| sorts_before_at(a, b, k);
    assert forall|m: int| !sorts_before_at(b, a, m) by {
        if sorts_before_at(b, a, m) {
            if k < m {
                assert(b[k] == a[k]);
            } else if m < k {
                assert(a[m] == b[m]);
            }
        }
    }
}

} // verus!
