//! Lists of positions in increasing order.

use vstd::prelude::*;

verus! {

/// Every entry of `listing` is greater than the entries before it.
pub open spec fn is_increasing(listing: Seq<usize>) -> bool {
    forall|a: int, b: int| 0 <= a < b < listing.len() ==> listing[a] < listing[b]
}

/// Two increasing lists that hold the same positions agree on their first `k`
/// entries.
proof fn lemma_increasing_lists_agree_up_to(first: Seq<usize>, second: Seq<usize>, k: int)
    requires
        is_increasing(first),
        is_increasing(second),
        forall|x: usize| first.contains(x) <==> second.contains(x),
        0 <= k <= first.len(),
        k <= second.len(),
    ensures
        forall|j: int| 0 <= j < k ==> first[j] == second[j],
    decreases k,
{
    if k > 0 {
        lemma_increasing_lists_agree_up_to(first, second, k - 1);
        let j = k - 1;
        if first[j] < second[j] {
            assert(first.contains(first[j]));
            let m = choose|m: int| 0 <= m < second.len() && second[m] == first[j];
            assert(m < j);
            assert(first[m] == second[m]);
        } else if second[j] < first[j] {
            assert(second.contains(second[j]));
            let m = choose|m: int| 0 <= m < first.len() && first[m] == second[j];
            assert(m < j);
            assert(first[m] == second[m]);
        }
    }
}

/// An increasing list is determined by the positions it holds.
pub proof fn lemma_increasing_lists_agree(first: Seq<usize>, second: Seq<usize>)
    requires
        is_increasing(first),
        is_increasing(second),
        forall|x: usize| first.contains(x) <==> second.contains(x),
    ensures
        first == second,
{
    if first.len() <= second.len() {
        lemma_increasing_lists_agree_up_to(first, second, first.len() as int);
        if first.len() < second.len() {
            let x = second[first.len() as int];
            assert(second.contains(x));
            let m = choose|m: int| 0 <= m < first.len() && first[m] == x;
            assert(second[m] == x);
        }
    } else {
        lemma_increasing_lists_agree_up_to(first, second, second.len() as int);
        let x = first[second.len() as int];
        assert(first.contains(x));
        let m = choose|m: int| 0 <= m < second.len() && second[m] == x;
        assert(first[m] == x);
    }
    assert(first =~= second);
}

} // verus!
