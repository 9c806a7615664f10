//! The passing of time over all visible bars.

use crate::display_bar::DisplayHealthBar;
use crate::listing::{is_increasing, lemma_increasing_lists_agree};
use vstd::prelude::*;

verus! {

/// `listing` names the bars that run out on a tick of `delta_ns`: every position
/// of such a bar, in order, each once, and nothing else.
pub open spec fn is_expiry_listing(
    bars: Seq<DisplayHealthBar>,
    delta_ns: u64,
    listing: Seq<usize>,
) -> bool {
    &&& forall|k: int|
        0 <= k < listing.len() ==> listing[k] < bars.len() && bars[listing[k] as int].expires_on(
            delta_ns,
        )
    &&& is_increasing(listing)
    &&& forall|i: int|
        0 <= i < bars.len() && bars[i].expires_on(delta_ns) ==> listing.contains(i as usize)
}

/// Lets `delta_ns` nanoseconds pass for every bar, and names the bars that are to
/// be removed with all that hangs below them: those that ran out on this tick.
/// A bar that had run out before is not named again.
pub fn countdown_bars(bars: &mut Vec<DisplayHealthBar>, delta_ns: u64) -> (expired: Vec<usize>)
    ensures
        final(bars)@.len() == old(bars)@.len(),
        forall|i: int|
            0 <= i < old(bars)@.len() ==> final(bars)@[i] == old(bars)@[i].ticked(delta_ns),
        is_expiry_listing(old(bars)@, delta_ns, expired@),
{
    let mut expired: Vec<usize> = Vec::new();
    let mut i: usize = 0;
    while i < bars.len()
        invariant
            i <= bars.len(),
            bars@.len() == old(bars)@.len(),
            forall|j: int| 0 <= j < i ==> bars@[j] == old(bars)@[j].ticked(delta_ns),
            forall|j: int| i <= j < bars.len() ==> bars@[j] == old(bars)@[j],
            forall|k: int|
                0 <= k < expired.len() ==> expired[k] < i && old(bars)@[expired[k] as int].expires_on(
                    delta_ns,
                ),
            forall|a: int, b: int| 0 <= a < b < expired.len() ==> expired[a] < expired[b],
            forall|j: int|
                0 <= j < i && old(bars)@[j].expires_on(delta_ns) ==> expired@.contains(j as usize),
        decreases bars.len() - i,
    {
        let mut bar = bars[i];
        let ran_out = bar.tick(delta_ns);
        bars.set(i, bar);
        if ran_out {
            let ghost before = expired@;
            expired.push(i);
            assert(expired@[before.len() as int] == i);
            assert forall|j: int|
                0 <= j < i && old(bars)@[j].expires_on(delta_ns) implies expired@.contains(
                j as usize,
            ) by {
                let k = choose|k: int| 0 <= k < before.len() && before[k] == j as usize;
                assert(expired@[k] == j as usize);
            }
        }
        i += 1;
    }
    expired
}

/// The bars and the time that passed decide which bars are removed: two
/// listings of the bars that run out on the same tick are the same list.
pub proof fn lemma_expiry_listing_is_determined(
    bars: Seq<DisplayHealthBar>,
    delta_ns: u64,
    first: Seq<usize>,
    second: Seq<usize>,
)
    requires
        is_expiry_listing(bars, delta_ns, first),
        is_expiry_listing(bars, delta_ns, second),
    ensures
        first == second,
{
    assert forall|x: usize| first.contains(x) <==> second.contains(x) by {
        if first.contains(x) {
            let k = choose|k: int| 0 <= k < first.len() && first[k] == x;
            assert(bars[first[k] as int].expires_on(delta_ns));
        }
        if second.contains(x) {
            let k = choose|k: int| 0 <= k < second.len() && second[k] == x;
            assert(bars[second[k] as int].expires_on(delta_ns));
        }
    }
    lemma_increasing_lists_agree(first, second);
}

} // verus!
