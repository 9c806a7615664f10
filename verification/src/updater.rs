//! Which children of an entity are resized when its health changes.

use crate::display_bar::DisplayHealthBar;
use crate::listing::{is_increasing, lemma_increasing_lists_agree};
use vstd::prelude::*;

verus! {

/// `listing` names the display bars among `children`: every position of a child
/// that is a display bar, in scene order, each once, and nothing else.
pub open spec fn is_bar_listing(
    children: Seq<Option<DisplayHealthBar>>,
    listing: Seq<usize>,
) -> bool {
    &&& forall|k: int|
        0 <= k < listing.len() ==> listing[k] < children.len() && children[listing[k] as int]
            is Some
    &&& is_increasing(listing)
    &&& forall|i: int|
        0 <= i < children.len() && children[i] is Some ==> listing.contains(i as usize)
}

/// Reacts to a change of an entity's health: names the children whose rectangle
/// is to be resized to the new health ratio. These are all its display bars;
/// an entity without one gets an empty list.
pub fn update_bars(children: &Vec<Option<DisplayHealthBar>>) -> (bars: Vec<usize>)
    ensures
        is_bar_listing(children@, bars@),
{
    let mut bars: Vec<usize> = Vec::new();
    let mut i: usize = 0;
    while i < children.len()
        invariant
            i <= children.len(),
            forall|k: int|
                0 <= k < bars.len() ==> bars[k] < i && children[bars[k] as int] is Some,
            forall|a: int, b: int| 0 <= a < b < bars.len() ==> bars[a] < bars[b],
            forall|j: int| 0 <= j < i && children[j] is Some ==> bars@.contains(j as usize),
        decreases children.len() - i,
    {
        if children[i].is_some() {
            let ghost before = bars@;
            bars.push(i);
            assert(bars@[before.len() as int] == i);
            assert forall|j: int| 0 <= j < i && children[j] is Some implies bars@.contains(
                j as usize,
            ) by {
                let k = choose|k: int| 0 <= k < before.len() && before[k] == j as usize;
                assert(bars@[k] == j as usize);
            }
        }
        i += 1;
    }
    bars
}

/// The children decide which bars are resized: two listings of the display
/// bars among the same children are the same list.
pub proof fn lemma_bar_listing_is_determined(
    children: Seq<Option<DisplayHealthBar>>,
    first: Seq<usize>,
    second: Seq<usize>,
)
    requires
        is_bar_listing(children, first),
        is_bar_listing(children, second),
    ensures
        first == second,
{
    assert forall|x: usize| first.contains(x) <==> second.contains(x) by {
        if first.contains(x) {
            let k = choose|k: int| 0 <= k < first.len() && first[k] == x;
            assert(children[first[k] as int] is Some);
        }
        if second.contains(x) {
            let k = choose|k: int| 0 <= k < second.len() && second[k] == x;
            assert(children[second[k] as int] is Some);
        }
    }
    lemma_increasing_lists_agree(first, second);
}

} // verus!
