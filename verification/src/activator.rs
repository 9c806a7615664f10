//! What a change of health does to the children of an entity.
//!
//! The children are handed in as a list in scene order, one slot per direct
//! child: `Some` with its countdown for a child that is a display bar, `None`
//! for any other child.

use crate::display_bar::{lemma_reset_restarts_lifetime, total_ns, DisplayHealthBar, BAR_LIFETIME_NS};
use vstd::prelude::*;

verus! {

/// What the activator did to the children of one entity.
#[derive(Clone, Copy, Debug, PartialEq, Eq, Structural)]
pub enum Activation {
    /// The child at this position already was a display bar; its countdown was
    /// started over.
    Reset(usize),
    /// No child was a display bar; a new one was added behind the others.
    Spawn,
}

impl Activation {
    /// Where the bar that the activator touched stands among the children, of
    /// which there were `count` before the activator ran.
    pub open spec fn bar_position(self, count: nat) -> int {
        match self {
            Activation::Reset(i) => i as int,
            Activation::Spawn => count as int,
        }
    }
}

/// No child is a display bar.
pub open spec fn no_bar(children: Seq<Option<DisplayHealthBar>>) -> bool {
    forall|j: int| 0 <= j < children.len() ==> children[j] is None
}

/// The child at `i` is a display bar and no later child is one.
pub open spec fn is_last_bar(children: Seq<Option<DisplayHealthBar>>, i: int) -> bool {
    &&& 0 <= i < children.len()
    &&& children[i] is Some
    &&& forall|j: int| i < j < children.len() ==> children[j] is None
}

/// At most one child is a display bar.
pub open spec fn at_most_one_bar(children: Seq<Option<DisplayHealthBar>>) -> bool {
    forall|i: int, j: int|
        0 <= i < children.len() && 0 <= j < children.len() && children[i] is Some
            && children[j] is Some ==> i == j
}

/// Exactly one child is a display bar.
pub open spec fn exactly_one_bar(children: Seq<Option<DisplayHealthBar>>) -> bool {
    at_most_one_bar(children) && !no_bar(children)
}

/// `act` and `after` are what the activator makes of the children `before`:
/// the last display bar among them is started over and nothing else changes, or,
/// where there is none, a fresh bar is added as the last child.
pub open spec fn is_activation(
    before: Seq<Option<DisplayHealthBar>>,
    act: Activation,
    after: Seq<Option<DisplayHealthBar>>,
) -> bool {
    match act {
        Activation::Reset(i) => {
            &&& is_last_bar(before, i as int)
            &&& after == before.update(i as int, Some(before[i as int]->0.restarted()))
        },
        Activation::Spawn => {
            &&& no_bar(before)
            &&& after == before.push(Some(DisplayHealthBar::fresh()))
        },
    }
}

/// Finds the display bar among the children of an entity: the position of the
/// last child that is one, `None` where no child is.
pub fn find_display_bar(children: &Vec<Option<DisplayHealthBar>>) -> (found: Option<usize>)
    ensures
        match found {
            Some(i) => is_last_bar(children@, i as int),
            None => no_bar(children@),
        },
{
    let mut bar_child: Option<usize> = None;
    let mut i: usize = 0;
    while i < children.len()
        invariant
            i <= children.len(),
            match bar_child {
                Some(b) => is_last_bar(children@.take(i as int), b as int),
                None => no_bar(children@.take(i as int)),
            },
        decreases children.len() - i,
    {
        if children[i].is_some() {
            bar_child = Some(i);
        }
        i += 1;
    }
    assert(children@.take(i as int) == children@);
    bar_child
}

/// Reacts to a change of an entity's health: starts the countdown of its
/// display bar over, or gives it a display bar if it has none.
///
/// Where several children are display bars, only the last of them is touched.
pub fn activate_bars(children: &mut Vec<Option<DisplayHealthBar>>) -> (act: Activation)
    ensures
        is_activation(old(children)@, act, final(children)@),
{
    match find_display_bar(children) {
        Some(i) => {
            let mut bar = children[i].unwrap();
            bar.reset();
            children.set(i, Some(bar));
            Activation::Reset(i)
        },
        None => {
            children.push(Some(DisplayHealthBar::new()));
            Activation::Spawn
        },
    }
}

/// The children decide what the activator does: two outcomes for the same
/// children are the same outcome.
pub proof fn lemma_activation_is_determined(
    before: Seq<Option<DisplayHealthBar>>,
    act1: Activation,
    after1: Seq<Option<DisplayHealthBar>>,
    act2: Activation,
    after2: Seq<Option<DisplayHealthBar>>,
)
    requires
        is_activation(before, act1, after1),
        is_activation(before, act2, after2),
    ensures
        act1 == act2,
        after1 == after2,
{
}

/// After the activator has run, the entity has a display bar. Where it had one
/// before, it has the same children as before and the same of them are display
/// bars. An entity that had at most one display bar has exactly one.
pub proof fn lemma_activation_leaves_one_bar(
    before: Seq<Option<DisplayHealthBar>>,
    act: Activation,
    after: Seq<Option<DisplayHealthBar>>,
)
    requires
        is_activation(before, act, after),
    ensures
        !no_bar(after),
        !no_bar(before) ==> after.len() == before.len() && forall|j: int|
            0 <= j < before.len() ==> (after[j] is Some <==> before[j] is Some),
        at_most_one_bar(before) ==> exactly_one_bar(after),
{
    assert(after[act.bar_position(before.len())] is Some);
}

/// Running the activator a second time, with no tick in between, changes
/// nothing: it finds the bar that the first run left, starts that bar's
/// countdown over again, and adds no child.
pub proof fn lemma_activation_is_idempotent(
    before: Seq<Option<DisplayHealthBar>>,
    act1: Activation,
    between: Seq<Option<DisplayHealthBar>>,
    act2: Activation,
    after: Seq<Option<DisplayHealthBar>>,
)
    requires
        is_activation(before, act1, between),
        is_activation(between, act2, after),
    ensures
        after == between,
        act2 == Activation::Reset(act1.bar_position(before.len()) as usize),
{
    assert(between[act1.bar_position(before.len())] is Some);
}

/// A change of health gives the bar a whole lifetime again: the bar that the
/// activator created or reset, if it is only ticked from then on, runs out on
/// tick `k` of the ticks that follow exactly if less than the lifetime had
/// passed since the activation before that tick and at least the lifetime has
/// passed with it, whatever the bar's countdown had been.
pub proof fn lemma_activation_restarts_lifetime(
    before: Seq<Option<DisplayHealthBar>>,
    act: Activation,
    after: Seq<Option<DisplayHealthBar>>,
    deltas: Seq<u64>,
    k: int,
)
    requires
        is_activation(before, act, after),
        0 <= k < deltas.len(),
    ensures
        after[act.bar_position(before.len())] is Some,
        after[act.bar_position(before.len())]->0.ticked_all(deltas.take(k)).expires_on(deltas[k])
            <==> (total_ns(deltas.take(k)) < BAR_LIFETIME_NS && BAR_LIFETIME_NS <= total_ns(
            deltas.take(k + 1),
        )),
{
    lemma_reset_restarts_lifetime(DisplayHealthBar::fresh(), deltas, k);
}

} // verus!
