//! The countdown that every display bar carries.

use bevy::time::Timer;
use std::time::Duration;
use vstd::prelude::*;

verus! {

/// How long a bar stays visible after the last change of health, in nanoseconds.
pub const BAR_LIFETIME_NS: u64 = 10_000_000_000;

/// One tick of a non-repeating timer, as Bevy computes it.
///
/// Builds a non-repeating `bevy::time::Timer` of `duration_ns` nanoseconds with
/// `Timer::new`, puts it at `elapsed_ns` with `Timer::set_elapsed`, calls
/// `Timer::tick` with `delta_ns`, and hands back `Timer::elapsed` in nanoseconds
/// and `Timer::just_finished`. The contract is taken on trust. It restates what
/// `tick` does to a timer that is neither paused nor finished: the elapsed time
/// grows by the delta and stops at the duration, and `just_finished` holds
/// exactly if the duration was reached by this call.
#[verifier::external_body]
fn tick_timer(duration_ns: u64, elapsed_ns: u64, delta_ns: u64) -> (r: (u64, bool))
    ensures
        r.0 == (if elapsed_ns + delta_ns >= duration_ns {
            duration_ns as int
        } else {
            elapsed_ns + delta_ns
        }),
        r.1 == (elapsed_ns + delta_ns >= duration_ns),
{
    let mut timer = Timer::new(Duration::from_nanos(duration_ns), false);
    timer.set_elapsed(Duration::from_nanos(elapsed_ns));
    timer.tick(Duration::from_nanos(delta_ns));
    (timer.elapsed().as_nanos() as u64, timer.just_finished())
}

/// The countdown of one visible bar: the time since the bar was created or last
/// refreshed. A bar whose `elapsed_ns` has reached [`BAR_LIFETIME_NS`] has run
/// out and stays as it is until it is reset.
#[derive(Clone, Copy, Debug, PartialEq, Eq, Structural)]
pub struct DisplayHealthBar {
    pub elapsed_ns: u64,
}

impl DisplayHealthBar {
    /// A bar whose countdown has just started.
    pub open spec fn fresh() -> Self {
        DisplayHealthBar { elapsed_ns: 0 }
    }

    /// Whether the countdown has run out.
    pub open spec fn is_finished(self) -> bool {
        self.elapsed_ns >= BAR_LIFETIME_NS
    }

    /// Whether a tick of `delta_ns` takes the countdown from running to run out.
    pub open spec fn expires_on(self, delta_ns: u64) -> bool {
        !self.is_finished() && self.elapsed_ns + delta_ns >= BAR_LIFETIME_NS
    }

    /// The bar after a tick of `delta_ns`: a running countdown advances and
    /// stops at the lifetime, one that has run out does not move.
    pub open spec fn ticked(self, delta_ns: u64) -> Self {
        if self.is_finished() {
            self
        } else if self.elapsed_ns + delta_ns >= BAR_LIFETIME_NS {
            DisplayHealthBar { elapsed_ns: BAR_LIFETIME_NS }
        } else {
            DisplayHealthBar { elapsed_ns: (self.elapsed_ns + delta_ns) as u64 }
        }
    }

    /// The time that the bar still has before it runs out, in nanoseconds.
    pub open spec fn time_left(self) -> nat {
        if self.is_finished() {
            0
        } else {
            (BAR_LIFETIME_NS - self.elapsed_ns) as nat
        }
    }

    /// The bar once its countdown has been started over.
    pub open spec fn restarted(self) -> Self {
        Self::fresh()
    }

    /// The bar after the ticks `deltas`, one after the other.
    pub open spec fn ticked_all(self, deltas: Seq<u64>) -> Self
        decreases deltas.len(),
    {
        if deltas.len() == 0 {
            self
        } else {
            self.ticked_all(deltas.drop_last()).ticked(deltas.last())
        }
    }

    /// Starts a countdown over the full lifetime.
    pub fn new() -> (bar: Self)
        ensures
            bar == Self::fresh(),
    {
        DisplayHealthBar { elapsed_ns: 0 }
    }

    /// Restarts the countdown, whatever state it was in.
    pub fn reset(&mut self)
        ensures
            *final(self) == old(self).restarted(),
    {
        self.elapsed_ns = 0;
    }

    /// Whether the countdown has run out.
    pub fn finished(&self) -> (done: bool)
        ensures
            done == self.is_finished(),
    {
        self.elapsed_ns >= BAR_LIFETIME_NS
    }

    /// The time that the bar still has before it runs out, in nanoseconds.
    pub fn time_left_ns(&self) -> (left: u64)
        ensures
            left == self.time_left(),
    {
        if self.elapsed_ns >= BAR_LIFETIME_NS {
            0
        } else {
            BAR_LIFETIME_NS - self.elapsed_ns
        }
    }

    /// Advances the countdown by `delta_ns` and reports whether it ran out on
    /// this very tick. A countdown that had already run out reports `false`.
    pub fn tick(&mut self, delta_ns: u64) -> (expired: bool)
        ensures
            *final(self) == old(self).ticked(delta_ns),
            expired == old(self).expires_on(delta_ns),
    {
        if self.elapsed_ns >= BAR_LIFETIME_NS {
            return false;
        }
        let (elapsed, expired) = tick_timer(BAR_LIFETIME_NS, self.elapsed_ns, delta_ns);
        self.elapsed_ns = elapsed;
        expired
    }
}

/// The time that passes in a series of ticks, in nanoseconds.
pub open spec fn total_ns(deltas: Seq<u64>) -> nat
    decreases deltas.len(),
{
    if deltas.len() == 0 {
        0
    } else {
        total_ns(deltas.drop_last()) + deltas.last() as nat
    }
}

/// The first `k + 1` ticks of a series take as long as the first `k` and the
/// tick after them.
proof fn lemma_total_one_more(deltas: Seq<u64>, k: int)
    requires
        0 <= k < deltas.len(),
    ensures
        total_ns(deltas.take(k + 1)) == total_ns(deltas.take(k)) + deltas[k],
{
    assert(deltas.take(k + 1).drop_last() == deltas.take(k));
}

/// A countdown measures time, not ticks: a bar that is still running has
/// counted all the time that a series of ticks brought, however the time was
/// split into ticks, and stands at the lifetime once that much has passed.
pub proof fn lemma_elapsed_after_ticks(bar: DisplayHealthBar, deltas: Seq<u64>)
    requires
        !bar.is_finished(),
    ensures
        bar.ticked_all(deltas).elapsed_ns == if bar.elapsed_ns + total_ns(deltas)
            >= BAR_LIFETIME_NS {
            BAR_LIFETIME_NS as int
        } else {
            bar.elapsed_ns + total_ns(deltas)
        },
    decreases deltas.len(),
{
    if deltas.len() > 0 {
        lemma_elapsed_after_ticks(bar, deltas.drop_last());
    }
}

/// A bar that has run out stays as it is and does not run out a second time,
/// whatever ticks follow.
pub proof fn lemma_finished_bar_stays(bar: DisplayHealthBar, deltas: Seq<u64>, delta_ns: u64)
    requires
        bar.is_finished(),
    ensures
        bar.ticked_all(deltas) == bar,
        !bar.ticked_all(deltas).expires_on(delta_ns),
    decreases deltas.len(),
{
    if deltas.len() > 0 {
        lemma_finished_bar_stays(bar, deltas.drop_last(), delta_ns);
    }
}

/// Whether a bar that is created and then ticked with `deltas` runs out on
/// tick `k` of the series.
pub open spec fn runs_out_on(deltas: Seq<u64>, k: int) -> bool {
    DisplayHealthBar::fresh().ticked_all(deltas.take(k)).expires_on(deltas[k])
}

/// A bar that is created and from then on only ticked runs out on the tick
/// that completes its lifetime, not before and not again: tick `k` of the series
/// is the one exactly if less than the lifetime had passed before it and at
/// least the lifetime has passed with it. The bar is thus removed no earlier
/// than a lifetime after its creation, and later by less than one tick.
pub proof fn lemma_new_bar_runs_out_after_lifetime(deltas: Seq<u64>, k: int)
    requires
        0 <= k < deltas.len(),
    ensures
        runs_out_on(deltas, k) <==> (total_ns(deltas.take(k)) < BAR_LIFETIME_NS && BAR_LIFETIME_NS
            <= total_ns(deltas.take(k + 1))),
{
    lemma_elapsed_after_ticks(DisplayHealthBar::fresh(), deltas.take(k));
    lemma_total_one_more(deltas, k);
}

/// More ticks take no less time.
proof fn lemma_total_grows(deltas: Seq<u64>, j: int, k: int)
    requires
        0 <= j <= k <= deltas.len(),
    ensures
        total_ns(deltas.take(j)) <= total_ns(deltas.take(k)),
    decreases k - j,
{
    if j < k {
        lemma_total_grows(deltas, j, k - 1);
        lemma_total_one_more(deltas, k - 1);
    }
}

/// Some tick of the series is the first by which a whole lifetime has passed,
/// if the series takes that long.
proof fn lemma_lifetime_is_crossed(deltas: Seq<u64>, n: int) -> (k: int)
    requires
        0 <= n <= deltas.len(),
        total_ns(deltas.take(n)) >= BAR_LIFETIME_NS,
    ensures
        0 <= k < n,
        total_ns(deltas.take(k)) < BAR_LIFETIME_NS <= total_ns(deltas.take(k + 1)),
    decreases n,
{
    if total_ns(deltas.take(n - 1)) >= BAR_LIFETIME_NS {
        lemma_lifetime_is_crossed(deltas, n - 1)
    } else {
        n - 1
    }
}

/// A bar that is created and then ticked for a lifetime or longer runs out
/// on exactly one of these ticks.
pub proof fn lemma_new_bar_runs_out_once(deltas: Seq<u64>) -> (k: int)
    requires
        total_ns(deltas) >= BAR_LIFETIME_NS,
    ensures
        0 <= k < deltas.len(),
        runs_out_on(deltas, k),
        forall|j: int| 0 <= j < deltas.len() && j != k ==> !runs_out_on(deltas, j),
{
    assert(deltas.take(deltas.len() as int) == deltas);
    let k = lemma_lifetime_is_crossed(deltas, deltas.len() as int);
    lemma_new_bar_runs_out_after_lifetime(deltas, k);
    assert forall|j: int| 0 <= j < deltas.len() && j != k implies !runs_out_on(deltas, j) by {
        lemma_new_bar_runs_out_after_lifetime(deltas, j);
        if j < k {
            lemma_total_grows(deltas, j + 1, k);
        } else {
            lemma_total_grows(deltas, k + 1, j);
        }
    }
    k
}

/// Starting a countdown over gives the bar a whole lifetime again, whatever had
/// passed before: after a reset, tick `k` of the ticks that follow is the one on
/// which the bar runs out exactly if less than the lifetime had passed since the
/// reset before that tick and at least the lifetime has passed with it. So a
/// bar that is reset five seconds after its creation is removed fifteen seconds
/// after its creation.
pub proof fn lemma_reset_restarts_lifetime(bar: DisplayHealthBar, deltas: Seq<u64>, k: int)
    requires
        0 <= k < deltas.len(),
    ensures
        bar.restarted().ticked_all(deltas.take(k)).expires_on(deltas[k]) <==> (total_ns(
            deltas.take(k),
        ) < BAR_LIFETIME_NS && BAR_LIFETIME_NS <= total_ns(deltas.take(k + 1))),
{
    lemma_new_bar_runs_out_after_lifetime(deltas, k);
}

} // verus!
