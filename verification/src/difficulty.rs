//! The difficulty oracle: one global target that only ever tightens.
//!
//! The target is halved on a count of accepted solutions: the acceptance that
//! brings the number mined since the last halving up to `halving_period`
//! triggers the next one. The clock only stamps the halving; it never causes
//! one. A period of one or less halves on every acceptance.

use vstd::prelude::*;

verus! {

/// The global target and the cadence that tightens it.
#[derive(Clone, Copy, Debug, PartialEq, Eq, Structural)]
pub struct Difficulty {
    /// A digest is accepted when its leading number is strictly below this.
    pub value: u128,
    /// When the target was created or last halved.
    pub last_update: i64,
    /// How many acceptances make one halving.
    pub halving_period: i64,
    /// Acceptances since the target was created or last halved.
    pub blocks_mined: u64,
}

/// Half of `value`, rounded down, but never a step from one to zero: a target
/// of one is the hardest there is, and zero, which accepts nothing, stays.
pub open spec fn halved(value: u128) -> u128 {
    if value <= 1 {
        value
    } else {
        value / 2
    }
}

/// A fresh oracle: the given target and cadence, nothing mined yet.
pub open spec fn genesis(target: u128, halving_period: i64, now: i64) -> Difficulty {
    Difficulty { value: target, last_update: now, halving_period, blocks_mined: 0 }
}

/// Whether the next acceptance completes a period.
pub open spec fn retarget_due(d: Difficulty) -> bool {
    d.blocks_mined + 1 >= d.halving_period
}

/// The oracle after one more accepted solution at time `now`.
pub open spec fn retargeted(d: Difficulty, now: i64) -> Difficulty {
    if retarget_due(d) {
        Difficulty {
            value: halved(d.value),
            last_update: now,
            halving_period: d.halving_period,
            blocks_mined: 0,
        }
    } else {
        Difficulty {
            value: d.value,
            last_update: d.last_update,
            halving_period: d.halving_period,
            blocks_mined: (d.blocks_mined + 1) as u64,
        }
    }
}

/// The oracle after a run of accepted solutions, one at each of `times`.
pub open spec fn after_acceptances(start: Difficulty, times: Seq<i64>) -> Difficulty
    decreases times.len(),
{
    if times.len() == 0 {
        start
    } else {
        retargeted(after_acceptances(start, times.drop_last()), times.last())
    }
}

impl Difficulty {
    /// The target in force.
    pub fn current_target(&self) -> (target: u128)
        ensures
            target == self.value,
    {
        self.value
    }
}

/// Builds the oracle's first state.
pub fn initialize_difficulty(target: u128, halving_period: i64, now: i64) -> (d: Difficulty)
    ensures
        d == genesis(target, halving_period, now),
{
    Difficulty { value: target, last_update: now, halving_period, blocks_mined: 0 }
}

/// Creates the one oracle in its slot. The slot must be empty: there is no
/// second genesis.
pub fn init_genesis(slot: &mut Option<Difficulty>, target: u128, halving_period: i64, now: i64)
    requires
        *old(slot) == None::<Difficulty>,
    ensures
        *final(slot) == Some(genesis(target, halving_period, now)),
{
    *slot = Some(initialize_difficulty(target, halving_period, now));
}

/// Counts one accepted solution and halves the target when the period is full.
pub fn update_difficulty(difficulty: &mut Difficulty, now: i64)
    ensures
        *final(difficulty) == retargeted(*old(difficulty), now),
{
    let period: i64 = difficulty.halving_period;
    let due: bool = period <= 1 || difficulty.blocks_mined >= (period - 1) as u64;
    if due {
        if difficulty.value > 1 {
            difficulty.value = difficulty.value / 2;
        }
        difficulty.last_update = now;
        difficulty.blocks_mined = 0;
    } else {
        difficulty.blocks_mined = difficulty.blocks_mined + 1;
    }
}

/// One acceptance never raises the target, and never takes a positive target
/// to zero.
pub proof fn lemma_retarget_never_eases(d: Difficulty, now: i64)
    ensures
        retargeted(d, now).value <= d.value,
        d.value >= 1 ==> retargeted(d, now).value >= 1,
        retargeted(d, now).halving_period == d.halving_period,
{
}

/// Over any run of accepted solutions the target never rises: after the whole
/// run it is at most what it was after any earlier part of the run, and so at
/// most the starting target.
pub proof fn lemma_difficulty_never_eases(start: Difficulty, times: Seq<i64>, earlier: int)
    requires
        0 <= earlier <= times.len(),
    ensures
        after_acceptances(start, times).value <= after_acceptances(
            start,
            times.take(earlier),
        ).value,
        after_acceptances(start, times).value <= start.value,
    decreases times.len(),
{
    if times.len() == 0 {
        assert(times.take(earlier) == times);
    } else {
        let front = times.drop_last();
        if earlier == times.len() {
            assert(times.take(earlier) == times);
            lemma_difficulty_never_eases(start, front, 0);
        } else {
            assert(front.take(earlier) == times.take(earlier));
            lemma_difficulty_never_eases(start, front, earlier);
        }
    }
}

/// A target that starts positive stays positive: halving stops at one.
pub proof fn lemma_target_floor(start: Difficulty, times: Seq<i64>)
    requires
        start.value >= 1,
    ensures
        after_acceptances(start, times).value >= 1,
    decreases times.len(),
{
    if times.len() > 0 {
        lemma_target_floor(start, times.drop_last());
    }
}

} // verus!
