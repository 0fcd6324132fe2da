//! The difficulty ramp: a counter that goes up each time the ramp timer
//! completes a period, read as the chance that a meteor appears.
//!
//! Chances are counted in thousandths, so that a level of 50 stands for a
//! chance of 0.05 per spawn attempt.

use vstd::prelude::*;

verus! {

/// Level at which a run begins.
pub const INITIAL_DIFFICULTY: u64 = 50;

/// By how much the level rises with each completed ramp period.
pub const DIFFICULTY_STEP: u64 = 1;

/// Largest value handed on as a spawn chance.
pub const SPAWN_CHANCE_LIMIT: u64 = 100_000;

/// The level reached from `level` after `periods` completed ramp periods.
/// The counter stops at the largest number it can hold.
pub open spec fn level_after(level: nat, periods: nat) -> nat {
    if level + periods * DIFFICULTY_STEP as nat > u64::MAX as nat {
        u64::MAX as nat
    } else {
        level + periods * DIFFICULTY_STEP as nat
    }
}

/// The chance, in thousandths, that goes with `level`: the level itself, cut
/// off at `SPAWN_CHANCE_LIMIT`.
pub open spec fn chance_at(level: nat) -> nat {
    if level > SPAWN_CHANCE_LIMIT as nat {
        SPAWN_CHANCE_LIMIT as nat
    } else {
        level
    }
}

/// How hard the current run has become.
#[derive(Clone, Copy, Debug, PartialEq, Eq, Structural)]
pub struct Difficulty {
    level: u64,
}

impl View for Difficulty {
    type V = nat;

    closed spec fn view(&self) -> nat {
        self.level as nat
    }
}

impl Difficulty {
    /// The difficulty of a run that has just begun.
    pub fn new() -> (difficulty: Difficulty)
        ensures
            difficulty@ == INITIAL_DIFFICULTY,
    {
        Difficulty { level: INITIAL_DIFFICULTY }
    }

    /// A difficulty that stands at `level` thousandths.
    pub fn at_level(level: u64) -> (difficulty: Difficulty)
        ensures
            difficulty@ == level,
    {
        Difficulty { level }
    }

    /// Goes back to the level at which a run begins.
    pub fn reset(&mut self)
        ensures
            final(self)@ == INITIAL_DIFFICULTY,
    {
        self.level = INITIAL_DIFFICULTY;
    }

    /// The current level, in thousandths.
    pub fn level(&self) -> (level: u64)
        ensures
            level == self@,
    {
        self.level
    }

    /// Accounts for one fixed step of the game: the level rises by
    /// `DIFFICULTY_STEP` if the ramp timer has completed a period, and stays
    /// otherwise.
    pub fn ramp(&mut self, period_completed: bool)
        ensures
            final(self)@ == level_after(
                old(self)@,
                if period_completed {
                    1nat
                } else {
                    0nat
                },
            ),
    {
        if period_completed {
            self.level = self.level.saturating_add(DIFFICULTY_STEP);
        }
    }

    /// The chance, in thousandths, that a meteor appears at the next spawn
    /// attempt.
    pub fn spawn_chance(&self) -> (chance: u64)
        ensures
            chance == chance_at(self@),
    {
        if self.level > SPAWN_CHANCE_LIMIT {
            SPAWN_CHANCE_LIMIT
        } else {
            self.level
        }
    }
}

/// Ramping in two stretches reaches the level of one stretch of their
/// combined length.
pub proof fn ramp_in_two_stretches(level: nat, first: nat, second: nat)
    requires
        level <= u64::MAX,
    ensures
        level_after(level_after(level, first), second) == level_after(level, first + second),
{
    assert((first + second) * DIFFICULTY_STEP as nat == first * DIFFICULTY_STEP as nat + second
        * DIFFICULTY_STEP as nat) by (nonlinear_arith);
}

/// The game never gets easier while a run lasts: neither the level nor the
/// spawn chance falls as periods go by, and the chance stays within its
/// limit.
pub proof fn ramp_never_eases(level: nat, earlier: nat, later: nat)
    requires
        level <= u64::MAX,
        earlier <= later,
    ensures
        level <= level_after(level, earlier) <= level_after(level, later),
        chance_at(level_after(level, earlier)) <= chance_at(level_after(level, later))
            <= SPAWN_CHANCE_LIMIT,
{
    assert(earlier * DIFFICULTY_STEP as nat <= later * DIFFICULTY_STEP as nat)
        by (nonlinear_arith)
        requires
            earlier <= later,
    ;
}

} // verus!
