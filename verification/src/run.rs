//! The start of a run: what is put back to its beginning and what the
//! player is given.

use vstd::prelude::*;

use crate::animation::FrameCycle;
use crate::animation::PLAYER_START_FRAME;
use crate::difficulty::Difficulty;
use crate::difficulty::INITIAL_DIFFICULTY;
use crate::health::Health;
use crate::health::STARTING_HEALTH;
use crate::hearts::heart_row;
use crate::hearts::Heart;
use crate::hearts::HEART_SPACING;
use crate::score::Scoreboard;

verus! {

/// Width of one frame of the player's sprite sheet, in pixels.
pub const PLAYER_FRAME_WIDTH: u32 = 150;

/// Height of one frame of the player's sprite sheet, in pixels.
pub const PLAYER_FRAME_HEIGHT: u32 = 250;

/// Number of frames on the player's sprite sheet, laid out in one row.
pub const PLAYER_SHEET_FRAMES: usize = 5;

/// What a run begins with.
#[derive(Debug)]
pub struct RunStart {
    /// The player's hit points.
    pub health: Health,
    /// The frames the player's sprite plays through.
    pub cycle: FrameCycle,
    /// The frame the player's sprite shows first.
    pub frame: usize,
    /// The hearts to show, from left to right.
    pub hearts: Vec<Heart>,
}

/// Begins a run: difficulty and score go back to where they start, and the
/// player gets full health, the sprite's animation and a full row of hearts.
pub fn start_run(difficulty: &mut Difficulty, scoreboard: &mut Scoreboard) -> (start: RunStart)
    ensures
        final(difficulty)@ == INITIAL_DIFFICULTY,
        final(scoreboard)@ == 0,
        start.health@ == STARTING_HEALTH,
        start.cycle.first() == 0,
        start.cycle.last() + 1 == PLAYER_SHEET_FRAMES,
        start.frame == PLAYER_START_FRAME,
        start.hearts@.len() == STARTING_HEALTH,
        forall|i: int|
            0 <= i < start.hearts@.len() ==> (#[trigger] start.hearts@[i]).slot == i
                && start.hearts@[i].left == HEART_SPACING * i,
{
    difficulty.reset();
    scoreboard.reset();
    RunStart {
        health: Health::full(),
        cycle: FrameCycle::player(),
        frame: PLAYER_START_FRAME,
        hearts: heart_row(),
    }
}

} // verus!
