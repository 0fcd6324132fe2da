//! The score of a run and the texts that show it.

use vstd::prelude::*;

use crate::text::decimal;
use crate::text::decimal_text;

verus! {

/// The score of the current run: the number of score periods survived.
#[derive(Clone, Copy, Debug, PartialEq, Eq, Structural)]
pub struct Scoreboard {
    score: usize,
}

impl View for Scoreboard {
    type V = nat;

    closed spec fn view(&self) -> nat {
        self.score as nat
    }
}

/// The text of the death screen for a score of `score`.
pub open spec fn final_score_line(score: nat) -> Seq<char> {
    "YOUR SCORE: "@ + decimal(score)
}

impl Scoreboard {
    /// The scoreboard of a run that has just begun.
    pub fn new() -> (board: Scoreboard)
        ensures
            board@ == 0,
    {
        Scoreboard { score: 0 }
    }

    /// A scoreboard that stands at `score`.
    pub fn with_score(score: usize) -> (board: Scoreboard)
        ensures
            board@ == score,
    {
        Scoreboard { score }
    }

    /// Starts counting again from zero.
    pub fn reset(&mut self)
        ensures
            final(self)@ == 0,
    {
        self.score = 0;
    }

    /// The current score.
    pub fn score(&self) -> (score: usize)
        ensures
            score == self@,
    {
        self.score
    }

    /// Accounts for one frame: the score goes up by one if the score timer
    /// completed a period during the frame, and stays otherwise.
    pub fn tick(&mut self, period_completed: bool)
        requires
            period_completed ==> old(self)@ < usize::MAX,
        ensures
            final(self)@ == old(self)@ + (if period_completed {
                1nat
            } else {
                0nat
            }),
    {
        if period_completed {
            self.score = self.score + 1;
        }
    }

    /// The score as shown while playing: the number in decimal.
    pub fn text(&self) -> (text: String)
        ensures
            text@ == decimal(self@),
    {
        decimal_text(self.score)
    }

    /// The line shown on the death screen.
    pub fn final_text(&self) -> (text: String)
        ensures
            text@ == final_score_line(self@),
    {
        let mut text = String::from_str("YOUR SCORE: ");
        let digits = decimal_text(self.score);
        text.append(digits.as_str());
        text
    }
}

} // verus!
