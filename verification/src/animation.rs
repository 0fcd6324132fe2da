//! Sprite-sheet animation: which frame follows which.

use vstd::prelude::*;

verus! {

/// Frame the player's sprite shows when a run begins.
pub const PLAYER_START_FRAME: usize = 1;

/// A run of frames on a sprite sheet that is played over and over, from
/// `first` up to `last` and then from `first` again.
#[derive(Clone, Copy, Debug, PartialEq, Eq, Structural)]
pub struct FrameCycle {
    first: usize,
    last: usize,
}

impl FrameCycle {
    /// The frame the cycle starts over from.
    pub closed spec fn first(&self) -> nat {
        self.first as nat
    }

    /// The frame after which the cycle starts over.
    pub closed spec fn last(&self) -> nat {
        self.last as nat
    }

    /// The frame that follows `frame`.
    pub open spec fn following(&self, frame: nat) -> nat {
        if frame >= self.last() {
            self.first()
        } else {
            frame + 1
        }
    }

    /// The frame reached from `frame` after `steps` steps.
    pub open spec fn after(&self, frame: nat, steps: nat) -> nat
        decreases steps,
    {
        if steps == 0 {
            frame
        } else {
            self.following(self.after(frame, (steps - 1) as nat))
        }
    }

    /// Whether `frame` is one of the frames of the cycle.
    pub open spec fn holds(&self, frame: nat) -> bool {
        self.first() <= frame <= self.last()
    }

    /// Number of frames in the cycle, if it has any.
    pub open spec fn length(&self) -> nat
        recommends
            self.first() <= self.last(),
    {
        (self.last() - self.first() + 1) as nat
    }

    /// A cycle over the frames from `first` to `last`.
    pub fn new(first: usize, last: usize) -> (cycle: FrameCycle)
        ensures
            cycle.first() == first,
            cycle.last() == last,
    {
        FrameCycle { first, last }
    }

    /// The cycle of the player's sprite: frames 0 to 4.
    pub fn player() -> (cycle: FrameCycle)
        ensures
            cycle.first() == 0,
            cycle.last() == 4,
    {
        FrameCycle { first: 0, last: 4 }
    }

    /// The frame the cycle starts over from.
    pub fn first_frame(&self) -> (frame: usize)
        ensures
            frame == self.first(),
    {
        self.first
    }

    /// The frame after which the cycle starts over.
    pub fn last_frame(&self) -> (frame: usize)
        ensures
            frame == self.last(),
    {
        self.last
    }

    /// The frame to show after `frame`.
    pub fn next(&self, frame: usize) -> (next: usize)
        ensures
            next == self.following(frame as nat),
    {
        if frame >= self.last {
            self.first
        } else {
            frame + 1
        }
    }

    /// The frame to show once a frame of the game has passed: the next one
    /// if the animation timer completed a period, the same one otherwise.
    pub fn advance(&self, frame: usize, period_completed: bool) -> (shown: usize)
        ensures
            shown == (if period_completed {
                self.following(frame as nat)
            } else {
                frame as nat
            }),
    {
        if period_completed {
            self.next(frame)
        } else {
            frame
        }
    }
}

/// A frame of the cycle is followed by a frame of the cycle.
pub proof fn cycle_keeps_its_frames(cycle: FrameCycle, frame: nat, steps: nat)
    requires
        cycle.holds(frame),
    ensures
        cycle.holds(cycle.after(frame, steps)),
    decreases steps,
{
    if steps > 0 {
        cycle_keeps_its_frames(cycle, frame, (steps - 1) as nat);
    }
}

/// Where a frame of the cycle ends up after any number of steps: as many
/// places further along as steps were taken, counted round the cycle.
pub proof fn cycle_position(cycle: FrameCycle, frame: nat, steps: nat)
    requires
        cycle.holds(frame),
    ensures
        cycle.after(frame, steps) == cycle.first() + (frame - cycle.first() + steps)
            % cycle.length() as int,
    decreases steps,
{
    let length = cycle.length() as int;
    let offset = frame - cycle.first();
    if steps == 0 {
        assert(offset % length == offset) by (nonlinear_arith)
            requires
                0 <= offset < length,
        ;
    } else {
        cycle_position(cycle, frame, (steps - 1) as nat);
        let before = (offset + steps - 1) % length;
        assert(0 <= before < length && (offset + steps) % length == (if before == length - 1 {
            0
        } else {
            before + 1
        })) by (nonlinear_arith)
            requires
                length > 0,
                before == (offset + steps - 1) % length,
        ;
    }
}

/// Playing a whole cycle brings every frame of it back to itself.
pub proof fn cycle_comes_round(cycle: FrameCycle, frame: nat)
    requires
        cycle.holds(frame),
    ensures
        cycle.after(frame, cycle.length()) == frame,
{
    cycle_position(cycle, frame, cycle.length());
    let length = cycle.length() as int;
    let offset = frame - cycle.first();
    assert((offset + length) % length == offset) by (nonlinear_arith)
        requires
            0 <= offset < length,
    ;
}

} // verus!
