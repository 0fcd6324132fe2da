//! Meteors: the kinds there are, and the random choices made when one is
//! about to appear.

use bevy_turborand::RngComponent;
use vstd::prelude::*;

use crate::rng::draw_i32;
use crate::rng::sample_kind;

verus! {

/// A kind of meteor.
#[derive(Clone, Copy, Debug, PartialEq, Eq, Structural, Hash)]
pub enum MeteorKind {
    Big,
    Small,
}

impl MeteorKind {
    /// Width of the kind's sprite, in pixels.
    pub open spec fn spec_width(self) -> nat {
        match self {
            MeteorKind::Big => 192,
            MeteorKind::Small => 108,
        }
    }

    /// Height of the kind's sprite, in pixels.
    pub open spec fn spec_height(self) -> nat {
        match self {
            MeteorKind::Big => 156,
            MeteorKind::Small => 92,
        }
    }

    /// Width of the kind's sprite, in pixels.
    pub fn width(self) -> (width: u32)
        ensures
            width == self.spec_width(),
    {
        match self {
            MeteorKind::Big => 192,
            MeteorKind::Small => 108,
        }
    }

    /// Height of the kind's sprite, in pixels.
    pub fn height(self) -> (height: u32)
        ensures
            height == self.spec_height(),
    {
        match self {
            MeteorKind::Big => 156,
            MeteorKind::Small => 92,
        }
    }

    /// Name of the image file that holds the kind's sprite.
    pub fn texture(self) -> (name: &'static str)
        ensures
            name@ == (match self {
                MeteorKind::Big => "spr_meteor_big.png"@,
                MeteorKind::Small => "spr_meteor_small.png"@,
            }),
    {
        match self {
            MeteorKind::Big => "spr_meteor_big.png",
            MeteorKind::Small => "spr_meteor_small.png",
        }
    }

    /// Size at which the sprite is drawn, in hundredths of its own size.
    pub fn scale_percent(self) -> (percent: u32)
        ensures
            percent == 50,
    {
        50
    }
}

/// The kinds a new meteor is chosen from, in the order the game lists them.
pub fn meteor_kinds() -> (kinds: Vec<MeteorKind>)
    ensures
        kinds@ == seq![MeteorKind::Big, MeteorKind::Small],
{
    let mut kinds: Vec<MeteorKind> = Vec::new();
    kinds.push(MeteorKind::Big);
    kinds.push(MeteorKind::Small);
    kinds
}

/// Draws the kind of the next meteor from `kinds`.
///
/// Which kind comes out is up to the generator; it is always one of `kinds`.
pub fn pick_kind(rng: &mut RngComponent, kinds: &Vec<MeteorKind>) -> (kind: MeteorKind)
    requires
        kinds@.len() > 0,
    ensures
        kinds@.contains(kind),
{
    let picked = sample_kind(rng, kinds.as_slice());
    picked.unwrap()
}

/// Draws the horizontal position of the next meteor between the window's
/// left edge (included) and its right edge (excluded).
pub fn pick_column(rng: &mut RngComponent, left: i32, right: i32) -> (column: i32)
    requires
        left < right,
    ensures
        left <= column < right,
{
    draw_i32(rng, left, right)
}

} // verus!
