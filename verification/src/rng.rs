//! The random source the game draws from, and the two draws the rules make.
//!
//! The generator belongs to `bevy_turborand`. Nothing in this file is proved:
//! each function states what the generator's own code guarantees of every
//! draw, and the rest of the library is proved against those statements.

use bevy_turborand::DelegatedRng;
use bevy_turborand::RngComponent;
use vstd::prelude::*;

use crate::meteor::MeteorKind;

verus! {

/// `bevy_turborand::RngComponent`, the per-entity random number generator.
/// Its state is hidden: a draw can be anything its contract allows.
#[verifier::external_type_specification]
#[verifier::external_body]
pub struct ExRngComponent(bevy_turborand::RngComponent);

/// `DelegatedRng::sample` on a slice of meteor kinds.
///
/// The generator returns nothing for an empty slice and otherwise a reference
/// to one of the slice's elements, chosen by index; the element is copied out.
#[verifier::external_body]
pub(crate) fn sample_kind(rng: &mut RngComponent, kinds: &[MeteorKind]) -> (picked: Option<
    MeteorKind,
>)
    ensures
        picked is None <==> kinds@.len() == 0,
        picked matches Some(kind) ==> kinds@.contains(kind),
{
    rng.sample(kinds).copied()
}

/// `DelegatedRng::i32` on the half-open range from `low` to `high`.
///
/// The generator panics when the range holds no value, so the range must be
/// non-empty; every value it returns lies inside the range.
#[verifier::external_body]
pub(crate) fn draw_i32(rng: &mut RngComponent, low: i32, high: i32) -> (value: i32)
    requires
        low < high,
    ensures
        low <= value < high,
{
    rng.i32(low..high)
}

} // verus!
