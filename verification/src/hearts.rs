//! The row of hearts that shows the player's hit points: where each heart
//! sits, and which hearts are gone.

use vstd::prelude::*;

use crate::health::Health;
use crate::health::STARTING_HEALTH;

verus! {

/// Horizontal distance, in pixels, between two neighbouring hearts.
pub const HEART_SPACING: usize = 25;

/// Side length of a heart, in pixels.
pub const HEART_SIZE: usize = 64;

/// A heart of the row: its slot, counted from the left, and the distance of
/// its left edge from the left edge of the window, in pixels.
#[derive(Clone, Copy, Debug, PartialEq, Eq, Structural)]
pub struct Heart {
    pub slot: usize,
    pub left: usize,
}

/// Distance of the heart in `slot` from the left edge of the window.
///
/// The row ends `HEART_SPACING * STARTING_HEALTH` pixels from the edge and
/// each heart sits one spacing further left per slot that follows it, which
/// puts the heart in `slot` at `HEART_SPACING * slot`.
pub fn heart_left(slot: usize) -> (left: usize)
    requires
        slot <= STARTING_HEALTH,
    ensures
        left == HEART_SPACING * slot,
{
    HEART_SPACING * STARTING_HEALTH - HEART_SPACING * (STARTING_HEALTH - slot)
}

/// The hearts shown at the start of a run, one per starting hit point, from
/// left to right.
pub fn heart_row() -> (row: Vec<Heart>)
    ensures
        row@.len() == STARTING_HEALTH,
        forall|i: int|
            0 <= i < row@.len() ==> (#[trigger] row@[i]).slot == i && row@[i].left == HEART_SPACING
                * i,
{
    let mut row: Vec<Heart> = Vec::new();
    let mut slot: usize = 0;
    while slot < STARTING_HEALTH
        invariant
            slot <= STARTING_HEALTH,
            row@.len() == slot,
            forall|i: int|
                0 <= i < row@.len() ==> (#[trigger] row@[i]).slot == i && row@[i].left
                    == HEART_SPACING * i,
        decreases STARTING_HEALTH - slot,
    {
        let left: usize = heart_left(slot);
        row.push(Heart { slot, left });
        slot = slot + 1;
    }
    row
}

/// Whether the heart in `slot` stands for a hit point that has been lost.
pub open spec fn is_spent(slot: nat, health: nat) -> bool {
    slot >= health
}

/// Whether the heart in `slot` is to be taken off the screen.
pub fn heart_is_spent(slot: usize, health: &Health) -> (spent: bool)
    ensures
        spent == is_spent(slot as nat, health@),
{
    slot >= health.points()
}

/// `picked` lists, in rising order, exactly the positions in `slots` whose
/// heart is spent at `health`.
pub open spec fn selects_spent(slots: Seq<usize>, health: nat, picked: Seq<usize>) -> bool {
    &&& forall|k: int|
        0 <= k < picked.len() ==> (#[trigger] picked[k]) < slots.len() && is_spent(
            slots[picked[k] as int] as nat,
            health,
        )
    &&& forall|j: int, k: int| 0 <= j < k < picked.len() ==> picked[j] < picked[k]
    &&& forall|i: int|
        0 <= i < slots.len() && is_spent(#[trigger] slots[i] as nat, health) ==> picked.contains(
            i as usize,
        )
}

/// Positions, within `slots`, of the hearts to take off the screen.
///
/// `slots` holds the slot of each heart that is still shown, in any order
/// and possibly with repeats; the result points into it.
pub fn spent_hearts(slots: &Vec<usize>, health: &Health) -> (picked: Vec<usize>)
    ensures
        selects_spent(slots@, health@, picked@),
{
    let mut picked: Vec<usize> = Vec::new();
    let mut position: usize = 0;
    while position < slots.len()
        invariant
            position <= slots@.len(),
            forall|k: int|
                0 <= k < picked@.len() ==> (#[trigger] picked@[k]) < position && is_spent(
                    slots@[picked@[k] as int] as nat,
                    health@,
                ),
            forall|j: int, k: int| 0 <= j < k < picked@.len() ==> picked@[j] < picked@[k],
            forall|i: int|
                0 <= i < position && is_spent(#[trigger] slots@[i] as nat, health@)
                    ==> picked@.contains(i as usize),
        decreases slots@.len() - position,
    {
        if heart_is_spent(slots[position], health) {
            let ghost before = picked@;
            picked.push(position);
            proof {
                assert(picked@[before.len() as int] == position);
                assert forall|i: int|
                    0 <= i < position + 1 && is_spent(
                        #[trigger] slots@[i] as nat,
                        health@,
                    ) implies picked@.contains(i as usize) by {
                    if i < position {
                        let k = choose|k: int| 0 <= k < before.len() && before[k] == i as usize;
                        assert(picked@[k] == i as usize);
                    }
                }
            }
        }
        position = position + 1;
    }
    picked
}

/// Two selections of the spent hearts of the same row are the same
/// selection.
pub proof fn spent_selection_is_unique(
    slots: Seq<usize>,
    health: nat,
    first: Seq<usize>,
    second: Seq<usize>,
)
    requires
        selects_spent(slots, health, first),
        selects_spent(slots, health, second),
    ensures
        first == second,
    decreases first.len() + second.len(),
{
    if first.len() == 0 && second.len() == 0 {
        assert(first =~= second);
    } else {
        // Both list the same set of positions, so both are non-empty and end
        // with the largest of them.
        if first.len() == 0 {
            let p = second[0];
            assert(is_spent(slots[p as int] as nat, health));
            assert(first.contains(p));
        }
        if second.len() == 0 {
            let p = first[0];
            assert(is_spent(slots[p as int] as nat, health));
            assert(second.contains(p));
        }
        let a = first.last();
        let b = second.last();
        assert(is_spent(slots[a as int] as nat, health));
        assert(is_spent(slots[b as int] as nat, health));
        assert(second.contains(a));
        assert(first.contains(b));
        let ia = choose|k: int| 0 <= k < second.len() && second[k] == a;
        let ib = choose|k: int| 0 <= k < first.len() && first[k] == b;
        assert(a == b) by {
            if ia < second.len() - 1 {
                assert(second[ia] < second[second.len() - 1]);
            }
            if ib < first.len() - 1 {
                assert(first[ib] < first[first.len() - 1]);
            }
        }
        // Without that position, the shorter lists select the spent hearts
        // of the row cut off just before it.
        let cut = slots.take(a as int);
        let f = first.drop_last();
        let s = second.drop_last();
        assert(selects_spent(cut, health, f)) by {
            assert forall|k: int| 0 <= k < f.len() implies (#[trigger] f[k]) < cut.len()
                && is_spent(cut[f[k] as int] as nat, health) by {
                assert(f[k] == first[k]);
                assert(first[k] < first[first.len() - 1]);
            }
            assert forall|i: int|
                0 <= i < cut.len() && is_spent(#[trigger] cut[i] as nat, health) implies f.contains(
                i as usize,
            ) by {
                assert(cut[i] == slots[i]);
                assert(first.contains(i as usize));
                let k = choose|k: int| 0 <= k < first.len() && first[k] == i as usize;
                assert(k < first.len() - 1);
                assert(f[k] == i as usize);
            }
        }
        assert(selects_spent(cut, health, s)) by {
            assert forall|k: int| 0 <= k < s.len() implies (#[trigger] s[k]) < cut.len()
                && is_spent(cut[s[k] as int] as nat, health) by {
                assert(s[k] == second[k]);
                assert(second[k] < second[second.len() - 1]);
            }
            assert forall|i: int|
                0 <= i < cut.len() && is_spent(#[trigger] cut[i] as nat, health) implies s.contains(
                i as usize,
            ) by {
                assert(cut[i] == slots[i]);
                assert(second.contains(i as usize));
                let k = choose|k: int| 0 <= k < second.len() && second[k] == i as usize;
                assert(k < second.len() - 1);
                assert(s[k] == i as usize);
            }
        }
        spent_selection_is_unique(cut, health, f, s);
        assert(first =~= f.push(a));
        assert(second =~= s.push(b));
    }
}

/// Of a row that shows one heart per slot, in order, the spent hearts are
/// the last ones, and as many hearts stay on screen as hit points are left.
pub proof fn hearts_left_match_health(slots: Seq<usize>, health: nat, picked: Seq<usize>)
    requires
        slots.len() <= usize::MAX,
        forall|i: int| 0 <= i < slots.len() ==> slots[i] == i,
        health <= slots.len(),
        selects_spent(slots, health, picked),
    ensures
        slots.len() - picked.len() == health,
        forall|k: int| 0 <= k < picked.len() ==> picked[k] == health + k,
{
    let last = Seq::new((slots.len() - health) as nat, |k: int| (health + k) as usize);
    assert(selects_spent(slots, health, last)) by {
        assert forall|k: int| 0 <= k < last.len() implies (#[trigger] last[k]) < slots.len()
            && is_spent(slots[last[k] as int] as nat, health) by {
            assert(last[k] == health + k);
            assert(slots[health + k] == health + k);
        }
        assert forall|i: int|
            0 <= i < slots.len() && is_spent(#[trigger] slots[i] as nat, health) implies last.contains(
            i as usize,
        ) by {
            assert(slots[i] == i);
            assert(last[i - health] == i as usize);
        }
    }
    spent_selection_is_unique(slots, health, picked, last);
    assert forall|k: int| 0 <= k < picked.len() implies picked[k] == health + k by {
        assert(picked[k] == last[k]);
    }
}

} // verus!
