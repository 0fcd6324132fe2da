//! Hit points of the player and the damage rule.

use vstd::prelude::*;

verus! {

/// Hit points a player starts a run with.
pub const STARTING_HEALTH: usize = 5;

/// Hit points left after `hits` collisions, starting from `points`.
pub open spec fn health_after(points: nat, hits: nat) -> nat {
    if hits >= points {
        0
    } else {
        (points - hits) as nat
    }
}

/// Whether `hits` collisions take a player with `points` hit points from
/// alive to dead.
pub open spec fn dies_from(points: nat, hits: nat) -> bool {
    points > 0 && hits >= points
}

/// How many of `hits` collisions land on a player who is already dead.
pub open spec fn hits_on_dead(points: nat, hits: nat) -> nat {
    if hits > points {
        (hits - points) as nat
    } else {
        0
    }
}

/// What a single collision did to the player.
#[derive(Clone, Copy, Debug, PartialEq, Eq, Structural)]
pub enum HitOutcome {
    /// A hit point was lost and some remain.
    Survived,
    /// The last hit point was lost.
    Died,
    /// The player had no hit points left; nothing changed.
    AlreadyDead,
}

/// What a batch of collisions did to the player.
#[derive(Clone, Copy, Debug, PartialEq, Eq, Structural)]
pub struct DamageReport {
    /// Whether the batch took the last hit point.
    pub died: bool,
    /// Collisions that arrived once no hit points were left.
    pub ignored: usize,
}

/// The player's hit points.
#[derive(Clone, Copy, Debug, PartialEq, Eq, Structural)]
pub struct Health {
    points: usize,
}

impl View for Health {
    type V = nat;

    closed spec fn view(&self) -> nat {
        self.points as nat
    }
}

impl Health {
    /// A player with `points` hit points.
    pub fn new(points: usize) -> (health: Health)
        ensures
            health@ == points,
    {
        Health { points }
    }

    /// A player at the start of a run.
    pub fn full() -> (health: Health)
        ensures
            health@ == STARTING_HEALTH,
    {
        Health { points: STARTING_HEALTH }
    }

    /// Hit points left.
    pub fn points(&self) -> (points: usize)
        ensures
            points == self@,
    {
        self.points
    }

    /// Whether no hit points are left.
    pub fn is_dead(&self) -> (dead: bool)
        ensures
            dead <==> self@ == 0,
    {
        self.points == 0
    }

    /// Applies one collision: a living player loses one hit point, a dead one
    /// is left as it is.
    pub fn hit(&mut self) -> (outcome: HitOutcome)
        ensures
            final(self)@ == health_after(old(self)@, 1),
            outcome == (if old(self)@ == 0 {
                HitOutcome::AlreadyDead
            } else if old(self)@ == 1 {
                HitOutcome::Died
            } else {
                HitOutcome::Survived
            }),
    {
        if self.points > 0 {
            self.points = self.points - 1;
            if self.points == 0 {
                HitOutcome::Died
            } else {
                HitOutcome::Survived
            }
        } else {
            HitOutcome::AlreadyDead
        }
    }

    /// Applies `hits` collisions one after the other.
    ///
    /// The report says whether one of them took the last hit point, which can
    /// happen at most once, and how many arrived after that.
    pub fn apply_damage(&mut self, hits: usize) -> (report: DamageReport)
        ensures
            final(self)@ == health_after(old(self)@, hits as nat),
            report.died == dies_from(old(self)@, hits as nat),
            report.ignored == hits_on_dead(old(self)@, hits as nat),
    {
        let mut died: bool = false;
        let mut taken: usize = 0;
        while taken < hits && self.points > 0
            invariant
                taken <= hits,
                taken <= old(self)@,
                self@ == old(self)@ - taken,
                died <==> old(self)@ > 0 && taken == old(self)@,
            decreases hits - taken,
        {
            match self.hit() {
                HitOutcome::Died => {
                    died = true;
                },
                _ => {},
            }
            taken = taken + 1;
        }
        // Whatever is left of the batch finds the player dead.
        DamageReport { died, ignored: hits - taken }
    }
}

/// Damage never restores hit points.
pub proof fn damage_never_heals(points: nat, hits: nat)
    ensures
        health_after(points, hits) <= points,
        hits == 0 ==> health_after(points, hits) == points,
{
}

/// Two batches of collisions, applied one after the other, do what a single
/// batch of their combined size does: the same hit points remain, the same
/// number of collisions is ignored, and the player dies in at most one of the
/// two batches, exactly when the combined batch kills.
pub proof fn damage_in_two_batches(points: nat, first: nat, second: nat)
    ensures
        health_after(health_after(points, first), second) == health_after(points, first + second),
        hits_on_dead(points, first) + hits_on_dead(health_after(points, first), second)
            == hits_on_dead(points, first + second),
        dies_from(points, first + second) <==> dies_from(points, first) || dies_from(
            health_after(points, first),
            second,
        ),
        !(dies_from(points, first) && dies_from(health_after(points, first), second)),
{
}

/// Every collision is accounted for: it either took a hit point or was
/// ignored.
pub proof fn damage_accounts_for_every_hit(points: nat, hits: nat)
    ensures
        (points - health_after(points, hits)) + hits_on_dead(points, hits) == hits,
{
}

} // verus!
