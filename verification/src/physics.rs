//! Who may expel energy for a burst of speed.

use vstd::prelude::*;
use crate::bubble::BubbleKind;

verus! {

/// The condition under which a bubble may expel energy.
#[derive(Clone, Copy, PartialEq, Eq, Debug, Structural)]
pub enum ExpelRequirement {
    /// The bubble can never expel.
    Never,
    /// The bubble may expel now.
    Allowed,
    /// The bubble may expel once its energy is above its starting energy by
    /// more than one percent; the caller compares the energies.
    EnergyAboveStart,
}

/// The expel rule by kind: the player may expel once it has eaten anything,
/// an AI once it has eaten a bubble that is not a unit.
pub open spec fn expel_rule(kind: BubbleKind, ate_non_unit: bool) -> ExpelRequirement {
    match kind {
        BubbleKind::Player => ExpelRequirement::EnergyAboveStart,
        BubbleKind::Ai => if ate_non_unit {
            ExpelRequirement::Allowed
        } else {
            ExpelRequirement::Never
        },
        _ => ExpelRequirement::Never,
    }
}

/// Under which condition a bubble of `kind` may expel energy.
pub fn expel_requirement(kind: BubbleKind, ate_non_unit: bool) -> (req: ExpelRequirement)
    ensures
        req == expel_rule(kind, ate_non_unit),
{
    match kind {
        BubbleKind::Player => ExpelRequirement::EnergyAboveStart,
        BubbleKind::Ai => if ate_non_unit {
            ExpelRequirement::Allowed
        } else {
            ExpelRequirement::Never
        },
        _ => ExpelRequirement::Never,
    }
}

/// Units and remains never expel energy.
pub proof fn law_food_never_expels(kind: BubbleKind, ate_non_unit: bool)
    requires
        kind == BubbleKind::Unit || kind == BubbleKind::Remains,
    ensures
        expel_rule(kind, ate_non_unit) == ExpelRequirement::Never,
{
}

/// The player may always expel once its energy is above its starting
/// energy, whatever it has eaten; an AI may expel exactly when it has eaten a
/// bubble that is not a unit.
pub proof fn law_who_may_expel(ate_non_unit: bool)
    ensures
        expel_rule(BubbleKind::Player, ate_non_unit) == ExpelRequirement::EnergyAboveStart,
        expel_rule(BubbleKind::Ai, ate_non_unit) == ExpelRequirement::Allowed <==> ate_non_unit,
        expel_rule(BubbleKind::Ai, ate_non_unit) != ExpelRequirement::EnergyAboveStart,
{
}

} // verus!
