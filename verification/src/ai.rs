//! The discrete choices of an AI's tick: which behaviour drives it, and when
//! it counts as hemmed in.

use vstd::prelude::*;

verus! {

/// What drives an AI this tick.
#[derive(Clone, Copy, PartialEq, Eq, Debug, Structural)]
pub enum AiMode {
    /// A suicide AI charges the player.
    Charge,
    /// The AI turns slowly on the spot.
    Spin,
    /// The AI goes after the player, while its interest lasts.
    HuntPlayer,
    /// The AI flees, forages, hunts prey or follows its intent.
    Roam,
}

/// The behaviour of an AI: a suicide AI always charges; otherwise a spinning
/// AI keeps spinning; otherwise an AI that is not foraging and wants the
/// player hunts it; any other AI roams.
pub open spec fn mode_for(suicide: bool, spinning: bool, foraging: bool, wants_player: bool) -> AiMode {
    if suicide {
        AiMode::Charge
    } else if spinning {
        AiMode::Spin
    } else if !foraging && wants_player {
        AiMode::HuntPlayer
    } else {
        AiMode::Roam
    }
}

/// Which behaviour drives an AI this tick.
pub fn ai_mode(suicide: bool, spinning: bool, foraging: bool, wants_player: bool) -> (mode: AiMode)
    ensures
        mode == mode_for(suicide, spinning, foraging, wants_player),
{
    if suicide {
        AiMode::Charge
    } else if spinning {
        AiMode::Spin
    } else if !foraging && wants_player {
        AiMode::HuntPlayer
    } else {
        AiMode::Roam
    }
}

/// The size test that decides whether an AI goes after the player.
#[derive(Clone, Copy, PartialEq, Eq, Debug, Structural)]
pub enum HuntTest {
    /// The AI leaves the player alone.
    Never,
    /// It hunts when its radius exceeds the player's times the eat ratio.
    LargerByEatRatio,
    /// It hunts when its radius lies strictly between 1.12 and 1.55 times
    /// the player's.
    WithinHuntBand,
}

/// Which AIs may hunt the player: none while there is no player or while the
/// AI forages; a hunter when it can eat the player; a smart AI that has eaten
/// a bubble that is not a unit when it is somewhat, but not much, larger.
pub open spec fn hunt_rule(player_present: bool, foraging: bool, hunter: bool, smart: bool, ate_non_unit: bool) -> HuntTest {
    if !player_present || foraging {
        HuntTest::Never
    } else if hunter {
        HuntTest::LargerByEatRatio
    } else if smart && ate_non_unit {
        HuntTest::WithinHuntBand
    } else {
        HuntTest::Never
    }
}

/// The size test that decides whether an AI goes after the player.
pub fn hunt_test(player_present: bool, foraging: bool, hunter: bool, smart: bool, ate_non_unit: bool) -> (t: HuntTest)
    ensures
        t == hunt_rule(player_present, foraging, hunter, smart, ate_non_unit),
{
    if !player_present || foraging {
        HuntTest::Never
    } else if hunter {
        HuntTest::LargerByEatRatio
    } else if smart && ate_non_unit {
        HuntTest::WithinHuntBand
    } else {
        HuntTest::Never
    }
}

/// The quadrant, around an AI, of another bubble, by whether the other lies
/// to the right (`dx >= 0`) and below (`dy >= 0`): 0 right and below,
/// 1 left and below, 2 left and above, 3 right and above.
pub open spec fn quadrant_for(right: bool, below: bool) -> usize {
    if right && below {
        0
    } else if !right && below {
        1
    } else if !right && !below {
        2
    } else {
        3
    }
}

/// The quadrant in which another bubble lies.
pub fn quadrant_of(right: bool, below: bool) -> (q: usize)
    ensures
        q == quadrant_for(right, below),
        q < 4,
{
    if right && below {
        0
    } else if !right && below {
        1
    } else if !right && !below {
        2
    } else {
        3
    }
}

/// How many of the four quadrants hold a threat.
pub open spec fn quadrants_taken(q: [bool; 4]) -> int {
    (if q@[0] { 1int } else { 0 }) + (if q@[1] { 1int } else { 0 }) + (if q@[2] { 1int } else { 0 })
        + (if q@[3] { 1int } else { 0 })
}

/// An AI is hemmed in when larger bubbles lie in at least two quadrants
/// around it.
pub fn surrounded(q: [bool; 4]) -> (hemmed: bool)
    ensures
        hemmed == (quadrants_taken(q) >= 2),
{
    let mut n: usize = 0;
    let mut i: usize = 0;
    while i < 4
        invariant
            i <= 4,
            n == (if i > 0 && q@[0] { 1int } else { 0 }) + (if i > 1 && q@[1] { 1int } else { 0 })
                + (if i > 2 && q@[2] { 1int } else { 0 }) + (if i > 3 && q@[3] { 1int } else { 0 }),
        decreases 4 - i,
    {
        if q[i] {
            n = n + 1;
        }
        i = i + 1;
    }
    n >= 2
}

/// A foraging AI never hunts the player, whatever it is, and neither does
/// an AI when there is no player.
pub proof fn law_foraging_ai_leaves_player(
    suicide: bool,
    spinning: bool,
    player_present: bool,
    hunter: bool,
    smart: bool,
    ate_non_unit: bool,
    wants_player: bool,
)
    ensures
        hunt_rule(player_present, true, hunter, smart, ate_non_unit) == HuntTest::Never,
        hunt_rule(false, false, hunter, smart, ate_non_unit) == HuntTest::Never,
        mode_for(suicide, spinning, true, wants_player) != AiMode::HuntPlayer,
{
}

/// A suicide AI always charges the player, whatever else holds of it.
pub proof fn law_suicide_ai_always_charges(spinning: bool, foraging: bool, wants_player: bool)
    ensures
        mode_for(true, spinning, foraging, wants_player) == AiMode::Charge,
{
}

/// An AI that is not a suicide AI never charges; while spinning it spins;
/// otherwise it hunts the player exactly when it wants the player and is not
/// foraging, and roams in every other case.
pub proof fn law_modes_of_other_ais(spinning: bool, foraging: bool, wants_player: bool)
    ensures
        mode_for(false, spinning, foraging, wants_player) != AiMode::Charge,
        spinning ==> mode_for(false, spinning, foraging, wants_player) == AiMode::Spin,
        !spinning ==> (mode_for(false, spinning, foraging, wants_player) == AiMode::HuntPlayer
            <==> (wants_player && !foraging)),
        !spinning ==> (mode_for(false, spinning, foraging, wants_player) == AiMode::Roam <==> (
        !wants_player || foraging)),
{
}

/// With a player present and the AI not foraging, a hunter hunts it by the
/// eat ratio; any other AI hunts it within the hunt band exactly when it is
/// smart and has eaten a bubble that is not a unit.
pub proof fn law_who_hunts_the_player(hunter: bool, smart: bool, ate_non_unit: bool)
    ensures
        hunter ==> hunt_rule(true, false, hunter, smart, ate_non_unit) == HuntTest::LargerByEatRatio,
        !hunter ==> (hunt_rule(true, false, hunter, smart, ate_non_unit) == HuntTest::WithinHuntBand
            <==> (smart && ate_non_unit)),
        !hunter ==> hunt_rule(true, false, hunter, smart, ate_non_unit) != HuntTest::LargerByEatRatio,
{
}

/// The four placements of another bubble fall in four different quadrants,
/// numbered 0 to 3.
pub proof fn law_quadrants_are_distinct(r1: bool, b1: bool, r2: bool, b2: bool)
    ensures
        quadrant_for(r1, b1) < 4,
        quadrant_for(r1, b1) == quadrant_for(r2, b2) <==> (r1 == r2 && b1 == b2),
        quadrant_for(true, true) == 0,
        quadrant_for(false, true) == 1,
        quadrant_for(false, false) == 2,
        quadrant_for(true, false) == 3,
{
}

/// An AI is hemmed in exactly when two different quadrants around it hold a
/// threat; one threatened quadrant, or none, is not enough.
pub proof fn law_hemmed_in_by_two_quadrants(q: [bool; 4])
    ensures
        quadrants_taken(q) >= 2 <==> exists|i: int, j: int| 0 <= i < j < 4 && q@[i] && q@[j],
        quadrants_taken(q) == 0 <==> forall|i: int| 0 <= i < 4 ==> !q@[i],
        0 <= quadrants_taken(q) <= 4,
{
    if exists|i: int, j: int| 0 <= i < j < 4 && q@[i] && q@[j] {
        let (i, j) = choose|i: int, j: int| 0 <= i < j < 4 && q@[i] && q@[j];
        assert(quadrants_taken(q) >= 2);
    }
    if quadrants_taken(q) >= 2 {
        if q@[0] && q@[1] {
            assert(0 <= 0int < 1int < 4 && q@[0] && q@[1]);
        } else if q@[0] && q@[2] {
            assert(0 <= 0int < 2int < 4 && q@[0] && q@[2]);
        } else if q@[0] && q@[3] {
            assert(0 <= 0int < 3int < 4 && q@[0] && q@[3]);
        } else if q@[1] && q@[2] {
            assert(0 <= 1int < 2int < 4 && q@[1] && q@[2]);
        } else if q@[1] && q@[3] {
            assert(0 <= 1int < 3int < 4 && q@[1] && q@[3]);
        } else {
            assert(0 <= 2int < 3int < 4 && q@[2] && q@[3]);
        }
    }
    if quadrants_taken(q) == 0 {
        assert forall|i: int| 0 <= i < 4 implies !q@[i] by {
            if i == 0 {} else if i == 1 {} else if i == 2 {} else {}
        }
    }
}

} // verus!
