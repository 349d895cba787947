//! Kinds of bubbles, the eating rules between them, and the colour of remains.

use vstd::prelude::*;

verus! {

/// What a bubble is.
#[derive(Clone, Copy, PartialEq, Eq, Debug, Structural)]
pub enum BubbleKind {
    Player,
    Ai,
    Unit,
    /// A still block of energy left behind by a death or an eat.
    Remains,
}

/// The size test that decides whether an eater may eat another bubble.
///
/// The radii themselves are not known here: the caller measures them and
/// applies the test named.
#[derive(Clone, Copy, PartialEq, Eq, Debug, Structural)]
pub enum EatRequirement {
    /// Never edible.
    Never,
    /// Always edible.
    Always,
    /// Edible when the eater's radius exceeds the other's times the eat ratio.
    LargerByEatRatio,
    /// Edible when the eater's radius exceeds the other's.
    Larger,
    /// Edible when the eater's radius exceeds the player's times the ratio an
    /// AI needs to eat the player.
    LargerByPlayerRatio,
}

/// The eating rule between an eater and another bubble, by their identities,
/// kinds and whether the eater has already eaten a bubble that is not a unit.
/// A player that has eaten nothing but units eats only units; remains go to
/// any other eater larger than them by the eat ratio.
pub open spec fn eat_rule(
    eater_id: u32,
    eater_kind: BubbleKind,
    eater_ate_non_unit: bool,
    other_id: u32,
    other_kind: BubbleKind,
) -> EatRequirement {
    if eater_id == other_id {
        EatRequirement::Never
    } else if other_kind == BubbleKind::Unit {
        EatRequirement::Always
    } else if eater_kind == BubbleKind::Player && !eater_ate_non_unit {
        EatRequirement::Never
    } else if other_kind == BubbleKind::Remains {
        EatRequirement::LargerByEatRatio
    } else if eater_kind == BubbleKind::Player && other_kind == BubbleKind::Ai {
        EatRequirement::Larger
    } else if eater_kind == BubbleKind::Ai && other_kind == BubbleKind::Player {
        EatRequirement::LargerByPlayerRatio
    } else {
        EatRequirement::LargerByEatRatio
    }
}

/// Which size test decides whether the eater may eat the other bubble.
pub fn eat_requirement(
    eater_id: u32,
    eater_kind: BubbleKind,
    eater_ate_non_unit: bool,
    other_id: u32,
    other_kind: BubbleKind,
) -> (req: EatRequirement)
    ensures
        req == eat_rule(eater_id, eater_kind, eater_ate_non_unit, other_id, other_kind),
{
    if eater_id == other_id {
        EatRequirement::Never
    } else if other_kind == BubbleKind::Unit {
        EatRequirement::Always
    } else if eater_kind == BubbleKind::Player && !eater_ate_non_unit {
        EatRequirement::Never
    } else if other_kind == BubbleKind::Remains {
        EatRequirement::LargerByEatRatio
    } else if eater_kind == BubbleKind::Player && other_kind == BubbleKind::Ai {
        EatRequirement::Larger
    } else if eater_kind == BubbleKind::Ai && other_kind == BubbleKind::Player {
        EatRequirement::LargerByPlayerRatio
    } else {
        EatRequirement::LargerByEatRatio
    }
}

/// No bubble can eat itself.
pub proof fn law_no_self_eating(id: u32, kind: BubbleKind, ate_non_unit: bool, other_kind: BubbleKind)
    ensures
        eat_rule(id, kind, ate_non_unit, id, other_kind) == EatRequirement::Never,
{
}

/// Any bubble may eat any other unit bubble, whatever their sizes.
pub proof fn law_units_always_edible(
    eater_id: u32,
    eater_kind: BubbleKind,
    ate_non_unit: bool,
    other_id: u32,
)
    requires
        eater_id != other_id,
    ensures
        eat_rule(eater_id, eater_kind, ate_non_unit, other_id, BubbleKind::Unit)
            == EatRequirement::Always,
{
}

/// Until the player has eaten a bubble that is not a unit, it eats only unit
/// bubbles: no remains, no AI.
pub proof fn law_fresh_player_eats_only_units(player_id: u32, other_id: u32, other_kind: BubbleKind)
    requires
        other_kind != BubbleKind::Unit,
    ensures
        eat_rule(player_id, BubbleKind::Player, false, other_id, other_kind)
            == EatRequirement::Never,
{
}

/// Once the player has eaten a bubble that is not a unit, it may eat any AI
/// that is smaller than it.
pub proof fn law_grown_player_eats_smaller_ai(player_id: u32, ai_id: u32)
    requires
        player_id != ai_id,
    ensures
        eat_rule(player_id, BubbleKind::Player, true, ai_id, BubbleKind::Ai)
            == EatRequirement::Larger,
{
}

/// An AI may eat the player once its radius exceeds the player's by the
/// player ratio, whether or not it has eaten a bubble that is not a unit
/// (hunters and suicide AIs start so marked).
pub proof fn law_ai_eats_player_by_player_ratio(ai_id: u32, ate_non_unit: bool, player_id: u32)
    requires
        ai_id != player_id,
    ensures
        eat_rule(ai_id, BubbleKind::Ai, ate_non_unit, player_id, BubbleKind::Player)
            == EatRequirement::LargerByPlayerRatio,
{
}

/// Any eater other than a player that has eaten only units may eat remains
/// smaller than it by the eat ratio.
pub proof fn law_remains_by_eat_ratio(eater_id: u32, eater_kind: BubbleKind, ate_non_unit: bool, other_id: u32)
    requires
        eater_id != other_id,
        eater_kind != BubbleKind::Player || ate_non_unit,
    ensures
        eat_rule(eater_id, eater_kind, ate_non_unit, other_id, BubbleKind::Remains)
            == EatRequirement::LargerByEatRatio,
{
}

/// Between AIs, and between any eater that is not the player and another
/// bubble that is not a unit, the eat ratio decides, except that an AI
/// facing the player uses the player ratio.
pub proof fn law_others_eat_by_eat_ratio(
    eater_id: u32,
    eater_kind: BubbleKind,
    ate_non_unit: bool,
    other_id: u32,
    other_kind: BubbleKind,
)
    requires
        eater_id != other_id,
        eater_kind != BubbleKind::Player,
        other_kind != BubbleKind::Unit,
        !(eater_kind == BubbleKind::Ai && other_kind == BubbleKind::Player),
    ensures
        eat_rule(eater_id, eater_kind, ate_non_unit, other_id, other_kind)
            == EatRequirement::LargerByEatRatio,
{
}

/// A player that has eaten a bubble that is not a unit eats another player
/// by the eat ratio.
pub proof fn law_grown_player_eats_player_by_eat_ratio(a: u32, b: u32)
    requires
        a != b,
    ensures
        eat_rule(a, BubbleKind::Player, true, b, BubbleKind::Player) == EatRequirement::LargerByEatRatio,
{
}

/// Every eat rule is one of: never for oneself; always for units; otherwise a
/// size test or never, and never only for a player that has eaten only units.
pub proof fn law_never_only_for_self_or_fresh_player(
    eater_id: u32,
    eater_kind: BubbleKind,
    ate_non_unit: bool,
    other_id: u32,
    other_kind: BubbleKind,
)
    ensures
        eat_rule(eater_id, eater_kind, ate_non_unit, other_id, other_kind) == EatRequirement::Never
            <==> (eater_id == other_id || (other_kind != BubbleKind::Unit && eater_kind
            == BubbleKind::Player && !ate_non_unit)),
        eat_rule(eater_id, eater_kind, ate_non_unit, other_id, other_kind) == EatRequirement::Always
            <==> (eater_id != other_id && other_kind == BubbleKind::Unit),
        eat_rule(eater_id, eater_kind, ate_non_unit, other_id, other_kind) == EatRequirement::Larger
            <==> (eater_id != other_id && eater_kind == BubbleKind::Player && ate_non_unit
            && other_kind == BubbleKind::Ai),
{
}

/// How the eaten bubble's energy is credited to its eater.
#[derive(Clone, Copy, PartialEq, Eq, Debug, Structural)]
pub enum EnergyGain {
    /// The unit's energy times the unit gain factor.
    UnitBonus,
    /// All of the eaten energy.
    Whole,
    /// The absorbed share of the eaten energy; the rest is left as remains.
    AbsorbedShare,
}

/// What eating a bubble of a given kind does besides removing it.
#[derive(Clone, Copy, PartialEq, Eq, Debug, Structural)]
pub struct EatOutcome {
    /// How the eater's energy grows.
    pub gain: EnergyGain,
    /// Whether the eater now counts as having eaten a bubble that is not a unit.
    pub marks_non_unit: bool,
    /// Whether part of the eaten energy is scattered as remains.
    pub leaves_remains: bool,
}

/// The effect of eating a bubble of kind `eaten`: eating an AI or the player
/// marks the eater as having eaten a bubble that is not a unit; eating units
/// or remains does not.
pub open spec fn eat_effect(eaten: BubbleKind) -> EatOutcome {
    match eaten {
        BubbleKind::Unit => EatOutcome {
            gain: EnergyGain::UnitBonus,
            marks_non_unit: false,
            leaves_remains: false,
        },
        BubbleKind::Remains => EatOutcome {
            gain: EnergyGain::Whole,
            marks_non_unit: false,
            leaves_remains: false,
        },
        BubbleKind::Player | BubbleKind::Ai => EatOutcome {
            gain: EnergyGain::AbsorbedShare,
            marks_non_unit: true,
            leaves_remains: true,
        },
    }
}

/// What eating a bubble of kind `eaten` does to the eater and the map.
pub fn eat_outcome(eaten: BubbleKind) -> (out: EatOutcome)
    ensures
        out == eat_effect(eaten),
{
    match eaten {
        BubbleKind::Unit => EatOutcome {
            gain: EnergyGain::UnitBonus,
            marks_non_unit: false,
            leaves_remains: false,
        },
        BubbleKind::Remains => EatOutcome {
            gain: EnergyGain::Whole,
            marks_non_unit: false,
            leaves_remains: false,
        },
        BubbleKind::Player | BubbleKind::Ai => EatOutcome {
            gain: EnergyGain::AbsorbedShare,
            marks_non_unit: true,
            leaves_remains: true,
        },
    }
}

/// Only eating an AI or the player marks the eater as having eaten a bubble
/// that is not a unit; a player so marked may eat any smaller AI.
pub proof fn law_eating_an_ai_unlocks_ai(player_id: u32, ai_id: u32, eaten: BubbleKind)
    requires
        player_id != ai_id,
    ensures
        eat_effect(eaten).marks_non_unit <==> (eaten == BubbleKind::Ai || eaten == BubbleKind::Player),
        eat_effect(eaten).marks_non_unit ==> eat_rule(player_id, BubbleKind::Player, true, ai_id, BubbleKind::Ai)
            == EatRequirement::Larger,
{
}

/// Eating a unit gives the unit bonus, eating remains all their energy, and
/// eating an AI or the player the absorbed share with the rest left as
/// remains; only the last two leave remains.
pub proof fn law_eat_gains_by_kind(eaten: BubbleKind)
    ensures
        eat_effect(eaten).gain == EnergyGain::UnitBonus <==> eaten == BubbleKind::Unit,
        eat_effect(eaten).gain == EnergyGain::Whole <==> eaten == BubbleKind::Remains,
        eat_effect(eaten).gain == EnergyGain::AbsorbedShare <==> (eaten == BubbleKind::Ai || eaten
            == BubbleKind::Player),
        eat_effect(eaten).leaves_remains <==> (eaten == BubbleKind::Ai || eaten == BubbleKind::Player),
{
}

/// Whether a size test passes for an eater of radius `eater_r` and another
/// bubble of radius `other_r`, both taken exactly in one unit; the eat ratio
/// and the ratio an AI needs to eat the player are both 105/100.
pub open spec fn passes(req: EatRequirement, eater_r: int, other_r: int) -> bool {
    match req {
        EatRequirement::Never => false,
        EatRequirement::Always => true,
        EatRequirement::LargerByEatRatio => 100 * eater_r > 105 * other_r,
        EatRequirement::Larger => eater_r > other_r,
        EatRequirement::LargerByPlayerRatio => 100 * eater_r > 105 * other_r,
    }
}

/// Two bubbles that are not units can never eat each other: every rule
/// between them asks the eater to be strictly larger, or forbids the eat.
pub proof fn law_no_mutual_eating(
    a_id: u32,
    a_kind: BubbleKind,
    a_ate_non_unit: bool,
    a_r: int,
    b_id: u32,
    b_kind: BubbleKind,
    b_ate_non_unit: bool,
    b_r: int,
)
    requires
        a_kind != BubbleKind::Unit,
        b_kind != BubbleKind::Unit,
        a_r >= 0,
        b_r >= 0,
    ensures
        !(passes(eat_rule(a_id, a_kind, a_ate_non_unit, b_id, b_kind), a_r, b_r) && passes(
            eat_rule(b_id, b_kind, b_ate_non_unit, a_id, a_kind),
            b_r,
            a_r,
        )),
{
}

/// The number of binary digits of `x`.
pub open spec fn bit_len(x: nat) -> nat
    decreases x,
{
    if x == 0 {
        0
    } else {
        1 + bit_len(x / 2)
    }
}

/// Two to the power `n`.
pub open spec fn exp2(n: nat) -> nat
    decreases n,
{
    if n == 0 {
        1
    } else {
        2 * exp2((n - 1) as nat)
    }
}

/// `x` rounded to its 53 leading binary digits, ties to even: the rounding
/// of a double-precision number, for a value held as an integer count of a
/// fixed power-of-two fraction.
pub open spec fn round_to_double(x: nat) -> nat {
    if bit_len(x) <= 53 {
        x
    } else {
        let unit = exp2((bit_len(x) - 53) as nat);
        let q = x / unit;
        let rem = x % unit;
        if rem > unit / 2 || (rem == unit / 2 && q % 2 == 1) {
            (q + 1) * unit
        } else {
            q * unit
        }
    }
}

/// One, as a multiple of 2^-60: the fixed-point scale in which the
/// luminance below is computed exactly.
pub const FIXED_ONE: u128 = 0x1000_0000_0000_0000;

/// The double-precision weights 0.299, 0.587 and 0.114 of the red, green and
/// blue channels in luminance, as exact multiples of 2^-60.
pub const WEIGHT_RED: u128 = 344723529877447232;

pub const WEIGHT_GREEN: u128 = 676764923204219136;

pub const WEIGHT_BLUE: u128 = 131433051525180560;

/// The luminance of a colour as the game computes it in double precision:
/// `r * 0.299 + g * 0.587 + b * 0.114`, each product and each sum rounded to
/// the nearest double, the total truncated to an integer and capped at 255.
pub open spec fn luma(c: (u8, u8, u8)) -> int {
    let sum = round_to_double(
        round_to_double(
            round_to_double((c.0 * WEIGHT_RED) as nat) + round_to_double((c.1 * WEIGHT_GREEN) as nat),
        ) + round_to_double((c.2 * WEIGHT_BLUE) as nat),
    );
    let whole = sum / (FIXED_ONE as nat);
    if whole > 255 {
        255
    } else {
        whole as int
    }
}

/// One channel of a remains colour: the mean of the channel, the luminance and
/// a lift, capped at 255.
pub open spec fn remains_channel(channel: u8, lum: int, lift: int) -> int {
    let v = (channel + lum + lift) / 2;
    if v > 255 { 255 } else { v }
}

/// A positive number has `bit_len` binary digits.
proof fn lemma_bit_len_bounds(x: nat)
    requires
        x > 0,
    ensures
        bit_len(x) >= 1,
        exp2((bit_len(x) - 1) as nat) <= x < exp2(bit_len(x)),
    decreases x,
{
    let b = bit_len(x);
    assert(b == 1 + bit_len(x / 2));
    if x / 2 > 0 {
        lemma_bit_len_bounds(x / 2);
        let h = bit_len(x / 2);
        assert(exp2(b) == 2 * exp2(h));
        assert(exp2(h) == 2 * exp2((h - 1) as nat));
    } else {
        assert(bit_len(0) == 0);
        assert(exp2(0) == 1);
        assert(exp2(1) == 2 * exp2(0));
    }
}

/// Numbers below a power of two have at most that many binary digits.
proof fn lemma_bit_len_below(x: nat, n: nat)
    requires
        x < exp2(n),
    ensures
        bit_len(x) <= n,
    decreases x,
{
    if x > 0 {
        if n == 0 {
            assert(false);
        } else {
            lemma_bit_len_below(x / 2, (n - 1) as nat);
        }
    }
}

/// `exp2(n)` written out for the exponents used here.
proof fn lemma_exp2_70()
    ensures
        exp2(70) == 0x40_0000_0000_0000_0000,
{
    reveal_with_fuel(exp2, 71);
}

/// The number of binary digits of `x`.
fn bit_length(x: u128) -> (n: u32)
    requires
        x < 0x40_0000_0000_0000_0000,
    ensures
        n == bit_len(x as nat),
        n <= 70,
{
    proof {
        lemma_exp2_70();
        lemma_bit_len_below(x as nat, 70);
    }
    let mut y: u128 = x;
    let mut n: u32 = 0;
    while y > 0
        invariant
            bit_len(x as nat) == n + bit_len(y as nat),
            bit_len(x as nat) <= 70,
        decreases y,
    {
        y = y / 2;
        n = n + 1;
    }
    n
}

/// Two to the power `n`, for `n` small enough.
fn power_of_two(n: u32) -> (p: u128)
    requires
        n <= 70,
    ensures
        p == exp2(n as nat),
{
    let mut p: u128 = 1;
    let mut i: u32 = 0;
    while i < n
        invariant
            i <= n <= 70,
            p == exp2(i as nat),
        decreases n - i,
    {
        proof {
            lemma_exp2_monotone(i as nat, 70);
            lemma_exp2_70();
        }
        p = p * 2;
        i = i + 1;
    }
    p
}

/// Powers of two grow with the exponent.
proof fn lemma_exp2_monotone(a: nat, b: nat)
    requires
        a <= b,
    ensures
        exp2(a) <= exp2(b),
    decreases b,
{
    if a < b {
        lemma_exp2_monotone(a, (b - 1) as nat);
    }
}

/// Rounds `x` to its 53 leading binary digits, ties to even.
fn round_double(x: u128) -> (r: u128)
    requires
        x < 0x40_0000_0000_0000_0000,
    ensures
        r == round_to_double(x as nat),
        r <= 2 * x,
{
    let len = bit_length(x);
    if len <= 53 {
        return x;
    }
    proof {
        lemma_bit_len_bounds(x as nat);
        lemma_exp2_70();
        lemma_bit_len_below(x as nat, 70);
        lemma_exp2_monotone((len - 53) as nat, (len - 1) as nat);
    }
    let unit = power_of_two(len - 53);
    proof {
        lemma_exp2_monotone(0, (len - 53) as nat);
    }
    let q = x / unit;
    let rem = x % unit;
    proof {
        vstd::arithmetic::div_mod::lemma_fundamental_div_mod(x as int, unit as int);
        assert((q + 1) * unit == q * unit + unit) by (nonlinear_arith);
        assert(q * unit <= x) by (nonlinear_arith)
            requires
                x == unit * q + rem,
                rem >= 0,
        ;
    }
    if rem > unit / 2 || (rem == unit / 2 && q % 2 == 1) {
        (q + 1) * unit
    } else {
        q * unit
    }
}

/// The luminance of a colour, as `luma` defines it.
fn luminance(c: (u8, u8, u8)) -> (l: u32)
    ensures
        l == luma(c),
        l <= 255,
{
    let (r, g, b) = c;
    let red = round_double(r as u128 * WEIGHT_RED);
    let green = round_double(g as u128 * WEIGHT_GREEN);
    let blue = round_double(b as u128 * WEIGHT_BLUE);
    let red_green = round_double(red + green);
    let sum = round_double(red_green + blue);
    let whole = sum / FIXED_ONE;
    if whole > 255 {
        255
    } else {
        whole as u32
    }
}

/// The washed-out colour that remains take from the bubble they came from:
/// each channel is averaged with the luminance and lifted, blue a little more.
pub fn remains_color_from(source: (u8, u8, u8)) -> (out: (u8, u8, u8))
    ensures
        out.0 == remains_channel(source.0, luma(source), 40),
        out.1 == remains_channel(source.1, luma(source), 40),
        out.2 == remains_channel(source.2, luma(source), 55),
{
    let (r, g, b) = source;
    let lum = luminance(source);
    let rr: u32 = (r as u32 + lum + 40) / 2;
    let gg: u32 = (g as u32 + lum + 40) / 2;
    let bb: u32 = (b as u32 + lum + 55) / 2;
    let rr: u32 = if rr > 255 { 255 } else { rr };
    let gg: u32 = if gg > 255 { 255 } else { gg };
    let bb: u32 = if bb > 255 { 255 } else { bb };
    (rr as u8, gg as u8, bb as u8)
}

} // verus!
