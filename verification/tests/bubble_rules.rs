use bubble_game::bubble::{
    eat_outcome, eat_requirement, remains_color_from, BubbleKind, EatRequirement, EnergyGain,
};
use bubble_game::physics::{expel_requirement, ExpelRequirement};

#[test]
fn remains_color_of_player_color() {
    assert_eq!(remains_color_from((255, 110, 180)), (228, 155, 198));
}

#[test]
fn remains_color_of_black_is_lifted() {
    assert_eq!(remains_color_from((0, 0, 0)), (20, 20, 27));
}

#[test]
fn remains_color_of_white_is_capped() {
    assert_eq!(remains_color_from((255, 255, 255)), (255, 255, 255));
}

/// The remains colour computed directly in double precision.
fn remains_color_in_doubles(source: (u8, u8, u8)) -> (u8, u8, u8) {
    let (r, g, b) = source;
    let lum = (r as f64 * 0.299 + g as f64 * 0.587 + b as f64 * 0.114) as u8;
    (
        ((r as u16 + lum as u16 + 40) / 2).min(255) as u8,
        ((g as u16 + lum as u16 + 40) / 2).min(255) as u8,
        ((b as u16 + lum as u16 + 55) / 2).min(255) as u8,
    )
}

#[test]
fn remains_color_follows_double_rounding() {
    // here the luminance sum falls just below a whole number in doubles
    assert_eq!(remains_color_from((1, 1, 1)), (20, 20, 28));
    assert_eq!(remains_color_from((0, 72, 24)), (42, 78, 61));
    assert_eq!(remains_color_from((0, 144, 48)), (64, 136, 96));
    // and here it lands exactly on one
    assert_eq!(remains_color_from((0, 2, 209)), (32, 33, 144));
}

#[test]
fn remains_color_matches_doubles_across_colours() {
    for r in (0..=255u8).step_by(5) {
        for g in (0..=255u8).step_by(3) {
            for b in (0..=255u8).step_by(7) {
                assert_eq!(remains_color_from((r, g, b)), remains_color_in_doubles((r, g, b)));
            }
        }
    }
    for v in 0..=255u8 {
        assert_eq!(remains_color_from((v, v, v)), remains_color_in_doubles((v, v, v)));
        assert_eq!(remains_color_from((v, 0, 255 - v)), remains_color_in_doubles((v, 0, 255 - v)));
    }
}

#[test]
fn remains_color_of_pure_green() {
    // luminance 149 (0.587 * 255 = 149.685)
    assert_eq!(remains_color_from((0, 255, 0)), (94, 222, 102));
}

#[test]
fn no_bubble_eats_itself() {
    for kind in [BubbleKind::Player, BubbleKind::Ai, BubbleKind::Unit, BubbleKind::Remains] {
        assert_eq!(eat_requirement(7, kind, true, 7, BubbleKind::Unit), EatRequirement::Never);
        assert_eq!(eat_requirement(7, kind, false, 7, kind), EatRequirement::Never);
    }
}

#[test]
fn units_are_always_edible() {
    assert_eq!(eat_requirement(1, BubbleKind::Player, false, 2, BubbleKind::Unit), EatRequirement::Always);
    assert_eq!(eat_requirement(3, BubbleKind::Ai, false, 2, BubbleKind::Unit), EatRequirement::Always);
    assert_eq!(eat_requirement(4, BubbleKind::Unit, false, 2, BubbleKind::Unit), EatRequirement::Always);
}

#[test]
fn fresh_player_eats_only_units() {
    for kind in [BubbleKind::Remains, BubbleKind::Ai, BubbleKind::Player] {
        assert_eq!(eat_requirement(1, BubbleKind::Player, false, 2, kind), EatRequirement::Never);
    }
    assert_eq!(eat_requirement(1, BubbleKind::Player, false, 2, BubbleKind::Unit), EatRequirement::Always);
}

#[test]
fn remains_need_the_eat_ratio() {
    assert_eq!(
        eat_requirement(1, BubbleKind::Player, true, 2, BubbleKind::Remains),
        EatRequirement::LargerByEatRatio
    );
    assert_eq!(
        eat_requirement(1, BubbleKind::Ai, false, 2, BubbleKind::Remains),
        EatRequirement::LargerByEatRatio
    );
    assert_eq!(
        eat_requirement(1, BubbleKind::Ai, true, 2, BubbleKind::Remains),
        EatRequirement::LargerByEatRatio
    );
}

#[test]
fn fresh_player_cannot_eat_ai() {
    assert_eq!(eat_requirement(1, BubbleKind::Player, false, 2, BubbleKind::Ai), EatRequirement::Never);
}

#[test]
fn grown_player_eats_smaller_ai() {
    assert_eq!(eat_requirement(1, BubbleKind::Player, true, 2, BubbleKind::Ai), EatRequirement::Larger);
}

#[test]
fn ai_needs_player_ratio_to_eat_player() {
    assert_eq!(
        eat_requirement(2, BubbleKind::Ai, false, 1, BubbleKind::Player),
        EatRequirement::LargerByPlayerRatio
    );
}

#[test]
fn ai_eats_ai_by_eat_ratio() {
    assert_eq!(
        eat_requirement(2, BubbleKind::Ai, false, 3, BubbleKind::Ai),
        EatRequirement::LargerByEatRatio
    );
}

#[test]
fn eating_a_unit_gives_the_unit_bonus_only() {
    let out = eat_outcome(BubbleKind::Unit);
    assert_eq!(out.gain, EnergyGain::UnitBonus);
    assert!(!out.marks_non_unit);
    assert!(!out.leaves_remains);
}

#[test]
fn eating_remains_gives_whole_energy_and_no_mark() {
    let out = eat_outcome(BubbleKind::Remains);
    assert_eq!(out.gain, EnergyGain::Whole);
    assert!(!out.marks_non_unit);
    assert!(!out.leaves_remains);
}

#[test]
fn eating_an_ai_or_the_player_leaves_remains() {
    for kind in [BubbleKind::Ai, BubbleKind::Player] {
        let out = eat_outcome(kind);
        assert_eq!(out.gain, EnergyGain::AbsorbedShare);
        assert!(out.marks_non_unit);
        assert!(out.leaves_remains);
    }
}

#[test]
fn expel_rules_by_kind() {
    assert_eq!(expel_requirement(BubbleKind::Player, false), ExpelRequirement::EnergyAboveStart);
    assert_eq!(expel_requirement(BubbleKind::Player, true), ExpelRequirement::EnergyAboveStart);
    assert_eq!(expel_requirement(BubbleKind::Ai, true), ExpelRequirement::Allowed);
    assert_eq!(expel_requirement(BubbleKind::Ai, false), ExpelRequirement::Never);
    assert_eq!(expel_requirement(BubbleKind::Unit, true), ExpelRequirement::Never);
    assert_eq!(expel_requirement(BubbleKind::Remains, true), ExpelRequirement::Never);
}
