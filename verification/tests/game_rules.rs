use bubble_game::ai::{ai_mode, hunt_test, quadrant_of, surrounded, AiMode, HuntTest};
use bubble_game::bubble::BubbleKind;
use bubble_game::game::{
    game_status_code, status_after_loss, status_after_tick, status_code, GameStatus,
};

#[test]
fn status_codes() {
    assert_eq!(status_code(GameStatus::Playing), 0);
    assert_eq!(status_code(GameStatus::Won), 1);
    assert_eq!(status_code(GameStatus::Lost), 2);
    assert_eq!(game_status_code(None), 0);
    assert_eq!(game_status_code(Some(GameStatus::Lost)), 2);
}

#[test]
fn reaching_the_goal_wins() {
    assert_eq!(status_after_tick(GameStatus::Playing, true, true), GameStatus::Won);
    assert_eq!(status_after_tick(GameStatus::Playing, true, false), GameStatus::Playing);
}

#[test]
fn losing_the_player_loses() {
    assert_eq!(status_after_tick(GameStatus::Playing, false, false), GameStatus::Lost);
    assert_eq!(status_after_loss(GameStatus::Playing, BubbleKind::Player), GameStatus::Lost);
    assert_eq!(status_after_loss(GameStatus::Playing, BubbleKind::Ai), GameStatus::Playing);
    assert_eq!(status_after_loss(GameStatus::Playing, BubbleKind::Unit), GameStatus::Playing);
}

#[test]
fn finished_rounds_stay_finished() {
    for s in [GameStatus::Won, GameStatus::Lost] {
        for present in [false, true] {
            for reached in [false, true] {
                assert_eq!(status_after_tick(s, present, reached), s);
            }
        }
    }
}

#[test]
fn ai_modes() {
    assert_eq!(ai_mode(true, true, true, true), AiMode::Charge);
    assert_eq!(ai_mode(false, true, false, true), AiMode::Spin);
    assert_eq!(ai_mode(false, false, false, true), AiMode::HuntPlayer);
    assert_eq!(ai_mode(false, false, true, true), AiMode::Roam);
    assert_eq!(ai_mode(false, false, false, false), AiMode::Roam);
}

#[test]
fn quadrants() {
    assert_eq!(quadrant_of(true, true), 0);
    assert_eq!(quadrant_of(false, true), 1);
    assert_eq!(quadrant_of(false, false), 2);
    assert_eq!(quadrant_of(true, false), 3);
}

#[test]
fn hemmed_in_needs_two_quadrants() {
    assert!(!surrounded([false; 4]));
    assert!(!surrounded([false, false, true, false]));
    assert!(surrounded([true, false, true, false]));
    assert!(surrounded([true; 4]));
}

#[test]
fn hunting_rules() {
    assert_eq!(hunt_test(false, false, true, true, true), HuntTest::Never);
    assert_eq!(hunt_test(true, true, true, true, true), HuntTest::Never);
    assert_eq!(hunt_test(true, false, true, false, false), HuntTest::LargerByEatRatio);
    assert_eq!(hunt_test(true, false, false, true, true), HuntTest::WithinHuntBand);
    assert_eq!(hunt_test(true, false, false, true, false), HuntTest::Never);
    assert_eq!(hunt_test(true, false, false, false, true), HuntTest::Never);
}
