//! The state of a round: playing, won or lost, and how it moves on.

use vstd::prelude::*;
use crate::bubble::BubbleKind;

verus! {

/// The state of a round.
#[derive(Clone, Copy, PartialEq, Eq, Debug, Structural)]
pub enum GameStatus {
    Playing,
    Won,
    Lost,
}

/// The number by which a status is reported to the page.
pub open spec fn status_number(s: GameStatus) -> u8 {
    match s {
        GameStatus::Playing => 0,
        GameStatus::Won => 1,
        GameStatus::Lost => 2,
    }
}

/// The number reported for a status: 0 playing, 1 won, 2 lost.
pub fn status_code(s: GameStatus) -> (code: u8)
    ensures
        code == status_number(s),
{
    match s {
        GameStatus::Playing => 0,
        GameStatus::Won => 1,
        GameStatus::Lost => 2,
    }
}

/// The number reported to the page when there may be no game yet: 0 without
/// a game, the status's number otherwise.
pub fn game_status_code(s: Option<GameStatus>) -> (code: u8)
    ensures
        code == match s {
            Some(st) => status_number(st),
            None => 0,
        },
{
    match s {
        Some(st) => status_code(st),
        None => 0,
    }
}

/// Whether a round in this status still moves the world.
pub open spec fn in_play(s: GameStatus) -> bool {
    s == GameStatus::Playing
}

/// The status after a bubble of kind `victim` was eaten or smothered:
/// losing the player loses the round.
pub open spec fn status_after_loss_spec(current: GameStatus, victim: BubbleKind) -> GameStatus {
    if victim == BubbleKind::Player {
        GameStatus::Lost
    } else {
        current
    }
}

/// The status after a bubble of kind `victim` left the map by being eaten or
/// smothered.
pub fn status_after_loss(current: GameStatus, victim: BubbleKind) -> (next: GameStatus)
    ensures
        next == status_after_loss_spec(current, victim),
{
    if victim == BubbleKind::Player {
        GameStatus::Lost
    } else {
        current
    }
}

/// The status at the end of a tick: a finished round stays as it is; while
/// playing, a missing player loses and a player that reached the winning
/// diameter wins.
pub open spec fn status_after_tick_spec(
    current: GameStatus,
    player_present: bool,
    reached_goal: bool,
) -> GameStatus {
    if !in_play(current) {
        current
    } else if !player_present {
        GameStatus::Lost
    } else if reached_goal {
        GameStatus::Won
    } else {
        current
    }
}

/// The status at the end of a tick, given whether the player is still on the
/// map and whether its diameter reached the goal.
pub fn status_after_tick(current: GameStatus, player_present: bool, reached_goal: bool) -> (next:
    GameStatus)
    ensures
        next == status_after_tick_spec(current, player_present, reached_goal),
{
    if current != GameStatus::Playing {
        current
    } else if !player_present {
        GameStatus::Lost
    } else if reached_goal {
        GameStatus::Won
    } else {
        current
    }
}

/// A round that is won or lost stays so until it is restarted.
pub proof fn law_finished_round_is_final(current: GameStatus, player_present: bool, reached_goal: bool)
    requires
        current != GameStatus::Playing,
    ensures
        status_after_tick_spec(current, player_present, reached_goal) == current,
{
}

/// While playing, a player whose diameter reaches the goal wins.
pub proof fn law_reaching_goal_wins()
    ensures
        status_after_tick_spec(GameStatus::Playing, true, true) == GameStatus::Won,
{
}

/// While playing, a round without a player is lost; so is a round in which
/// the player was eaten or smothered.
pub proof fn law_losing_the_player_loses(current: GameStatus, reached_goal: bool)
    requires
        current == GameStatus::Playing,
    ensures
        status_after_tick_spec(current, false, reached_goal) == GameStatus::Lost,
        status_after_loss_spec(current, BubbleKind::Player) == GameStatus::Lost,
{
}

/// Losing any bubble other than the player leaves the status unchanged.
pub proof fn law_other_losses_change_nothing(current: GameStatus, victim: BubbleKind)
    requires
        victim != BubbleKind::Player,
    ensures
        status_after_loss_spec(current, victim) == current,
{
}

/// The three statuses are reported by three different numbers: 0 while
/// playing, 1 won, 2 lost.
pub proof fn law_status_numbers(a: GameStatus, b: GameStatus)
    ensures
        status_number(a) == status_number(b) <==> a == b,
        status_number(GameStatus::Playing) == 0,
        status_number(GameStatus::Won) == 1,
        status_number(GameStatus::Lost) == 2,
{
}

/// While playing, a tick with the player present that has not reached the
/// goal keeps the round going.
pub proof fn law_play_goes_on()
    ensures
        status_after_tick_spec(GameStatus::Playing, true, false) == GameStatus::Playing,
{
}

} // verus!
