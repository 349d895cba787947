//! Integer and colour settings of the game.

use vstd::prelude::*;

verus! {

/// Number of unit-bubble rich areas kept on the map at the start.
pub const UNIT_CLUSTER_COUNT: usize = 3;

/// Unit bubbles placed around each rich area at the start.
pub const UNIT_CLUSTER_INITIAL: usize = 7;

/// Unit bubbles scattered over the map at the start.
pub const UNIT_SCATTER_INITIAL: usize = 38;

/// Unit bubbles added to an existing rich area per refill.
pub const UNIT_CLUSTER_SPAWN_BATCH: usize = 2;

/// Base number of scattered unit bubbles per refill.
pub const UNIT_SCATTER_SPAWN_BATCH: usize = 1;

/// Chance, in percent, that a refill of unit bubbles scatters them.
pub const UNIT_SCATTER_SPAWN_PERCENT: u32 = 68;

/// Chance, in percent, that a refill that does not scatter starts a new rich
/// area.
pub const UNIT_NEW_CLUSTER_PERCENT: u32 = 15;

/// Lower and upper bound of the AI population that the map size asks for.
pub const MIN_AI: usize = 8;

pub const MAX_AI: usize = 20;

/// Below this many AIs, spawning is certain and comes in larger batches.
pub const AI_SOFT_MIN: usize = 7;

/// At or above this many AIs, spawning becomes less likely.
pub const AI_SOFT_MAX: usize = 22;

/// Spawning never raises the AI population above this many.
pub const AI_HARD_MAX: usize = 32;

/// Range of the number of remains a large death leaves behind.
pub const DEATH_DROP_MIN: usize = 6;

pub const DEATH_DROP_MAX: usize = 12;

/// Range of the number of children an oversized AI splits into.
pub const AI_FISSION_MIN: usize = 3;

pub const AI_FISSION_MAX: usize = 6;

/// Chance, in percent, that an AI hemmed in by larger bubbles burns energy
/// to escape, and the same for a smart AI.
pub const AI_SURROUND_EXPEL_PERCENT: u32 = 72;

pub const AI_SMART_SURROUND_EXPEL_PERCENT: u32 = 84;

/// Chance, in percent, that a fleeing AI burns energy to escape, and the
/// same for a smart AI.
pub const AI_FLEE_EXPEL_PERCENT: u32 = 45;

pub const AI_SMART_FLEE_EXPEL_PERCENT: u32 = 60;

/// The most rich areas remembered at once.
pub const UNIT_CLUSTER_CAP: usize = UNIT_CLUSTER_COUNT * 3;

/// Colour of the player's bubble.
pub const PLAYER_COLOR: (u8, u8, u8) = (255, 110, 180);

/// Background colour of the map.
pub const BG_COLOR: (u8, u8, u8) = (26, 26, 46);

} // verus!
