//! How many AIs and unit bubbles appear, and when AIs burn energy to escape.

use vstd::prelude::*;
use crate::config::{
    AI_FISSION_MAX, AI_FISSION_MIN,
    AI_FLEE_EXPEL_PERCENT, AI_SMART_FLEE_EXPEL_PERCENT, AI_SMART_SURROUND_EXPEL_PERCENT,
    AI_SURROUND_EXPEL_PERCENT, AI_HARD_MAX, AI_SOFT_MAX, AI_SOFT_MIN, MIN_AI, UNIT_CLUSTER_SPAWN_BATCH,
    UNIT_NEW_CLUSTER_PERCENT, UNIT_SCATTER_SPAWN_BATCH, UNIT_SCATTER_SPAWN_PERCENT,
};
use crate::random::{random_below, random_ratio};

verus! {

/// How likely a spawn attempt is to go ahead, by the number of AIs present.
/// The probability itself is worked out by the caller from the band.
#[derive(Clone, Copy, PartialEq, Eq, Debug, Structural)]
pub enum ChanceBand {
    /// Fewer than `AI_SOFT_MIN` AIs: the attempt always goes ahead.
    Certain,
    /// Fewer than `MIN_AI` AIs: the attempt goes ahead with a high chance.
    High,
    /// At least `AI_SOFT_MAX` AIs: the attempt goes ahead with a low, random chance.
    Crowded,
    /// In between: the chance falls as `above_min` grows towards `span`.
    Scaled { above_min: usize, span: usize },
}

/// The chance band for `count` AIs.
pub open spec fn chance_band_for(count: usize) -> ChanceBand {
    if count < AI_SOFT_MIN {
        ChanceBand::Certain
    } else if count < MIN_AI {
        ChanceBand::High
    } else if count >= AI_SOFT_MAX {
        ChanceBand::Crowded
    } else {
        ChanceBand::Scaled { above_min: (count - MIN_AI) as usize, span: (AI_SOFT_MAX - MIN_AI) as usize }
    }
}

/// Which chance band a spawn attempt falls in when `count` AIs are present.
pub fn spawn_chance_band(count: usize) -> (band: ChanceBand)
    ensures
        band == chance_band_for(count),
{
    if count < AI_SOFT_MIN {
        ChanceBand::Certain
    } else if count < MIN_AI {
        ChanceBand::High
    } else if count >= AI_SOFT_MAX {
        ChanceBand::Crowded
    } else {
        ChanceBand::Scaled { above_min: count - MIN_AI, span: AI_SOFT_MAX - MIN_AI }
    }
}

/// How the size of a batch of new AIs is drawn.
#[derive(Clone, Copy, PartialEq, Eq, Debug, Structural)]
pub enum BatchDraw {
    /// Uniformly from `lo` up to, but not including, `hi`.
    Uniform { lo: usize, hi: usize },
    /// Two with the given chance in percent, one otherwise.
    TwoOrOne { percent: u32 },
    /// Always one.
    One,
}

/// The draw that sizes a batch when `count` AIs are present: two to four
/// when there are very few; two with chance 55% while there are fewer than
/// `MIN_AI`, 32% while fewer than `AI_SOFT_MAX`; one after that.
pub open spec fn batch_draw_for(count: usize) -> BatchDraw {
    if count < AI_SOFT_MIN {
        BatchDraw::Uniform { lo: 2, hi: 5 }
    } else if count < MIN_AI {
        BatchDraw::TwoOrOne { percent: 55 }
    } else if count < AI_SOFT_MAX {
        BatchDraw::TwoOrOne { percent: 32 }
    } else {
        BatchDraw::One
    }
}

/// The draw that sizes a batch of new AIs when `count` AIs are present.
pub fn ai_batch_draw(count: usize) -> (draw: BatchDraw)
    ensures
        draw == batch_draw_for(count),
{
    if count < AI_SOFT_MIN {
        BatchDraw::Uniform { lo: 2, hi: 5 }
    } else if count < MIN_AI {
        BatchDraw::TwoOrOne { percent: 55 }
    } else if count < AI_SOFT_MAX {
        BatchDraw::TwoOrOne { percent: 32 }
    } else {
        BatchDraw::One
    }
}

/// The size of a batch given the draw that sizes it and the outcomes drawn:
/// `uniform` is the value drawn from a uniform range, `two` the outcome of
/// the coin for a batch of two.
pub open spec fn batch_for_draw(d: BatchDraw, uniform: usize, two: bool) -> usize {
    match d {
        BatchDraw::Uniform { .. } => uniform,
        BatchDraw::TwoOrOne { .. } => if two { 2 } else { 1 },
        BatchDraw::One => 1,
    }
}

/// The size of a batch from the outcomes of its draw.
pub fn batch_from_draw(d: BatchDraw, uniform: usize, two: bool) -> (b: usize)
    ensures
        b == batch_for_draw(d, uniform, two),
{
    match d {
        BatchDraw::Uniform { .. } => uniform,
        BatchDraw::TwoOrOne { .. } => if two {
            2
        } else {
            1
        },
        BatchDraw::One => 1,
    }
}

/// How many AIs one successful spawn attempt adds, drawn at random as
/// `batch_draw_for` says: a uniform draw in its range, or a batch of two
/// exactly when the coin for two comes up.
pub fn ai_spawn_batch(count: usize, rng: &mut rand::rngs::SmallRng) -> (batch: usize)
    ensures
        match batch_draw_for(count) {
            BatchDraw::Uniform { lo, hi } => lo <= batch < hi,
            BatchDraw::TwoOrOne { .. } => batch == 1 || batch == 2,
            BatchDraw::One => batch == 1,
        },
        exists|uniform: usize, two: bool| batch == batch_for_draw(batch_draw_for(count), uniform, two),
        count < AI_SOFT_MIN ==> 2 <= batch <= 4,
        AI_SOFT_MIN <= count < AI_SOFT_MAX ==> batch == 1 || batch == 2,
        count >= AI_SOFT_MAX ==> batch == 1,
{
    let d = ai_batch_draw(count);
    match d {
        BatchDraw::Uniform { lo, hi } => {
            let uniform = random_below(rng, lo, hi);
            let b = batch_from_draw(d, uniform, false);
            assert(b == batch_for_draw(batch_draw_for(count), uniform, false));
            b
        },
        BatchDraw::TwoOrOne { percent } => {
            let two = random_ratio(rng, percent, 100);
            let b = batch_from_draw(d, 0, two);
            assert(b == batch_for_draw(batch_draw_for(count), 0, two));
            b
        },
        BatchDraw::One => {
            let b = batch_from_draw(d, 0, false);
            assert(b == batch_for_draw(batch_draw_for(count), 0, false));
            b
        },
    }
}

/// The number of AIs that spawning may add to `current` AIs when a batch of
/// `batch` is wanted: the batch, cut short so that the population does not
/// pass `AI_HARD_MAX`.
pub open spec fn spawn_budget_for(current: usize, batch: usize) -> usize {
    if current >= AI_HARD_MAX {
        0
    } else if batch < AI_HARD_MAX - current {
        batch
    } else {
        (AI_HARD_MAX - current) as usize
    }
}

/// How many AIs of a batch may actually be added to `current` AIs.
pub fn ai_spawn_budget(current: usize, batch: usize) -> (n: usize)
    ensures
        n == spawn_budget_for(current, batch),
{
    if current >= AI_HARD_MAX {
        0
    } else if batch < AI_HARD_MAX - current {
        batch
    } else {
        AI_HARD_MAX - current
    }
}

/// Spawning never takes the AI population above `AI_HARD_MAX`, never adds
/// more than the batch asked for, and adds the whole batch when there is room.
pub proof fn law_spawning_respects_hard_cap(current: usize, batch: usize)
    ensures
        current <= AI_HARD_MAX ==> current + spawn_budget_for(current, batch) <= AI_HARD_MAX,
        current >= AI_HARD_MAX ==> spawn_budget_for(current, batch) == 0,
        spawn_budget_for(current, batch) <= batch,
        current + batch <= AI_HARD_MAX ==> spawn_budget_for(current, batch) == batch,
{
}

/// One spawning tick with `n` AIs present, below `AI_HARD_MAX` (at or above
/// it the tick adds none): a hunter joins when its draw came up and there is
/// room, then a batch cut to `ai_spawn_budget`. The population ends at most
/// at `AI_HARD_MAX` and never drops.
pub proof fn law_spawning_tick_respects_hard_cap(n: usize, hunter_drawn: bool, batch: usize)
    requires
        n < AI_HARD_MAX,
    ensures
        ({
            let after_hunter = if hunter_drawn { n + 1 } else { n as int };
            let total = after_hunter + spawn_budget_for(after_hunter as usize, batch);
            n <= total <= AI_HARD_MAX
        }),
{
}

/// Where one refill of unit bubbles puts them, and how many.
#[derive(Clone, Copy, PartialEq, Eq, Debug, Structural)]
pub enum UnitSpawn {
    /// Scattered over the map.
    Scattered(usize),
    /// Around a new rich area, which is remembered.
    NewCluster(usize),
    /// Around a rich area already remembered.
    ExistingCluster(usize),
}

/// The placement of a refill from its draws: `scatter` is the coin for
/// scattering, `extra` the extra scattered unit (0 or 1), `new_cluster` the
/// coin for a new rich area, drawn only when the units are not scattered.
pub open spec fn unit_spawn_for(scatter: bool, extra: usize, new_cluster: bool) -> UnitSpawn {
    if scatter {
        UnitSpawn::Scattered((UNIT_SCATTER_SPAWN_BATCH + extra) as usize)
    } else if new_cluster {
        UnitSpawn::NewCluster((UNIT_CLUSTER_SPAWN_BATCH + 1) as usize)
    } else {
        UnitSpawn::ExistingCluster(UNIT_CLUSTER_SPAWN_BATCH)
    }
}

/// The placement of a refill from the outcomes of its draws.
pub fn unit_spawn_from(scatter: bool, extra: usize, new_cluster: bool) -> (c: UnitSpawn)
    requires
        extra < 2,
    ensures
        c == unit_spawn_for(scatter, extra, new_cluster),
{
    if scatter {
        UnitSpawn::Scattered(UNIT_SCATTER_SPAWN_BATCH + extra)
    } else if new_cluster {
        UnitSpawn::NewCluster(UNIT_CLUSTER_SPAWN_BATCH + 1)
    } else {
        UnitSpawn::ExistingCluster(UNIT_CLUSTER_SPAWN_BATCH)
    }
}

/// The number of units a refill adds.
pub open spec fn units_added(c: UnitSpawn) -> nat {
    match c {
        UnitSpawn::Scattered(n) => n as nat,
        UnitSpawn::NewCluster(n) => n as nat,
        UnitSpawn::ExistingCluster(n) => n as nat,
    }
}

/// The draws behind one refill of unit bubbles.
#[derive(Clone, Copy, PartialEq, Eq, Debug, Structural)]
pub struct RefillOdds {
    /// Chance, in percent, that the units are scattered.
    pub scatter_percent: u32,
    /// Scattered refills add `UNIT_SCATTER_SPAWN_BATCH` units plus one drawn
    /// uniformly below this bound.
    pub extra_below: usize,
    /// Chance, in percent, that a refill that is not scattered starts a new
    /// rich area.
    pub new_cluster_percent: u32,
}

/// The draws of a refill: scatter with chance `UNIT_SCATTER_SPAWN_PERCENT`,
/// adding none or one extra unit; else a new rich area with chance
/// `UNIT_NEW_CLUSTER_PERCENT`.
pub open spec fn refill_odds_for() -> RefillOdds {
    RefillOdds {
        scatter_percent: UNIT_SCATTER_SPAWN_PERCENT,
        extra_below: 2,
        new_cluster_percent: UNIT_NEW_CLUSTER_PERCENT,
    }
}

/// The draws behind one refill of unit bubbles.
pub fn refill_odds() -> (odds: RefillOdds)
    ensures
        odds == refill_odds_for(),
{
    RefillOdds {
        scatter_percent: UNIT_SCATTER_SPAWN_PERCENT,
        extra_below: 2,
        new_cluster_percent: UNIT_NEW_CLUSTER_PERCENT,
    }
}

/// Chooses at random how one refill of unit bubbles is placed: the draws
/// `refill_odds_for` names, then the placement `unit_spawn_for` gives for
/// their outcomes.
pub fn unit_spawn_choice(rng: &mut rand::rngs::SmallRng) -> (choice: UnitSpawn)
    ensures
        exists|scatter: bool, extra: usize, new_cluster: bool|
            extra < 2 && choice == unit_spawn_for(scatter, extra, new_cluster),
        match choice {
            UnitSpawn::Scattered(n) => UNIT_SCATTER_SPAWN_BATCH <= n <= UNIT_SCATTER_SPAWN_BATCH + 1,
            UnitSpawn::NewCluster(n) => n == UNIT_CLUSTER_SPAWN_BATCH + 1,
            UnitSpawn::ExistingCluster(n) => n == UNIT_CLUSTER_SPAWN_BATCH,
        },
        1 <= units_added(choice) <= 3,
{
    let odds = refill_odds();
    let scatter = random_ratio(rng, odds.scatter_percent, 100);
    if scatter {
        let extra = random_below(rng, 0, odds.extra_below);
        let c = unit_spawn_from(true, extra, false);
        assert(extra < 2 && c == unit_spawn_for(true, extra, false));
        c
    } else {
        let new_cluster = random_ratio(rng, odds.new_cluster_percent, 100);
        let c = unit_spawn_from(false, 0, new_cluster);
        assert(c == unit_spawn_for(false, 0, new_cluster));
        c
    }
}

/// How many children an oversized AI splits into, drawn uniformly from
/// `AI_FISSION_MIN` to `AI_FISSION_MAX`.
pub fn fission_child_count(rng: &mut rand::rngs::SmallRng) -> (n: usize)
    ensures
        AI_FISSION_MIN <= n <= AI_FISSION_MAX,
{
    random_below(rng, AI_FISSION_MIN, AI_FISSION_MAX + 1)
}

/// The units added by a run of refills, in order.
pub open spec fn units_added_by(refills: Seq<UnitSpawn>) -> nat
    decreases refills.len(),
{
    if refills.len() == 0 {
        0
    } else {
        units_added_by(refills.drop_last()) + units_added(refills.last())
    }
}

/// Every refill adds one to three units, so `k` refills in a tick add
/// between `k` and `3k` units.
pub proof fn law_refills_add_one_to_three_each(refills: Seq<UnitSpawn>)
    requires
        forall|i: int|
            0 <= i < refills.len() ==> exists|scatter: bool, extra: usize, new_cluster: bool|
                extra < 2 && #[trigger] refills[i] == unit_spawn_for(scatter, extra, new_cluster),
    ensures
        refills.len() <= units_added_by(refills) <= 3 * refills.len(),
    decreases refills.len(),
{
    if refills.len() > 0 {
        let last = refills.last();
        assert(refills.drop_last().len() == refills.len() - 1);
        assert forall|i: int| 0 <= i < refills.drop_last().len() implies exists|scatter: bool, extra: usize, new_cluster: bool|
            extra < 2 && #[trigger] refills.drop_last()[i] == unit_spawn_for(scatter, extra, new_cluster) by {
            assert(refills.drop_last()[i] == refills[i]);
        }
        law_refills_add_one_to_three_each(refills.drop_last());
        assert(exists|scatter: bool, extra: usize, new_cluster: bool|
            extra < 2 && refills[refills.len() - 1] == unit_spawn_for(scatter, extra, new_cluster));
        let (s, e, n) = choose|scatter: bool, extra: usize, new_cluster: bool|
            extra < 2 && refills[refills.len() - 1] == unit_spawn_for(scatter, extra, new_cluster);
        assert(1 <= units_added(last) <= 3);
    }
}

/// The chance, in percent, that an AI hemmed in by larger bubbles or
/// fleeing one burns energy to escape; an AI that is neither has no chance.
pub open spec fn trapped_expel_chance(surrounded: bool, fleeing: bool, smart: bool) -> Option<u32> {
    if surrounded {
        Some(if smart { AI_SMART_SURROUND_EXPEL_PERCENT } else { AI_SURROUND_EXPEL_PERCENT })
    } else if fleeing {
        Some(if smart { AI_SMART_FLEE_EXPEL_PERCENT } else { AI_FLEE_EXPEL_PERCENT })
    } else {
        None
    }
}

/// The chance, in percent, that a trapped or fleeing AI burns energy.
pub fn trapped_expel_percent(surrounded: bool, fleeing: bool, smart: bool) -> (p: Option<u32>)
    ensures
        p == trapped_expel_chance(surrounded, fleeing, smart),
{
    if surrounded {
        Some(if smart { AI_SMART_SURROUND_EXPEL_PERCENT } else { AI_SURROUND_EXPEL_PERCENT })
    } else if fleeing {
        Some(if smart { AI_SMART_FLEE_EXPEL_PERCENT } else { AI_FLEE_EXPEL_PERCENT })
    } else {
        None
    }
}

/// Whether an AI hemmed in by larger bubbles, or fleeing one, burns energy to
/// escape: a random draw with the chance `trapped_expel_chance` gives, and
/// never when there is no such chance.
pub fn ai_expel_when_trapped(
    rng: &mut rand::rngs::SmallRng,
    surrounded: bool,
    fleeing: bool,
    smart: bool,
) -> (expel: bool)
    ensures
        trapped_expel_chance(surrounded, fleeing, smart) is None ==> !expel && *final(rng) == *old(rng),
{
    match trapped_expel_percent(surrounded, fleeing, smart) {
        Some(percent) => random_ratio(rng, percent, 100),
        None => false,
    }
}

/// When a batch does not fit below `AI_HARD_MAX`, spawning fills the
/// population exactly up to the cap; when it fits, the whole batch spawns.
pub proof fn law_spawning_fills_to_the_cap(current: usize, batch: usize)
    ensures
        current < AI_HARD_MAX && current + batch >= AI_HARD_MAX ==> current + spawn_budget_for(
            current,
            batch,
        ) == AI_HARD_MAX,
        current + batch <= AI_HARD_MAX ==> spawn_budget_for(current, batch) == batch,
        current < AI_HARD_MAX ==> (spawn_budget_for(current, batch) == batch || current
            + spawn_budget_for(current, batch) == AI_HARD_MAX),
{
}

/// The chance band follows the population: certain below `AI_SOFT_MIN`,
/// high below `MIN_AI`, scaled by the AIs above `MIN_AI` (out of the span up
/// to `AI_SOFT_MAX`) below `AI_SOFT_MAX`, and crowded from there on.
pub proof fn law_chance_band_by_population(count: usize)
    ensures
        chance_band_for(count) == ChanceBand::Certain <==> count < AI_SOFT_MIN,
        chance_band_for(count) == ChanceBand::High <==> AI_SOFT_MIN <= count < MIN_AI,
        chance_band_for(count) == ChanceBand::Crowded <==> count >= AI_SOFT_MAX,
        MIN_AI <= count < AI_SOFT_MAX ==> chance_band_for(count) == (ChanceBand::Scaled {
            above_min: (count - MIN_AI) as usize,
            span: (AI_SOFT_MAX - MIN_AI) as usize,
        }),
{
}

/// Batches are sized by two to four when there are very few AIs, by a coin
/// for two that is likelier (55%) with fewer than `MIN_AI` than below
/// `AI_SOFT_MAX` (32%), and are single from `AI_SOFT_MAX` on; a coin for two
/// gives two exactly when it comes up.
pub proof fn law_batch_draws_by_population(count: usize, uniform: usize, two: bool)
    ensures
        count < AI_SOFT_MIN ==> batch_draw_for(count) == (BatchDraw::Uniform { lo: 2, hi: 5 }),
        AI_SOFT_MIN <= count < MIN_AI ==> batch_draw_for(count) == (BatchDraw::TwoOrOne { percent: 55 }),
        MIN_AI <= count < AI_SOFT_MAX ==> batch_draw_for(count) == (BatchDraw::TwoOrOne { percent: 32 }),
        count >= AI_SOFT_MAX ==> batch_draw_for(count) == BatchDraw::One,
        batch_for_draw(BatchDraw::Uniform { lo: 2, hi: 5 }, uniform, two) == uniform,
        batch_for_draw(BatchDraw::TwoOrOne { percent: 55 }, uniform, two) == if two { 2usize } else { 1usize },
        batch_for_draw(BatchDraw::TwoOrOne { percent: 32 }, uniform, two) == if two { 2usize } else { 1usize },
        batch_for_draw(BatchDraw::One, uniform, two) == 1,
{
}

/// A refill that scatters adds one unit plus the extra drawn; one that does
/// not scatter goes around a new rich area, one more unit than the batch,
/// exactly when the coin for a new area comes up, and around a remembered
/// area otherwise.
pub proof fn law_refill_placement(extra: usize, new_cluster: bool)
    requires
        extra < 2,
    ensures
        unit_spawn_for(true, extra, new_cluster) == UnitSpawn::Scattered((UNIT_SCATTER_SPAWN_BATCH + extra) as usize),
        unit_spawn_for(false, extra, new_cluster) is NewCluster <==> new_cluster,
        unit_spawn_for(false, extra, true) == UnitSpawn::NewCluster((UNIT_CLUSTER_SPAWN_BATCH + 1) as usize),
        unit_spawn_for(false, extra, false) == UnitSpawn::ExistingCluster(UNIT_CLUSTER_SPAWN_BATCH),
        refill_odds_for().scatter_percent == UNIT_SCATTER_SPAWN_PERCENT,
        refill_odds_for().extra_below == 2,
        refill_odds_for().new_cluster_percent == UNIT_NEW_CLUSTER_PERCENT,
{
}

/// An AI has a chance to burn energy exactly when it is hemmed in or fleeing;
/// being hemmed in gives a higher chance than fleeing, and a smart AI a
/// higher chance than another in the same plight.
pub proof fn law_trapped_expel_chances(surrounded: bool, fleeing: bool, smart: bool)
    ensures
        trapped_expel_chance(surrounded, fleeing, smart) is Some <==> (surrounded || fleeing),
        trapped_expel_chance(true, fleeing, false) == Some(AI_SURROUND_EXPEL_PERCENT),
        trapped_expel_chance(true, fleeing, true) == Some(AI_SMART_SURROUND_EXPEL_PERCENT),
        trapped_expel_chance(false, true, false) == Some(AI_FLEE_EXPEL_PERCENT),
        trapped_expel_chance(false, true, true) == Some(AI_SMART_FLEE_EXPEL_PERCENT),
        AI_FLEE_EXPEL_PERCENT < AI_SURROUND_EXPEL_PERCENT,
        AI_SMART_FLEE_EXPEL_PERCENT < AI_SMART_SURROUND_EXPEL_PERCENT,
        AI_SURROUND_EXPEL_PERCENT < AI_SMART_SURROUND_EXPEL_PERCENT,
        AI_FLEE_EXPEL_PERCENT < AI_SMART_FLEE_EXPEL_PERCENT,
        AI_SMART_SURROUND_EXPEL_PERCENT < 100,
{
}

} // verus!
