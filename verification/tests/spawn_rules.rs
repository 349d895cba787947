use bubble_game::config::AI_HARD_MAX;
use bubble_game::spawn::{
    ai_batch_draw, ai_expel_when_trapped, fission_child_count, refill_odds, RefillOdds, ai_spawn_batch, ai_spawn_budget, batch_from_draw,
    spawn_chance_band, trapped_expel_percent, unit_spawn_choice, unit_spawn_from, BatchDraw,
    ChanceBand, UnitSpawn,
};
use rand::rngs::SmallRng;
use rand::SeedableRng;

#[test]
fn chance_bands() {
    assert_eq!(spawn_chance_band(0), ChanceBand::Certain);
    assert_eq!(spawn_chance_band(6), ChanceBand::Certain);
    assert_eq!(spawn_chance_band(7), ChanceBand::High);
    assert_eq!(spawn_chance_band(8), ChanceBand::Scaled { above_min: 0, span: 14 });
    assert_eq!(spawn_chance_band(15), ChanceBand::Scaled { above_min: 7, span: 14 });
    assert_eq!(spawn_chance_band(21), ChanceBand::Scaled { above_min: 13, span: 14 });
    assert_eq!(spawn_chance_band(22), ChanceBand::Crowded);
    assert_eq!(spawn_chance_band(40), ChanceBand::Crowded);
}

#[test]
fn batches_when_few_ais() {
    let mut rng = SmallRng::seed_from_u64(3);
    let mut seen = std::collections::HashSet::new();
    for _ in 0..300 {
        let b = ai_spawn_batch(3, &mut rng);
        assert!((2..=4).contains(&b));
        seen.insert(b);
    }
    assert_eq!(seen.len(), 3);
}

#[test]
fn batches_when_some_ais() {
    let mut rng = SmallRng::seed_from_u64(4);
    let mut seen = std::collections::HashSet::new();
    for count in [7usize, 8, 15, 21] {
        for _ in 0..200 {
            let b = ai_spawn_batch(count, &mut rng);
            assert!(b == 1 || b == 2);
            seen.insert(b);
        }
    }
    assert_eq!(seen.len(), 2);
}

#[test]
fn single_batch_when_crowded() {
    let mut rng = SmallRng::seed_from_u64(5);
    for count in [22usize, 31, 32, 100] {
        assert_eq!(ai_spawn_batch(count, &mut rng), 1);
    }
}

#[test]
fn budget_respects_hard_cap() {
    assert_eq!(ai_spawn_budget(0, 4), 4);
    assert_eq!(ai_spawn_budget(30, 4), 2);
    assert_eq!(ai_spawn_budget(31, 2), 1);
    assert_eq!(ai_spawn_budget(AI_HARD_MAX, 3), 0);
    assert_eq!(ai_spawn_budget(AI_HARD_MAX + 5, 3), 0);
    for current in 0..=AI_HARD_MAX {
        for batch in 0..6 {
            let n = ai_spawn_budget(current, batch);
            assert!(current + n <= AI_HARD_MAX);
            assert!(n <= batch);
        }
    }
}

#[test]
fn unit_refills_follow_their_sizes() {
    let mut rng = SmallRng::seed_from_u64(6);
    let (mut scattered, mut new_cluster, mut existing) = (0, 0, 0);
    let mut sizes = std::collections::HashSet::new();
    for _ in 0..2000 {
        match unit_spawn_choice(&mut rng) {
            UnitSpawn::Scattered(n) => {
                assert!(n == 1 || n == 2);
                sizes.insert(n);
                scattered += 1;
            }
            UnitSpawn::NewCluster(n) => {
                assert_eq!(n, 3);
                new_cluster += 1;
            }
            UnitSpawn::ExistingCluster(n) => {
                assert_eq!(n, 2);
                existing += 1;
            }
        }
    }
    assert_eq!(sizes.len(), 2);
    assert!(scattered > new_cluster && existing > new_cluster && new_cluster > 0);
}

#[test]
fn trapped_expel_chances() {
    assert_eq!(trapped_expel_percent(true, false, false), Some(72));
    assert_eq!(trapped_expel_percent(true, true, true), Some(84));
    assert_eq!(trapped_expel_percent(false, true, false), Some(45));
    assert_eq!(trapped_expel_percent(false, true, true), Some(60));
    assert_eq!(trapped_expel_percent(false, false, true), None);
}

#[test]
fn untrapped_ai_never_expels() {
    let mut rng = SmallRng::seed_from_u64(7);
    for smart in [false, true] {
        for _ in 0..50 {
            assert!(!ai_expel_when_trapped(&mut rng, false, false, smart));
        }
    }
}

#[test]
fn trapped_ai_sometimes_expels() {
    let mut rng = SmallRng::seed_from_u64(8);
    let hits = (0..1000)
        .filter(|_| ai_expel_when_trapped(&mut rng, true, false, true))
        .count();
    assert!(hits > 700 && hits < 950);
}

#[test]
fn batch_draws_by_population() {
    assert_eq!(ai_batch_draw(0), BatchDraw::Uniform { lo: 2, hi: 5 });
    assert_eq!(ai_batch_draw(6), BatchDraw::Uniform { lo: 2, hi: 5 });
    assert_eq!(ai_batch_draw(7), BatchDraw::TwoOrOne { percent: 55 });
    assert_eq!(ai_batch_draw(8), BatchDraw::TwoOrOne { percent: 32 });
    assert_eq!(ai_batch_draw(21), BatchDraw::TwoOrOne { percent: 32 });
    assert_eq!(ai_batch_draw(22), BatchDraw::One);
}

#[test]
fn batch_sizes_from_draws() {
    assert_eq!(batch_from_draw(BatchDraw::Uniform { lo: 2, hi: 5 }, 3, true), 3);
    assert_eq!(batch_from_draw(BatchDraw::Uniform { lo: 2, hi: 5 }, 4, false), 4);
    assert_eq!(batch_from_draw(BatchDraw::TwoOrOne { percent: 55 }, 0, true), 2);
    assert_eq!(batch_from_draw(BatchDraw::TwoOrOne { percent: 32 }, 0, false), 1);
    assert_eq!(batch_from_draw(BatchDraw::One, 4, true), 1);
}

#[test]
fn unit_refills_from_draws() {
    assert_eq!(unit_spawn_from(true, 0, true), UnitSpawn::Scattered(1));
    assert_eq!(unit_spawn_from(true, 1, false), UnitSpawn::Scattered(2));
    assert_eq!(unit_spawn_from(false, 0, true), UnitSpawn::NewCluster(3));
    assert_eq!(unit_spawn_from(false, 0, false), UnitSpawn::ExistingCluster(2));
}

#[test]
fn refill_draws() {
    assert_eq!(
        refill_odds(),
        RefillOdds { scatter_percent: 68, extra_below: 2, new_cluster_percent: 15 }
    );
}

#[test]
fn fission_counts_are_drawn_in_range() {
    let mut rng = SmallRng::seed_from_u64(9);
    let mut seen = std::collections::HashSet::new();
    for _ in 0..400 {
        let n = fission_child_count(&mut rng);
        assert!((3..=6).contains(&n));
        seen.insert(n);
    }
    assert_eq!(seen.len(), 4);
}
