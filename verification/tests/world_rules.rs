use bubble_game::bubble::BubbleKind;
use bubble_game::config::UNIT_CLUSTER_CAP;
use bubble_game::world::{
    add_cluster, clamp_ai_count, count_kind, first_of_kind, pick_cluster, IdAllocator,
};
use rand::rngs::SmallRng;
use rand::SeedableRng;

#[test]
fn ids_start_at_one_and_increase() {
    let mut ids = IdAllocator::new();
    assert_eq!(ids.next_id(), 1);
    assert_eq!(ids.alloc_id(), 1);
    assert_eq!(ids.alloc_id(), 2);
    assert_eq!(ids.alloc_id(), 3);
    assert_eq!(ids.next_id(), 4);
}

#[test]
fn ids_are_never_repeated() {
    let mut ids = IdAllocator::new();
    let mut seen = std::collections::HashSet::new();
    for _ in 0..1000 {
        assert!(seen.insert(ids.alloc_id()));
    }
}

#[test]
fn ai_count_is_clamped() {
    assert_eq!(clamp_ai_count(0), 8);
    assert_eq!(clamp_ai_count(7), 8);
    assert_eq!(clamp_ai_count(8), 8);
    assert_eq!(clamp_ai_count(13), 13);
    assert_eq!(clamp_ai_count(20), 20);
    assert_eq!(clamp_ai_count(21), 20);
    assert_eq!(clamp_ai_count(usize::MAX), 20);
}

#[test]
fn counts_kinds() {
    let kinds = [
        BubbleKind::Unit,
        BubbleKind::Ai,
        BubbleKind::Player,
        BubbleKind::Ai,
        BubbleKind::Remains,
    ];
    assert_eq!(count_kind(&kinds, BubbleKind::Ai), 2);
    assert_eq!(count_kind(&kinds, BubbleKind::Player), 1);
    assert_eq!(count_kind(&[], BubbleKind::Ai), 0);
}

#[test]
fn finds_first_of_kind() {
    let kinds = [BubbleKind::Unit, BubbleKind::Player, BubbleKind::Player];
    assert_eq!(first_of_kind(&kinds, BubbleKind::Player), Some(1));
    assert_eq!(first_of_kind(&kinds, BubbleKind::Ai), None);
}

#[test]
fn cluster_memory_keeps_the_newest() {
    let mut clusters: Vec<u32> = Vec::new();
    for i in 0..UNIT_CLUSTER_CAP as u32 {
        add_cluster(&mut clusters, i);
    }
    assert_eq!(clusters, (0..9).collect::<Vec<u32>>());
    add_cluster(&mut clusters, 100);
    assert_eq!(clusters, vec![1, 2, 3, 4, 5, 6, 7, 8, 100]);
    add_cluster(&mut clusters, 101);
    assert_eq!(clusters.len(), UNIT_CLUSTER_CAP);
    assert_eq!(clusters[0], 2);
    assert_eq!(*clusters.last().unwrap(), 101);
}

#[test]
fn cluster_memory_below_cap_only_grows() {
    let mut clusters = vec![(1.0f64, 2.0f64)];
    add_cluster(&mut clusters, (3.0, 4.0));
    assert_eq!(clusters, vec![(1.0, 2.0), (3.0, 4.0)]);
}

#[test]
fn no_cluster_to_pick_from_nothing() {
    let mut rng = SmallRng::seed_from_u64(1);
    let clusters: Vec<(f64, f64)> = Vec::new();
    assert_eq!(pick_cluster(&clusters, &mut rng), None);
}

#[test]
fn picks_a_remembered_cluster() {
    let mut rng = SmallRng::seed_from_u64(2);
    let clusters = vec![(10u32, 20u32), (30, 40), (50, 60)];
    let mut seen = std::collections::HashSet::new();
    for _ in 0..200 {
        let c = pick_cluster(&clusters, &mut rng).unwrap();
        assert!(clusters.contains(&c));
        seen.insert(c);
    }
    // the index is drawn, not fixed at the lower bound
    assert_eq!(seen.len(), 3);
}
