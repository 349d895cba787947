use bubble_game::collision::{events_still_valid, first_per_key, hit_pairs};

fn table(n: usize, hits: &[(usize, usize)]) -> Vec<Vec<bool>> {
    let mut t = vec![vec![false; n]; n];
    for &(i, j) in hits {
        t[i][j] = true;
    }
    t
}

#[test]
fn pairs_come_in_scan_order() {
    let t = table(3, &[(2, 0), (0, 1), (1, 2), (0, 2)]);
    assert_eq!(hit_pairs(&t), vec![(0, 1), (0, 2), (1, 2), (2, 0)]);
}

#[test]
fn a_bubble_never_acts_on_itself() {
    let t = table(2, &[(0, 0), (1, 1), (1, 0)]);
    assert_eq!(hit_pairs(&t), vec![(1, 0)]);
}

#[test]
fn empty_table_gives_no_pairs() {
    assert_eq!(hit_pairs(&Vec::new()), Vec::<(usize, usize)>::new());
    assert_eq!(hit_pairs(&table(4, &[])), Vec::<(usize, usize)>::new());
}

#[test]
fn first_event_per_key_by_increasing_key() {
    let keys = vec![30, 10, 30, 20, 10];
    assert_eq!(first_per_key(&keys), vec![1, 3, 0]);
}

#[test]
fn no_events_give_no_choice() {
    assert_eq!(first_per_key(&Vec::new()), Vec::<usize>::new());
}

#[test]
fn extreme_keys_are_kept() {
    let keys = vec![u32::MAX, 0, u32::MAX, 0];
    assert_eq!(first_per_key(&keys), vec![1, 0]);
}

#[test]
fn first_eater_in_scan_order_wins() {
    // bubbles 0 and 1 both swallow bubble 2; bubble 1 also swallows bubble 3
    let ids = [5u32, 6, 7, 8];
    let t = table(4, &[(0, 2), (1, 2), (1, 3)]);
    let pairs = hit_pairs(&t);
    let keys: Vec<u32> = pairs.iter().map(|&(_, j)| ids[j]).collect();
    let chosen: Vec<(usize, usize)> = first_per_key(&keys).into_iter().map(|k| pairs[k]).collect();
    assert_eq!(chosen, vec![(0, 2), (1, 3)]);
}

#[test]
fn events_are_ordered_by_victim_id() {
    let ids = [9u32, 3, 5];
    let t = table(3, &[(1, 0), (0, 1), (0, 2)]);
    let pairs = hit_pairs(&t);
    let keys: Vec<u32> = pairs.iter().map(|&(_, j)| ids[j]).collect();
    let chosen: Vec<(usize, usize)> = first_per_key(&keys).into_iter().map(|k| pairs[k]).collect();
    assert_eq!(chosen, vec![(0, 1), (0, 2), (1, 0)]);
}

#[test]
fn eaten_bubble_eats_no_more() {
    // 2 eats 1, then 3 eats 2, then 2 eats 4 (too late: 2 is gone), then 5 eats 3
    let actors = vec![2, 3, 2, 5];
    let victims = vec![1, 2, 4, 3];
    assert_eq!(events_still_valid(&actors, &victims), vec![true, true, false, true]);
}

#[test]
fn victims_of_dropped_events_stay() {
    // 1 eats 2; then 2 would eat 3 but 2 is gone, so 3 stays and may still eat 4
    let actors = vec![1, 2, 3];
    let victims = vec![2, 3, 4];
    assert_eq!(events_still_valid(&actors, &victims), vec![true, false, true]);
}

#[test]
fn no_events_nothing_applies() {
    assert_eq!(events_still_valid(&Vec::new(), &Vec::new()), Vec::<bool>::new());
}
