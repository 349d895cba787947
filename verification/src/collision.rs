//! Choosing a tick's collision events: which pairs of bubbles meet, and which
//! single event each victim takes part in.
//!
//! Whether a bubble eats or smothers another is decided from positions and
//! radii by the caller, who hands over the outcome of every ordered pair as a
//! square table of booleans, `hits[i][j]` meaning that bubble `i` acts on
//! bubble `j`.

use vstd::prelude::*;

verus! {

/// Bubble `i` acts on a different bubble `j` in the table.
pub open spec fn is_hit(hits: Seq<Vec<bool>>, i: int, j: int) -> bool {
    &&& 0 <= i < hits.len()
    &&& 0 <= j < hits.len()
    &&& i != j
    &&& j < hits[i]@.len()
    &&& hits[i]@[j]
}

/// `a` comes before `b` when pairs are scanned by first index, then second.
pub open spec fn pair_before(a: (usize, usize), b: (usize, usize)) -> bool {
    a.0 < b.0 || (a.0 == b.0 && a.1 < b.1)
}

/// Every row of the table is as long as the table.
pub open spec fn is_square(hits: Seq<Vec<bool>>) -> bool {
    forall|i: int| 0 <= i < hits.len() ==> #[trigger] hits[i]@.len() == hits.len()
}

/// `pairs` lists exactly the pairs of the table that hit, in scan order.
pub open spec fn lists_hits(hits: Seq<Vec<bool>>, pairs: Seq<(usize, usize)>) -> bool {
    &&& forall|k: int| 0 <= k < pairs.len() ==> is_hit(hits, #[trigger] pairs[k].0 as int, pairs[k].1 as int)
    &&& forall|k1: int, k2: int|
        0 <= k1 < k2 < pairs.len() ==> pair_before(#[trigger] pairs[k1], #[trigger] pairs[k2])
    &&& forall|i: int, j: int| #[trigger]
        is_hit(hits, i, j) ==> exists|k: int| 0 <= k < pairs.len() && #[trigger] pairs[k] == (i as usize, j as usize)
}

/// The pairs `(i, j)` of different bubbles with `hits[i][j]`, ordered by `i`
/// and then by `j`: the order in which a tick scans all pairs.
pub fn hit_pairs(hits: &Vec<Vec<bool>>) -> (pairs: Vec<(usize, usize)>)
    requires
        is_square(hits@),
    ensures
        lists_hits(hits@, pairs@),
{
    let n = hits.len();
    let mut pairs: Vec<(usize, usize)> = Vec::new();
    let mut i: usize = 0;
    while i < n
        invariant
            n == hits@.len(),
            is_square(hits@),
            i <= n,
            forall|k: int| 0 <= k < pairs@.len() ==> is_hit(hits@, #[trigger] pairs@[k].0 as int, pairs@[k].1 as int),
            forall|k: int| 0 <= k < pairs@.len() ==> #[trigger] pairs@[k].0 < i,
            forall|k1: int, k2: int|
                0 <= k1 < k2 < pairs@.len() ==> pair_before(#[trigger] pairs@[k1], #[trigger] pairs@[k2]),
            forall|a: int, b: int| #[trigger]
                is_hit(hits@, a, b) && a < i ==> exists|k: int|
                    0 <= k < pairs@.len() && #[trigger] pairs@[k] == (a as usize, b as usize),
        decreases n - i,
    {
        let row = &hits[i];
        let mut j: usize = 0;
        while j < n
            invariant
                n == hits@.len(),
                is_square(hits@),
                i < n,
                j <= n,
                row@ == hits@[i as int]@,
                row@.len() == n,
                forall|k: int| 0 <= k < pairs@.len() ==> is_hit(hits@, #[trigger] pairs@[k].0 as int, pairs@[k].1 as int),
                forall|k: int|
                    0 <= k < pairs@.len() ==> pair_before(#[trigger] pairs@[k], (i, j)),
                forall|k1: int, k2: int|
                    0 <= k1 < k2 < pairs@.len() ==> pair_before(#[trigger] pairs@[k1], #[trigger] pairs@[k2]),
                forall|a: int, b: int| #[trigger]
                    is_hit(hits@, a, b) && (a < i || (a == i && b < j)) ==> exists|k: int|
                        0 <= k < pairs@.len() && #[trigger] pairs@[k] == (a as usize, b as usize),
            decreases n - j,
        {
            if i != j && row[j] {
                let ghost old_pairs = pairs@;
                pairs.push((i, j));
                assert forall|a: int, b: int| #[trigger]
                    is_hit(hits@, a, b) && (a < i || (a == i && b < j + 1)) implies exists|k: int|
                        0 <= k < pairs@.len() && #[trigger] pairs@[k] == (a as usize, b as usize) by {
                    if a == i && b == j {
                        assert(pairs@[old_pairs.len() as int] == (a as usize, b as usize));
                    } else {
                        let k = choose|k: int|
                            0 <= k < old_pairs.len() && #[trigger] old_pairs[k] == (a as usize, b as usize);
                        assert(pairs@[k] == old_pairs[k]);
                    }
                }
            } else {
                assert forall|a: int, b: int| #[trigger]
                    is_hit(hits@, a, b) && (a < i || (a == i && b < j + 1)) implies exists|k: int|
                        0 <= k < pairs@.len() && #[trigger] pairs@[k] == (a as usize, b as usize) by {
                    if a == i && b == j {
                        assert(!is_hit(hits@, a, b));
                    }
                }
            }
            j = j + 1;
        }
        i = i + 1;
    }
    pairs
}

/// `chosen` picks, in increasing order of key, the first position of each
/// distinct key in `keys`.
pub open spec fn picks_first_per_key(keys: Seq<u32>, chosen: Seq<usize>) -> bool {
    &&& forall|k: int| 0 <= k < chosen.len() ==> #[trigger] chosen[k] < keys.len()
    &&& forall|k1: int, k2: int|
        0 <= k1 < k2 < chosen.len() ==> keys[#[trigger] chosen[k1] as int] < keys[#[trigger] chosen[k2] as int]
    &&& forall|k: int, m: int|
        #![trigger keys[m], chosen[k]]
        0 <= k < chosen.len() && 0 <= m < chosen[k] ==> keys[m] != keys[chosen[k] as int]
    &&& forall|m: int| 0 <= m < keys.len() ==> #[trigger] key_picked(keys, chosen, keys[m])
}

/// Some pick holds `key`.
pub open spec fn key_picked(keys: Seq<u32>, chosen: Seq<usize>, key: u32) -> bool {
    exists|k: int| 0 <= k < chosen.len() && keys[#[trigger] chosen[k] as int] == key
}

/// A key may be picked next: above the last key picked, if any.
pub open spec fn eligible(have_last: bool, last: u32, key: u32) -> bool {
    !have_last || key > last
}

/// What holds of the picks made so far, `last` being the last key picked.
pub open spec fn picks_so_far(keys: Seq<u32>, chosen: Seq<usize>, have_last: bool, last: u32) -> bool {
    &&& forall|k: int| 0 <= k < chosen.len() ==> #[trigger] chosen[k] < keys.len()
    &&& forall|k1: int, k2: int|
        0 <= k1 < k2 < chosen.len() ==> keys[#[trigger] chosen[k1] as int] < keys[#[trigger] chosen[k2] as int]
    &&& forall|k: int, m: int|
        #![trigger keys[m], chosen[k]]
        0 <= k < chosen.len() && 0 <= m < chosen[k] ==> keys[m] != keys[chosen[k] as int]
    &&& !have_last ==> chosen.len() == 0
    &&& have_last ==> chosen.len() > 0 && keys[chosen.last() as int] == last
    &&& forall|k: int| 0 <= k < chosen.len() ==> keys[#[trigger] chosen[k] as int] <= last
    &&& forall|m: int| 0 <= m < keys.len() && !eligible(have_last, last, keys[m]) ==> #[trigger] key_picked(keys, chosen, keys[m])
}

/// `b` holds the least eligible key, and is its first position.
pub open spec fn least_eligible(keys: Seq<u32>, have_last: bool, last: u32, b: int) -> bool {
    &&& 0 <= b < keys.len()
    &&& eligible(have_last, last, keys[b])
    &&& forall|p: int| 0 <= p < keys.len() && eligible(have_last, last, #[trigger] keys[p]) ==> keys[b] <= keys[p]
    &&& forall|p: int| 0 <= p < b && eligible(have_last, last, #[trigger] keys[p]) ==> keys[b] < keys[p]
}

/// The first position of the least key above `last` (of the least key, when
/// nothing was picked yet), or nothing when no key is eligible.
fn least_key_position(keys: &Vec<u32>, have_last: bool, last: u32) -> (best: Option<usize>)
    ensures
        match best {
            Some(b) => least_eligible(keys@, have_last, last, b as int),
            None => forall|p: int| 0 <= p < keys@.len() ==> !eligible(have_last, last, #[trigger] keys@[p]),
        },
{
    let n = keys.len();
    let mut best: Option<usize> = None;
    let mut m: usize = 0;
    while m < n
        invariant
            n == keys@.len(),
            m <= n,
            match best {
                Some(b) => {
                    &&& b < m
                    &&& eligible(have_last, last, keys@[b as int])
                    &&& forall|p: int| 0 <= p < m && eligible(have_last, last, #[trigger] keys@[p]) ==> keys@[b as int] <= keys@[p]
                    &&& forall|p: int| 0 <= p < b && eligible(have_last, last, #[trigger] keys@[p]) ==> keys@[b as int] < keys@[p]
                },
                None => forall|p: int| 0 <= p < m ==> !eligible(have_last, last, #[trigger] keys@[p]),
            },
        decreases n - m,
    {
        let km = keys[m];
        if !have_last || km > last {
            match best {
                None => {
                    best = Some(m);
                },
                Some(b) => {
                    if km < keys[b] {
                        best = Some(m);
                    }
                },
            }
        }
        m = m + 1;
    }
    best
}

/// Picking the least eligible key keeps what holds of the picks.
proof fn lemma_pick_next(keys: Seq<u32>, chosen: Seq<usize>, have_last: bool, last: u32, b: usize)
    requires
        picks_so_far(keys, chosen, have_last, last),
        least_eligible(keys, have_last, last, b as int),
    ensures
        picks_so_far(keys, chosen.push(b), true, keys[b as int]),
{
    let kb = keys[b as int];
    let c2 = chosen.push(b);
    assert(c2[chosen.len() as int] == b);
    assert forall|k: int, p: int|
        #![trigger keys[p], c2[k]]
        0 <= k < c2.len() && 0 <= p < c2[k] implies keys[p] != keys[c2[k] as int] by {
        if k < chosen.len() {
            assert(c2[k] == chosen[k]);
        }
    }
    assert forall|p: int| 0 <= p < keys.len() && !eligible(true, kb, keys[p]) implies #[trigger] key_picked(keys, c2, keys[p]) by {
        if eligible(have_last, last, keys[p]) {
            assert(keys[c2[chosen.len() as int] as int] == keys[p]);
        } else {
            assert(key_picked(keys, chosen, keys[p]));
            let k = choose|k: int| 0 <= k < chosen.len() && keys[#[trigger] chosen[k] as int] == keys[p];
            assert(c2[k] == chosen[k]);
        }
    }
    assert forall|k1: int, k2: int|
        0 <= k1 < k2 < c2.len() implies keys[#[trigger] c2[k1] as int] < keys[#[trigger] c2[k2] as int] by {
        assert(c2[k1] == chosen[k1]);
        if k2 < chosen.len() {
            assert(c2[k2] == chosen[k2]);
        }
    }
    assert forall|k: int| 0 <= k < c2.len() implies keys[#[trigger] c2[k] as int] <= kb by {
        if k < chosen.len() {
            assert(c2[k] == chosen[k]);
        }
    }
    assert forall|k: int| 0 <= k < c2.len() implies #[trigger] c2[k] < keys.len() by {
        if k < chosen.len() {
            assert(c2[k] == chosen[k]);
        }
    }
}

/// Of the events keyed by `keys` (the identity of each event's victim, in
/// scan order), the positions of those to keep: one per distinct key, the
/// first in scan order, listed by increasing key.
pub fn first_per_key(keys: &Vec<u32>) -> (chosen: Vec<usize>)
    ensures
        picks_first_per_key(keys@, chosen@),
{
    let mut chosen: Vec<usize> = Vec::new();
    let mut have_last = false;
    let mut last: u32 = 0;
    let mut done = false;
    while !done
        invariant
            picks_so_far(keys@, chosen@, have_last, last),
            done ==> forall|p: int| 0 <= p < keys@.len() ==> !eligible(have_last, last, #[trigger] keys@[p]),
        decreases (if done { 0int } else if have_last { u32::MAX - last + 1 } else { u32::MAX + 2 }),
    {
        match least_key_position(keys, have_last, last) {
            None => {
                done = true;
            },
            Some(b) => {
                proof {
                    lemma_pick_next(keys@, chosen@, have_last, last, b);
                }
                chosen.push(b);
                have_last = true;
                last = keys[b];
            },
        }
    }
    assert forall|m: int| 0 <= m < keys@.len() implies #[trigger] key_picked(keys@, chosen@, keys@[m]) by {
        assert(!eligible(have_last, last, keys@[m]));
    }
    chosen
}

/// The key of each listed pair: the identity of the pair's second bubble,
/// the one acted on.
pub open spec fn victim_keys(ids: Seq<u32>, pairs: Seq<(usize, usize)>) -> Seq<u32> {
    Seq::new(pairs.len(), |k: int| ids[pairs[k].1 as int])
}

/// No two bubbles share an identity.
pub open spec fn ids_unique(ids: Seq<u32>) -> bool {
    forall|a: int, b: int| 0 <= a < b < ids.len() ==> ids[a] != ids[b]
}

/// Choosing a tick's events by scanning all pairs and keeping the first
/// event per victim means: no bubble is the victim of two chosen events;
/// the bubble that acts on a victim is the first one, in scan order, that
/// hits it; and every bubble that is hit at all is the victim of a chosen
/// event.
pub proof fn law_first_actor_wins(
    hits: Seq<Vec<bool>>,
    ids: Seq<u32>,
    pairs: Seq<(usize, usize)>,
    chosen: Seq<usize>,
)
    requires
        is_square(hits),
        hits.len() <= usize::MAX,
        ids.len() == hits.len(),
        ids_unique(ids),
        lists_hits(hits, pairs),
        picks_first_per_key(victim_keys(ids, pairs), chosen),
    ensures
        forall|k1: int, k2: int|
            0 <= k1 < k2 < chosen.len() ==> #[trigger] pairs[chosen[k1] as int].1 != #[trigger] pairs[chosen[k2] as int].1,
        forall|k: int, i: int|
            0 <= k < chosen.len() && 0 <= i < pairs[chosen[k] as int].0 ==> !#[trigger] is_hit(hits, i, pairs[chosen[k] as int].1 as int),
        forall|i: int, j: int|
            is_hit(hits, i, j) ==> exists|k: int| 0 <= k < chosen.len() && #[trigger] pairs[chosen[k] as int].1 == j,
{
    let keys = victim_keys(ids, pairs);
    assert forall|k1: int, k2: int|
        0 <= k1 < k2 < chosen.len() implies #[trigger] pairs[chosen[k1] as int].1 != #[trigger] pairs[chosen[k2] as int].1 by {
        assert(keys[chosen[k1] as int] < keys[chosen[k2] as int]);
    }
    assert forall|k: int, i: int|
        0 <= k < chosen.len() && 0 <= i < pairs[chosen[k] as int].0 implies !#[trigger] is_hit(hits, i, pairs[chosen[k] as int].1 as int) by {
        let c = chosen[k] as int;
        let j = pairs[c].1 as int;
        if is_hit(hits, i, j) {
            let m = choose|m: int| 0 <= m < pairs.len() && #[trigger] pairs[m] == (i as usize, j as usize);
            if m > c {
                assert(pair_before(pairs[c], pairs[m]));
            }
            assert(m != c);
            assert(m < c);
            assert(keys[m] == keys[c]);
            assert(false);
        }
    }
    assert forall|i: int, j: int|
        is_hit(hits, i, j) implies exists|k: int| 0 <= k < chosen.len() && #[trigger] pairs[chosen[k] as int].1 == j by {
        let m = choose|m: int| 0 <= m < pairs.len() && #[trigger] pairs[m] == (i as usize, j as usize);
        assert(key_picked(keys, chosen, keys[m]));
        let k = choose|k: int| 0 <= k < chosen.len() && keys[#[trigger] chosen[k] as int] == keys[m];
        let j2 = pairs[chosen[k] as int].1 as int;
        assert(pairs[m].1 == j as usize);
        assert(keys[m] == ids[j]);
        assert(chosen[k] < keys.len());
        assert(keys[chosen[k] as int] == ids[j2]);
        assert(ids[j2] == ids[j]);
        if j2 < j {
            assert(ids[j2] != ids[j]);
        } else if j < j2 {
            assert(ids[j] != ids[j2]);
        }
    }
}

/// Bubble `id` was the victim of an event applied before position `k`.
pub open spec fn removed_before(victims: Seq<u32>, applied: Seq<bool>, k: int, id: u32) -> bool {
    exists|m: int| 0 <= m < k && #[trigger] applied[m] && victims[m] == id
}

/// `applied` marks, in order, the events that still apply: an event applies
/// unless its actor or its victim was removed by an event applied before it.
pub open spec fn applies_in_order(actors: Seq<u32>, victims: Seq<u32>, applied: Seq<bool>) -> bool {
    &&& applied.len() == actors.len()
    &&& forall|k: int|
        0 <= k < applied.len() ==> #[trigger] applied[k] == (!removed_before(victims, applied, k, actors[k])
            && !removed_before(victims, applied, k, victims[k]))
}

/// Whether `removed_before` depends only on the marks before `k`.
proof fn lemma_removed_before_prefix(victims: Seq<u32>, a1: Seq<bool>, a2: Seq<bool>, k: int, id: u32)
    requires
        0 <= k <= a1.len(),
        k <= a2.len(),
        forall|m: int| 0 <= m < k ==> a1[m] == a2[m],
    ensures
        removed_before(victims, a1, k, id) == removed_before(victims, a2, k, id),
{
    if removed_before(victims, a1, k, id) {
        let m = choose|m: int| 0 <= m < k && #[trigger] a1[m] && victims[m] == id;
        assert(a2[m]);
    }
    if removed_before(victims, a2, k, id) {
        let m = choose|m: int| 0 <= m < k && #[trigger] a2[m] && victims[m] == id;
        assert(a1[m]);
    }
}

/// Whether `id` is among `ids`.
fn holds_id(ids: &Vec<u32>, id: u32) -> (found: bool)
    ensures
        found == ids@.contains(id),
{
    let mut i: usize = 0;
    while i < ids.len()
        invariant
            i <= ids@.len(),
            forall|j: int| 0 <= j < i ==> ids@[j] != id,
        decreases ids@.len() - i,
    {
        if ids[i] == id {
            assert(ids@[i as int] == id);
            return true;
        }
        i = i + 1;
    }
    false
}

/// Of a tick's events, given in the order they are applied by the identities
/// of their actors and victims, which still apply when their turn comes: a
/// bubble removed by an earlier event neither acts nor is acted on again.
pub fn events_still_valid(actors: &Vec<u32>, victims: &Vec<u32>) -> (applied: Vec<bool>)
    requires
        actors@.len() == victims@.len(),
    ensures
        applies_in_order(actors@, victims@, applied@),
{
    let n = actors.len();
    let mut applied: Vec<bool> = Vec::new();
    let mut removed: Vec<u32> = Vec::new();
    let mut k: usize = 0;
    while k < n
        invariant
            n == actors@.len(),
            n == victims@.len(),
            k <= n,
            applied@.len() == k,
            forall|id: u32| #[trigger] removed@.contains(id) == removed_before(victims@, applied@, k as int, id),
            forall|j: int|
                0 <= j < k ==> #[trigger] applied@[j] == (!removed_before(victims@, applied@, j, actors@[j])
                    && !removed_before(victims@, applied@, j, victims@[j])),
        decreases n - k,
    {
        let actor = actors[k];
        let victim = victims[k];
        let ok = !holds_id(&removed, actor) && !holds_id(&removed, victim);
        let ghost old_applied = applied@;
        let ghost old_removed = removed@;
        applied.push(ok);
        if ok {
            removed.push(victim);
        }
        proof {
            assert forall|j: int, id: u32| 0 <= j <= k implies
                removed_before(victims@, applied@, j, id) == #[trigger] removed_before(victims@, old_applied, j, id) by {
                lemma_removed_before_prefix(victims@, applied@, old_applied, j, id);
            }
            assert forall|id: u32| #[trigger] removed@.contains(id) == removed_before(victims@, applied@, k + 1, id) by {
                if removed_before(victims@, applied@, k + 1, id) {
                    let m = choose|m: int| 0 <= m < k + 1 && #[trigger] applied@[m] && victims@[m] == id;
                    if m < k {
                        assert(removed_before(victims@, old_applied, k as int, id));
                        assert(old_removed.contains(id));
                        let w = choose|w: int| 0 <= w < old_removed.len() && old_removed[w] == id;
                        assert(removed@[w] == id);
                    } else {
                        assert(removed@[removed@.len() - 1] == id);
                    }
                }
                if removed@.contains(id) {
                    let w = choose|w: int| 0 <= w < removed@.len() && removed@[w] == id;
                    if w < old_removed.len() {
                        assert(old_removed[w] == id);
                        assert(old_removed.contains(id));
                        assert(removed_before(victims@, old_applied, k as int, id));
                        let m = choose|m: int| 0 <= m < k && #[trigger] old_applied[m] && victims@[m] == id;
                        assert(applied@[m]);
                    } else {
                        assert(applied@[k as int]);
                    }
                }
            }
            assert(applied@[k as int] == (!removed_before(victims@, applied@, k as int, actors@[k as int])
                && !removed_before(victims@, applied@, k as int, victims@[k as int])));
        }
        k = k + 1;
    }
    applied
}

/// Once an event removes a bubble, no later event of the tick applies to it:
/// the bubble neither acts nor is acted on again.
pub proof fn law_removed_bubbles_act_no_more(
    actors: Seq<u32>,
    victims: Seq<u32>,
    applied: Seq<bool>,
    k: int,
    later: int,
)
    requires
        applies_in_order(actors, victims, applied),
        0 <= k < later < applied.len(),
        applied[k],
    ensures
        applied[later] ==> actors[later] != victims[k] && victims[later] != victims[k],
{
    if applied[later] && actors[later] == victims[k] {
        assert(removed_before(victims, applied, later, actors[later]));
    }
    if applied[later] && victims[later] == victims[k] {
        assert(removed_before(victims, applied, later, victims[later]));
    }
}

} // verus!
