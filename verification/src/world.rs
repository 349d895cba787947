//! Identities, population counts and the memory of rich areas on the map.

use vstd::prelude::*;
use crate::bubble::BubbleKind;
use crate::config::{MAX_AI, MIN_AI, UNIT_CLUSTER_CAP};
use crate::random::random_below;

verus! {

/// The first identity handed out on a fresh map.
pub const FIRST_ID: u32 = 1;

/// Hands out bubble identities, each once.
pub struct IdAllocator {
    next_id: u32,
}

impl IdAllocator {
    #[verifier::type_invariant]
    spec fn wf(self) -> bool {
        self.next_id >= FIRST_ID
    }

    /// The identity the next allocation hands out.
    pub closed spec fn next(self) -> u32 {
        self.next_id
    }

    /// Every identity handed out so far.
    pub open spec fn issued(self) -> Set<u32> {
        Set::new(|x: u32| FIRST_ID <= x < self.next())
    }

    /// An allocator that has handed out nothing.
    pub fn new() -> (a: IdAllocator)
        ensures
            a.next() == FIRST_ID,
            a.issued() == Set::<u32>::empty(),
    {
        let a = IdAllocator { next_id: FIRST_ID };
        assert(a.issued() =~= Set::<u32>::empty());
        a
    }

    /// The identity the next allocation will hand out.
    pub fn next_id(&self) -> (id: u32)
        ensures
            id == self.next(),
    {
        self.next_id
    }

    /// Hands out the next identity. It differs from every identity handed
    /// out before, and identities are handed out in increasing order.
    pub fn alloc_id(&mut self) -> (id: u32)
        requires
            old(self).next() < u32::MAX,
        ensures
            id == old(self).next(),
            final(self).next() == old(self).next() + 1,
            !old(self).issued().contains(id),
            final(self).issued() == old(self).issued().insert(id),
            forall|x: u32| #[trigger] old(self).issued().contains(x) ==> x < id,
    {
        proof {
            use_type_invariant(&*self);
        }
        let id = self.next_id;
        self.next_id = self.next_id + 1;
        assert(final(self).issued() =~= old(self).issued().insert(id));
        id
    }
}

/// The AI population a map asks for, from the number its area gives:
/// at least `MIN_AI` and at most `MAX_AI`.
pub fn clamp_ai_count(count: usize) -> (n: usize)
    ensures
        n == if count < MIN_AI {
            MIN_AI
        } else if count > MAX_AI {
            MAX_AI
        } else {
            count
        },
{
    if count < MIN_AI {
        MIN_AI
    } else if count > MAX_AI {
        MAX_AI
    } else {
        count
    }
}

/// How many of `kinds` equal `kind`.
pub open spec fn count_of(kinds: Seq<BubbleKind>, kind: BubbleKind) -> nat
    decreases kinds.len(),
{
    if kinds.len() == 0 {
        0
    } else {
        count_of(kinds.drop_last(), kind) + if kinds.last() == kind {
            1nat
        } else {
            0nat
        }
    }
}

/// No bubbles hold no bubble of any kind, and adding a bubble at the end
/// adds one to the count of its own kind and nothing to the others.
pub proof fn law_count_of_counts_every_bubble(kinds: Seq<BubbleKind>, added: BubbleKind, kind: BubbleKind)
    ensures
        count_of(Seq::<BubbleKind>::empty(), kind) == 0,
        count_of(kinds.push(added), kind) == count_of(kinds, kind) + if added == kind {
            1nat
        } else {
            0nat
        },
        count_of(kinds, kind) <= kinds.len(),
    decreases kinds.len(),
{
    assert(kinds.push(added).drop_last() =~= kinds);
    if kinds.len() > 0 {
        law_count_of_counts_every_bubble(kinds.drop_last(), added, kind);
    }
}

/// How many bubbles are of `kind`, given the kinds of all bubbles on the map.
pub fn count_kind(kinds: &[BubbleKind], kind: BubbleKind) -> (n: usize)
    ensures
        n == count_of(kinds@, kind),
{
    let mut n: usize = 0;
    let mut i: usize = 0;
    while i < kinds.len()
        invariant
            i <= kinds@.len(),
            n == count_of(kinds@.take(i as int), kind),
            n <= i,
        decreases kinds@.len() - i,
    {
        assert(kinds@.take(i + 1).drop_last() =~= kinds@.take(i as int));
        if kinds[i] == kind {
            n = n + 1;
        }
        i = i + 1;
    }
    assert(kinds@.take(i as int) =~= kinds@);
    n
}

/// The position of the first bubble of `kind`, given the kinds of all bubbles.
pub fn first_of_kind(kinds: &[BubbleKind], kind: BubbleKind) -> (found: Option<usize>)
    ensures
        match found {
            Some(i) => i < kinds@.len() && kinds@[i as int] == kind && forall|j: int|
                0 <= j < i ==> kinds@[j] != kind,
            None => forall|j: int| 0 <= j < kinds@.len() ==> kinds@[j] != kind,
        },
{
    let mut i: usize = 0;
    while i < kinds.len()
        invariant
            i <= kinds@.len(),
            forall|j: int| 0 <= j < i ==> kinds@[j] != kind,
        decreases kinds@.len() - i,
    {
        if kinds[i] == kind {
            return Some(i);
        }
        i = i + 1;
    }
    None
}

/// The remembered rich areas after adding one: the new area goes last and,
/// when more than `UNIT_CLUSTER_CAP` would be remembered, the oldest is
/// forgotten.
pub open spec fn clusters_after_add<T>(clusters: Seq<T>, area: T) -> Seq<T> {
    if clusters.len() + 1 > UNIT_CLUSTER_CAP {
        clusters.push(area).drop_first()
    } else {
        clusters.push(area)
    }
}

/// Remembers a rich area, forgetting the oldest one when the memory is full.
pub fn add_cluster<T>(clusters: &mut Vec<T>, area: T)
    requires
        old(clusters)@.len() < usize::MAX,
    ensures
        final(clusters)@ == clusters_after_add(old(clusters)@, area),
{
    clusters.push(area);
    if clusters.len() > UNIT_CLUSTER_CAP {
        clusters.remove(0);
    }
}

/// The memory of rich areas never grows past `UNIT_CLUSTER_CAP`, the area
/// added last is the newest one, and the areas kept stay in their order.
pub proof fn law_cluster_memory_bounded<T>(clusters: Seq<T>, area: T)
    requires
        clusters.len() <= UNIT_CLUSTER_CAP,
    ensures
        clusters_after_add(clusters, area).len() <= UNIT_CLUSTER_CAP,
        clusters_after_add(clusters, area).last() == area,
        clusters.len() < UNIT_CLUSTER_CAP ==> clusters_after_add(clusters, area) == clusters.push(
            area,
        ),
        clusters.len() == UNIT_CLUSTER_CAP ==> clusters_after_add(clusters, area) == clusters.skip(
            1,
        ).push(area),
{
    if clusters.len() == UNIT_CLUSTER_CAP {
        assert(clusters.push(area).drop_first() =~= clusters.skip(1).push(area));
    }
}

/// A rich area chosen at random among those remembered, or nothing when none
/// is remembered (the caller then picks a point of the map instead).
pub fn pick_cluster<T: Copy>(clusters: &Vec<T>, rng: &mut rand::rngs::SmallRng) -> (picked: Option<T>)
    ensures
        clusters@.len() == 0 <==> picked is None,
        picked matches Some(c) ==> clusters@.contains(c),
{
    if clusters.len() == 0 {
        return None;
    }
    let idx = random_below(rng, 0, clusters.len());
    let c = clusters[idx];
    assert(clusters@[idx as int] == c);
    Some(c)
}

} // verus!
