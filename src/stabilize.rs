//! Waiting for spawned subtrees to settle: selective replacement and
//! generation-only colliders act once their subtree's counts hold steady.
use vstd::prelude::*;
use bevy_prng::WyRand;
use crate::random::choose_multiple_of;
use crate::structure::StructureReference;

verus! {

/// Consecutive steady observations a selective replacement waits for.
pub const REPLACEMENT_STABLE_FRAMES: u8 = 2;
/// Consecutive steady observations before generation-only colliders are stripped.
pub const COLLIDER_STABLE_FRAMES: u8 = 3;

/// A selective replacement waiting for its initial subtree to finish.
pub struct SelectiveReplacementPending {
    pub replacement_reference: StructureReference,
    pub tags: Vec<String>,
    pub replace_count: usize,
    pub last_descendant_count: usize,
    pub last_candidate_count: usize,
    pub stable_frames: u8,
}

/// The counters of a pending replacement after one observation of its
/// subtree: `descendants` entities below the container, `candidates` of
/// them carrying a wanted tag. Nothing counts as steady while either count
/// is zero or changes; each steady observation adds one.
pub open spec fn replacement_observed(
    last_descendants: usize,
    last_candidates: usize,
    stable: u8,
    descendants: usize,
    candidates: usize,
) -> (usize, usize, u8) {
    if descendants == 0 {
        (0, last_candidates, 0)
    } else if descendants != last_descendants {
        (descendants, last_candidates, 0)
    } else if candidates == 0 {
        (last_descendants, 0, 0)
    } else if candidates != last_candidates {
        (last_descendants, candidates, 0)
    } else {
        (last_descendants, last_candidates, if stable == u8::MAX { stable } else { (stable + 1) as u8 })
    }
}

impl SelectiveReplacementPending {
    /// Records one observation of the subtree (see [`replacement_observed`])
    /// and tells whether the replacement may now be made.
    pub fn observe(&mut self, descendants: usize, candidates: usize) -> (ready: bool)
        ensures
            (final(self).last_descendant_count, final(self).last_candidate_count, final(self).stable_frames)
                == replacement_observed(
                old(self).last_descendant_count,
                old(self).last_candidate_count,
                old(self).stable_frames,
                descendants,
                candidates,
            ),
            final(self).replacement_reference == old(self).replacement_reference,
            final(self).tags == old(self).tags,
            final(self).replace_count == old(self).replace_count,
            ready == (final(self).stable_frames >= REPLACEMENT_STABLE_FRAMES && descendants > 0 && candidates > 0
                && descendants == old(self).last_descendant_count && candidates == old(self).last_candidate_count),
    {
        if descendants == 0 {
            self.last_descendant_count = 0;
            self.stable_frames = 0;
            return false;
        }
        if descendants != self.last_descendant_count {
            self.last_descendant_count = descendants;
            self.stable_frames = 0;
            return false;
        }
        if candidates == 0 {
            self.last_candidate_count = 0;
            self.stable_frames = 0;
            return false;
        }
        if candidates != self.last_candidate_count {
            self.last_candidate_count = candidates;
            self.stable_frames = 0;
            return false;
        }
        if self.stable_frames < u8::MAX {
            self.stable_frames = self.stable_frames + 1;
        }
        self.stable_frames >= REPLACEMENT_STABLE_FRAMES
    }
}

/// Picks the entities to replace: `replace_count` of the candidates at
/// random, or all of them when there are fewer, none twice.
pub fn choose_replacement_targets(candidates: Vec<u64>, replace_count: usize, rng: &mut WyRand) -> (r: Vec<u64>)
    ensures
        r@.len() == if replace_count < candidates@.len() { replace_count as int } else { candidates@.len() as int },
        r@.to_multiset().subset_of(candidates@.to_multiset()),
{
    choose_multiple_of(rng, candidates, replace_count)
}

/// A generation-only-collider subtree waiting to settle.
#[derive(Clone, Copy, Debug, PartialEq, Eq, Structural)]
pub struct GenerationOnlyColliderPending {
    pub last_descendant_count: usize,
    pub last_collider_count: usize,
    pub stable_frames: u8,
}

impl GenerationOnlyColliderPending {
    pub fn new() -> (r: GenerationOnlyColliderPending)
        ensures
            r.last_descendant_count == 0,
            r.last_collider_count == 0,
            r.stable_frames == 0,
    {
        GenerationOnlyColliderPending { last_descendant_count: 0, last_collider_count: 0, stable_frames: 0 }
    }

    /// Records one observation of the subtree and tells whether its
    /// colliders may now be stripped: both counts unchanged adds a steady
    /// observation, any change starts over.
    pub fn observe(&mut self, descendants: usize, colliders: usize) -> (ready: bool)
        ensures
            final(self).last_descendant_count == descendants,
            final(self).last_collider_count == colliders,
            final(self).stable_frames == if descendants == old(self).last_descendant_count
                && colliders == old(self).last_collider_count {
                if old(self).stable_frames == u8::MAX { u8::MAX } else { (old(self).stable_frames + 1) as u8 }
            } else {
                0
            },
            ready == (final(self).stable_frames >= COLLIDER_STABLE_FRAMES),
    {
        if descendants == self.last_descendant_count && colliders == self.last_collider_count {
            if self.stable_frames < u8::MAX {
                self.stable_frames = self.stable_frames + 1;
            }
        } else {
            self.stable_frames = 0;
        }
        self.last_descendant_count = descendants;
        self.last_collider_count = colliders;
        self.stable_frames >= COLLIDER_STABLE_FRAMES
    }
}

/// Colliders whose priority is below this threshold do not shape the navmesh.
#[derive(Clone, Copy, Debug, PartialEq, Eq, Structural)]
pub struct NavMeshPriorityThreshold(pub i8);

impl Default for NavMeshPriorityThreshold {
    fn default() -> (r: NavMeshPriorityThreshold)
        ensures
            r.0 == 1,
    {
        NavMeshPriorityThreshold(1)
    }
}

/// Whether a queued collider becomes a navmesh affector: one without a
/// priority always does, one with a priority when it reaches the threshold.
pub fn affects_navmesh(priority: Option<i8>, threshold: NavMeshPriorityThreshold) -> (r: bool)
    ensures
        r == match priority {
            Some(p) => p >= threshold.0,
            None => true,
        },
{
    match priority {
        Some(p) => p >= threshold.0,
        None => true,
    }
}

} // verus!
