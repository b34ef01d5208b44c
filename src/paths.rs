//! The control flow of path requests: when a request waits for the next
//! tick, how a computed polyline is assembled from its pieces, and how the
//! wobble perturbation retries. The geometry and the navmesh queries are
//! the host's.
use vstd::prelude::*;
use crate::tags::Tags;

verus! {

/// Attempts at a wobbled path before falling back to the base path.
pub const MAX_WOBBLE_ATTEMPTS: u8 = 3;

/// What a path request does in this tick.
#[derive(Clone, Copy, Debug, PartialEq, Eq, Structural)]
pub enum PathStep {
    /// Wait: re-queue the same request for the next tick.
    Requeue,
    /// Query the navmesh now.
    Resolve,
}

/// A request is resolved only when the navmesh is built and idle and some
/// target carrying the tag is known; otherwise it waits, which is no error.
pub fn path_request_step(navmesh_idle: bool, navmesh_ready: bool, target_found: bool) -> (r: PathStep)
    ensures
        r == (if navmesh_idle && navmesh_ready && target_found { PathStep::Resolve } else { PathStep::Requeue }),
{
    if navmesh_idle && navmesh_ready && target_found {
        PathStep::Resolve
    } else {
        PathStep::Requeue
    }
}

/// What to do after a wobble attempt.
#[derive(Clone, Copy, Debug, PartialEq, Eq, Structural)]
pub enum WobbleOutcome {
    /// Keep the wobbled path.
    Accept,
    /// Try again with the amplitude halved the given number of times.
    Retry(u8),
    /// Give up and keep the unperturbed path.
    FallBack,
}

/// The decision after attempt `attempt` (counted from 0): a path whose every
/// leg was found is kept; a failed attempt is retried at half the amplitude
/// while attempts remain.
pub fn wobble_step(attempt: u8, legs_found: bool) -> (r: WobbleOutcome)
    requires
        attempt < MAX_WOBBLE_ATTEMPTS,
    ensures
        legs_found ==> r == WobbleOutcome::Accept,
        !legs_found && attempt + 1 < MAX_WOBBLE_ATTEMPTS ==> r == WobbleOutcome::Retry((attempt + 1) as u8),
        !legs_found && attempt + 1 >= MAX_WOBBLE_ATTEMPTS ==> r == WobbleOutcome::FallBack,
{
    if legs_found {
        WobbleOutcome::Accept
    } else if attempt + 1 < MAX_WOBBLE_ATTEMPTS {
        WobbleOutcome::Retry(attempt + 1)
    } else {
        WobbleOutcome::FallBack
    }
}

/// A path that starts at `start`, runs through the author's checkpoints,
/// then follows the navmesh path from the last checkpoint, whose first
/// point (that checkpoint itself) is not repeated.
pub fn splice_path<T>(start: T, manual: Vec<T>, base: Vec<T>) -> (r: Vec<T>)
    requires
        base@.len() >= 1,
    ensures
        r@ == seq![start] + manual@ + base@.drop_first(),
{
    let ghost m = manual@;
    let ghost b = base@;
    let mut out: Vec<T> = Vec::new();
    out.push(start);
    let mut manual = manual;
    out.append(&mut manual);
    let mut base = base;
    let mut tail = base.split_off(1);
    out.append(&mut tail);
    assert(out@ =~= seq![start] + m + b.drop_first());
    out
}

/// The concatenation of the legs, each without its first point.
pub open spec fn leg_tails<T>(legs: Seq<Seq<T>>) -> Seq<T>
    decreases legs.len(),
{
    if legs.len() == 0 {
        Seq::empty()
    } else {
        leg_tails(legs.drop_last()) + legs.last().drop_first()
    }
}

pub open spec fn legs_view<T>(legs: Seq<Vec<T>>) -> Seq<Seq<T>> {
    Seq::new(legs.len(), |i: int| legs[i]@)
}

/// Chains the legs found between consecutive checkpoints after the kept
/// prefix; each leg starts where the previous one ended, so its first point
/// is dropped.
pub fn join_legs<T>(prefix: Vec<T>, legs: Vec<Vec<T>>) -> (r: Vec<T>)
    requires
        forall|i: int| 0 <= i < legs@.len() ==> (#[trigger] legs@[i])@.len() >= 1,
    ensures
        r@ == prefix@ + leg_tails(legs_view(legs@)),
{
    let ghost all = legs@;
    let mut out = prefix;
    let ghost start = out@;
    let mut rest = legs;
    let n = rest.len();
    let mut i: usize = 0;
    while i < n
        invariant
            n == all.len(),
            i <= n,
            rest@ == all.subrange(i as int, n as int),
            forall|k: int| 0 <= k < all.len() ==> (#[trigger] all[k])@.len() >= 1,
            out@ == start + leg_tails(legs_view(all.subrange(0, i as int))),
        decreases n - i,
    {
        let mut leg = rest.remove(0);
        assert(leg == all[i as int]);
        let mut tail = leg.split_off(1);
        let ghost before = out@;
        out.append(&mut tail);
        assert(legs_view(all.subrange(0, i + 1)).drop_last() =~= legs_view(all.subrange(0, i as int)));
        assert(legs_view(all.subrange(0, i + 1)).last() == all[i as int]@);
        assert(out@ =~= start + leg_tails(legs_view(all.subrange(0, i + 1))));
        assert(rest@ =~= all.subrange(i + 1, n as int));
        i += 1;
    }
    assert(all.subrange(0, n as int) =~= all);
    out
}

/// Whether a path store labelled `label` still needs a holder: it does when
/// a label is given and no existing holder carries it as a tag.
pub fn store_holder_needed(label: &Option<String>, holders: &Vec<Tags>) -> (r: bool)
    ensures
        r == (label is Some && forall|i: int|
            0 <= i < holders@.len() ==> !(#[trigger] holders@[i])@.contains(label->Some_0@)),
{
    match label {
        None => false,
        Some(l) => {
            let mut i: usize = 0;
            while i < holders.len()
                invariant
                    label is Some && label->Some_0@ == l@,
                    i <= holders@.len(),
                    forall|k: int| 0 <= k < i ==> !(#[trigger] holders@[k])@.contains(l@),
                decreases holders@.len() - i,
            {
                if holders[i].contains(l.as_str()) {
                    assert(holders@[i as int]@.contains(l@));
                    return false;
                }
                i += 1;
            }
            true
        },
    }
}

} // verus!
