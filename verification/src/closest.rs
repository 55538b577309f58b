//! The scene's closest-hit choice.
//!
//! A scene tests one ray against every primitive it holds, in storage order,
//! and keeps the hit that lies closest to the ray origin.  The caller reports
//! each primitive's outcome as `None` for a miss or the key of the hit's
//! distance from the ray origin, and this module picks the winner: the
//! smallest distance key, the earliest index when several hits are equally
//! close.

use vstd::prelude::*;

verus! {

/// Index of the closest reported hit.
///
/// Returns `None` exactly when every primitive missed.  Otherwise returns
/// `Some(i)` where `i` reports a hit, no hit is strictly closer, and every
/// earlier index either missed or is strictly farther — so under exact
/// distance ties the first-encountered hit wins.
pub fn closest_index(dist: &Vec<Option<u64>>) -> (r: Option<usize>)
    ensures
        (r is None) <==> (forall|j: int| 0 <= j < dist@.len() ==> dist@[j] is None),
        r matches Some(i) ==> i < dist@.len() && dist@[i as int] is Some,
        r matches Some(i) ==> (forall|j: int|
            0 <= j < dist@.len() && dist@[j] is Some ==> dist@[i as int]->0 <= dist@[j]->0),
        r matches Some(i) ==> (forall|j: int|
            0 <= j < i ==> dist@[j] is None || dist@[j]->0 > dist@[i as int]->0),
{
    let mut best: Option<usize> = None;
    let mut best_key: u64 = 0;
    let mut idx: usize = 0;
    while idx < dist.len()
        invariant
            idx <= dist@.len(),
            (best is None) <==> (forall|j: int| 0 <= j < idx ==> dist@[j] is None),
            best matches Some(i) ==> i < idx && dist@[i as int] == Some(best_key),
            best matches Some(i) ==> (forall|j: int|
                0 <= j < idx && dist@[j] is Some ==> best_key <= dist@[j]->0),
            best matches Some(i) ==> (forall|j: int|
                0 <= j < i ==> dist@[j] is None || dist@[j]->0 > best_key),
        decreases dist@.len() - idx,
    {
        if let Some(d) = dist[idx] {
            if best.is_none() || d < best_key {
                best = Some(idx);
                best_key = d;
            }
        }
        idx = idx + 1;
    }
    best
}

} // verus!
