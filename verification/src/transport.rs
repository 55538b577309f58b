//! Control discipline of the radiance estimator.
//!
//! One evaluation step of the estimator queries the scene, then branches: a
//! miss yields the background gradient; a hit with an exhausted bounce
//! budget yields black; otherwise the hit's material is asked to scatter,
//! and an absorbed ray again yields black, while a scattered ray continues
//! the path with one bounce fewer.  The numeric colors belong to the caller;
//! this module fixes which branch is taken and proves that the budget bounds
//! the number of scene queries a single estimate can make.

use vstd::prelude::*;

verus! {

/// What the estimator does after one scene query.
#[derive(Clone, Copy, Debug, PartialEq, Eq, Structural)]
pub enum PathStep {
    /// The ray left the scene: emit the background gradient.
    EmitBackground,
    /// A hit with no bounce budget left: the path carries no light.
    EmitBlack,
    /// A hit within budget: ask the material to scatter.
    ScatterAndContinue,
}

/// The branch taken right after the scene query: background on a miss, black
/// on a hit once the budget has gone negative, scattering otherwise.
pub fn classify_surface(hit: bool, bounces_remaining: i32) -> (r: PathStep)
    ensures
        r == (if !hit {
            PathStep::EmitBackground
        } else if bounces_remaining < 0 {
            PathStep::EmitBlack
        } else {
            PathStep::ScatterAndContinue
        }),
{
    if !hit {
        PathStep::EmitBackground
    } else if bounces_remaining < 0 {
        PathStep::EmitBlack
    } else {
        PathStep::ScatterAndContinue
    }
}

/// The branch taken after the material's answer: an absorbed ray ends the
/// path with no budget to pass on, a scattered ray continues it with one
/// bounce fewer.
pub fn classify_scatter(scattered: bool, bounces_remaining: i32) -> (r: Option<i32>)
    requires
        bounces_remaining >= 0,
    ensures
        r == (if scattered {
            Some((bounces_remaining - 1) as i32)
        } else {
            None::<i32>
        }),
{
    if scattered {
        Some(bounces_remaining - 1)
    } else {
        None
    }
}

/// How many scene queries one estimate makes, as a function of what the
/// scene and the materials answered along the way.  Each trace entry gives
/// one query's outcome — whether the ray hit, and whether the material then
/// scattered — and the walk follows the same branches as `classify_surface`
/// and `classify_scatter`.
pub open spec fn path_queries(trace: Seq<(bool, bool)>, bounces: int) -> int
    decreases trace.len(),
{
    if trace.len() == 0 {
        1
    } else if !trace.first().0 {
        1
    } else if bounces < 0 {
        1
    } else if !trace.first().1 {
        1
    } else {
        1 + path_queries(trace.drop_first(), bounces - 1)
    }
}

/// A miss, a spent budget, or an absorbed ray each end the estimate at its
/// very first scene query: against an empty scene the background gradient
/// comes back with no recursive evaluation, and a hit met with a negative
/// budget costs nothing beyond the query that found it.
pub proof fn lemma_terminal_query(trace: Seq<(bool, bool)>, bounces: int)
    requires
        trace.len() > 0,
    ensures
        !trace.first().0 ==> path_queries(trace, bounces) == 1,
        bounces < 0 ==> path_queries(trace, bounces) == 1,
        !trace.first().1 ==> path_queries(trace, bounces) == 1,
{
}

/// The bounce budget bounds the work of one estimate: however the scene and
/// the materials answer, a budget of `bounces` admits at most `bounces + 2`
/// scene queries, and an exhausted budget admits exactly one.  This is the
/// termination guarantee of the recursive estimator.
pub proof fn lemma_query_bound(trace: Seq<(bool, bool)>, bounces: int)
    ensures
        1 <= path_queries(trace, bounces),
        path_queries(trace, bounces) <= (if bounces < 0 {
            1int
        } else {
            bounces + 2
        }),
    decreases trace.len(),
{
    if trace.len() != 0 && trace.first().0 && bounces >= 0 && trace.first().1 {
        lemma_query_bound(trace.drop_first(), bounces - 1);
    }
}

} // verus!
