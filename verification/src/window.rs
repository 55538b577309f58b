//! Admission of a parametric distance into the caller's hit window.
//!
//! Every intersection test ends the same way: a candidate ray parameter is
//! accepted only if it lies strictly inside the window `(lo, hi)` handed down
//! by the caller.  The sphere test produces two candidates — the roots of its
//! quadratic, in ascending order when the leading coefficient is positive —
//! and takes the first that the window admits.

use vstd::prelude::*;

verus! {

/// A scalar key `t` lies strictly inside the window `(lo, hi)`.
pub open spec fn in_window(lo: u64, hi: u64, t: u64) -> bool {
    lo < t && t < hi
}

/// The plane tests accept a candidate parameter exactly when the window
/// admits it; both window ends are excluded.
pub fn window_admits(lo: u64, hi: u64, t: u64) -> (r: bool)
    ensures
        r == in_window(lo, hi, t),
{
    lo < t && t < hi
}

/// The bounded plane keeps a hit the window admitted only if the hit point
/// stays within the plane's extents: the keys of the offset magnitudes along
/// the plane's two bounded directions may reach, but not pass, the keys of
/// the half-extents.
pub fn extent_admits(off_x: u64, half_width: u64, off_z: u64, half_depth: u64) -> (r: bool)
    ensures
        r == (off_x <= half_width && off_z <= half_depth),
{
    off_x <= half_width && off_z <= half_depth
}

/// Root selection for the sphere test: try `t1`, then `t2`, and return the
/// first that the window admits.  When the caller passes the roots in
/// ascending order, the admitted root nearest the ray origin wins.
pub fn select_root(t1: u64, t2: u64, lo: u64, hi: u64) -> (r: Option<u64>)
    ensures
        r == (if in_window(lo, hi, t1) {
            Some(t1)
        } else if in_window(lo, hi, t2) {
            Some(t2)
        } else {
            None::<u64>
        }),
        r matches Some(t) ==> in_window(lo, hi, t),
{
    if lo < t1 && t1 < hi {
        Some(t1)
    } else if lo < t2 && t2 < hi {
        Some(t2)
    } else {
        None
    }
}

} // verus!
