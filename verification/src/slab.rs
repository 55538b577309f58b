//! Slab clipping for the axis-aligned box test.
//!
//! The box test intersects the ray with each coordinate slab of the box and
//! clips the surviving parametric interval: the entry parameter is the
//! largest of the per-slab entries, the exit the smallest of the per-slab
//! exits, seeded at the extreme keys so that an axis the ray never crosses
//! leaves the interval alone.  An axis whose ray-direction component is zero
//! contributes no slab at all and is reported as `None`.  The box is hit at
//! the entry parameter exactly when the clipped interval is nonempty and the
//! entry lies strictly inside the caller's hit window.

use vstd::prelude::*;

use crate::window::in_window;
use crate::window::window_admits;

verus! {

/// Seed for the entry fold: below every scalar key a caller can produce.
pub const KEY_NEG_INF: u64 = 0;

/// Seed for the exit fold: above every scalar key a caller can produce.
pub const KEY_INF: u64 = u64::MAX;

/// The parameter at which the ray enters a slab: the smaller of the two
/// boundary-plane parameters, in whichever order the caller computed them.
pub open spec fn slab_lo(s: (u64, u64)) -> u64 {
    if s.0 <= s.1 {
        s.0
    } else {
        s.1
    }
}

/// The parameter at which the ray leaves a slab: the larger of the two
/// boundary-plane parameters.
pub open spec fn slab_hi(s: (u64, u64)) -> u64 {
    if s.0 <= s.1 {
        s.1
    } else {
        s.0
    }
}

/// Entry parameter of the clipped interval: the largest slab entry, seeded
/// at `KEY_NEG_INF`; absent slabs contribute nothing.
pub open spec fn enter_of(slabs: Seq<Option<(u64, u64)>>) -> u64
    decreases slabs.len(),
{
    if slabs.len() == 0 {
        KEY_NEG_INF
    } else {
        let rest = enter_of(slabs.drop_last());
        match slabs.last() {
            None => rest,
            Some(s) => if slab_lo(s) > rest {
                slab_lo(s)
            } else {
                rest
            },
        }
    }
}

/// Exit parameter of the clipped interval: the smallest slab exit, seeded at
/// `KEY_INF`; absent slabs contribute nothing.
pub open spec fn exit_of(slabs: Seq<Option<(u64, u64)>>) -> u64
    decreases slabs.len(),
{
    if slabs.len() == 0 {
        KEY_INF
    } else {
        let rest = exit_of(slabs.drop_last());
        match slabs.last() {
            None => rest,
            Some(s) => if slab_hi(s) < rest {
                slab_hi(s)
            } else {
                rest
            },
        }
    }
}

/// The clipped interval lies inside every contributing slab: no parameter
/// before some slab's entry, or after some slab's exit, survives the fold.
/// Geometrically, a surviving parameter keeps the ray between both boundary
/// planes of every axis the ray crosses.
pub proof fn lemma_clip_inside_every_slab(slabs: Seq<Option<(u64, u64)>>, i: int)
    requires
        0 <= i < slabs.len(),
        slabs[i] is Some,
    ensures
        slab_lo(slabs[i]->0) <= enter_of(slabs),
        exit_of(slabs) <= slab_hi(slabs[i]->0),
    decreases slabs.len(),
{
    if i < slabs.len() - 1 {
        assert(slabs.drop_last()[i] == slabs[i]);
        lemma_clip_inside_every_slab(slabs.drop_last(), i);
    }
}

/// Each end of the clipped interval is attained: unless it still sits at
/// its seed, the entry is some contributing slab's entry and the exit some
/// contributing slab's exit.  Together with `lemma_clip_inside_every_slab`
/// this pins the fold as exactly the largest entry and the smallest exit.
pub proof fn lemma_clip_attained(slabs: Seq<Option<(u64, u64)>>)
    ensures
        enter_of(slabs) == KEY_NEG_INF || exists|i: int|
            0 <= i < slabs.len() && slabs[i] is Some && enter_of(slabs) == slab_lo(slabs[i]->0),
        exit_of(slabs) == KEY_INF || exists|i: int|
            0 <= i < slabs.len() && slabs[i] is Some && exit_of(slabs) == slab_hi(slabs[i]->0),
    decreases slabs.len(),
{
    if slabs.len() > 0 {
        lemma_clip_attained(slabs.drop_last());
        let rest = slabs.drop_last();
        if enter_of(slabs) != KEY_NEG_INF {
            match slabs.last() {
                None => {
                    let j = choose|i: int|
                        0 <= i < rest.len() && rest[i] is Some && enter_of(rest) == slab_lo(
                            rest[i]->0,
                        );
                    assert(slabs[j] == rest[j]);
                },
                Some(s) => {
                    if slab_lo(s) <= enter_of(rest) {
                        let j = choose|i: int|
                            0 <= i < rest.len() && rest[i] is Some && enter_of(rest) == slab_lo(
                                rest[i]->0,
                            );
                        assert(slabs[j] == rest[j]);
                    } else {
                        assert(slabs[slabs.len() - 1] is Some);
                    }
                },
            }
        }
        if exit_of(slabs) != KEY_INF {
            match slabs.last() {
                None => {
                    let j = choose|i: int|
                        0 <= i < rest.len() && rest[i] is Some && exit_of(rest) == slab_hi(
                            rest[i]->0,
                        );
                    assert(slabs[j] == rest[j]);
                },
                Some(s) => {
                    if slab_hi(s) >= exit_of(rest) {
                        let j = choose|i: int|
                            0 <= i < rest.len() && rest[i] is Some && exit_of(rest) == slab_hi(
                                rest[i]->0,
                            );
                        assert(slabs[j] == rest[j]);
                    } else {
                        assert(slabs[slabs.len() - 1] is Some);
                    }
                },
            }
        }
    }
}

/// Clip the ray's parametric interval against every slab.
pub fn slab_clip(slabs: &Vec<Option<(u64, u64)>>) -> (r: (u64, u64))
    ensures
        r.0 == enter_of(slabs@),
        r.1 == exit_of(slabs@),
{
    let mut enter: u64 = KEY_NEG_INF;
    let mut exit: u64 = KEY_INF;
    let mut idx: usize = 0;
    while idx < slabs.len()
        invariant
            idx <= slabs@.len(),
            enter == enter_of(slabs@.take(idx as int)),
            exit == exit_of(slabs@.take(idx as int)),
        decreases slabs@.len() - idx,
    {
        if let Some(s) = slabs[idx] {
            let lo = if s.0 <= s.1 {
                s.0
            } else {
                s.1
            };
            let hi = if s.0 <= s.1 {
                s.1
            } else {
                s.0
            };
            if lo > enter {
                enter = lo;
            }
            if hi < exit {
                exit = hi;
            }
        }
        proof {
            assert(slabs@.take(idx + 1 as int).drop_last() =~= slabs@.take(idx as int));
            assert(slabs@.take(idx + 1 as int).last() == slabs@[idx as int]);
        }
        idx = idx + 1;
    }
    proof {
        assert(slabs@.take(slabs@.len() as int) =~= slabs@);
    }
    (enter, exit)
}

/// The box's acceptance rule: a hit at the entry parameter exactly when the
/// clipped interval is nonempty and the entry lies strictly inside the
/// caller's window, like every other candidate parameter.  Where the ray
/// leaves the box puts no further condition on the hit.
pub fn slab_hit(slabs: &Vec<Option<(u64, u64)>>, lo: u64, hi: u64) -> (r: Option<u64>)
    ensures
        r == (if enter_of(slabs@) <= exit_of(slabs@) && in_window(lo, hi, enter_of(slabs@)) {
            Some(enter_of(slabs@))
        } else {
            None::<u64>
        }),
{
    let (enter, exit) = slab_clip(slabs);
    if enter <= exit && window_admits(lo, hi, enter) {
        Some(enter)
    } else {
        None
    }
}

/// The box's faces, each named by its outward axis direction.
#[derive(Clone, Copy, Debug, PartialEq, Eq, Structural)]
pub enum BoxFace {
    NegX,
    PosX,
    NegY,
    PosY,
    NegZ,
    PosZ,
}

/// Face selection for the box's hit normal.  The caller reports, face by
/// face in the fixed order of the parameters, whether the hit point lies on
/// that face's boundary plane; the first reported match names the face whose
/// outward unit normal the hit carries.  A hit that matches no face selects
/// none, and the caller keeps the hit point's offset from the box origin
/// instead.
pub fn select_face(
    on_neg_x: bool,
    on_pos_x: bool,
    on_neg_y: bool,
    on_pos_y: bool,
    on_neg_z: bool,
    on_pos_z: bool,
) -> (r: Option<BoxFace>)
    ensures
        r == (if on_neg_x {
            Some(BoxFace::NegX)
        } else if on_pos_x {
            Some(BoxFace::PosX)
        } else if on_neg_y {
            Some(BoxFace::NegY)
        } else if on_pos_y {
            Some(BoxFace::PosY)
        } else if on_neg_z {
            Some(BoxFace::NegZ)
        } else if on_pos_z {
            Some(BoxFace::PosZ)
        } else {
            None::<BoxFace>
        }),
{
    if on_neg_x {
        Some(BoxFace::NegX)
    } else if on_pos_x {
        Some(BoxFace::PosX)
    } else if on_neg_y {
        Some(BoxFace::NegY)
    } else if on_pos_y {
        Some(BoxFace::PosY)
    } else if on_neg_z {
        Some(BoxFace::NegZ)
    } else if on_pos_z {
        Some(BoxFace::PosZ)
    } else {
        None
    }
}

} // verus!
