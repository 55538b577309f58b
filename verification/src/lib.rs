//! Decision core of a recursive path tracer.
//!
//! A path tracer spends most of its time on numeric geometry, but the
//! questions it keeps asking are order-theoretic: which quadratic root falls
//! inside the parametric window, where a slab interval opens and closes,
//! which of the candidate hits lies closest to the ray origin, and whether
//! the bounce budget still admits another scattering step.  This crate
//! answers those questions, verified.
//!
//! Scalar measures (ray parameters, distances) enter as *scalar keys*: plain
//! `u64` values under the ordinary unsigned order.  A renderer may use any
//! order-preserving encoding of its own scalar domain; every contract here
//! speaks only of the keys' order, so the guarantees carry back to the
//! encoded scalars — exactly, when scalars that compare equal share one key.
//! An encoding that tells such a pair apart (a sign-folded bit pattern of
//! doubles gives the two zeroes adjacent, distinct keys) makes the strict
//! key comparisons finer than the scalar ones at just those pairs.  The
//! numeric work that produces the keys — vector algebra, intersection
//! formulas, sampling — stays with the caller.

mod closest;
mod scatter;
mod slab;
mod transport;
mod window;

pub use closest::closest_index;
pub use scatter::DielectricChoice;
pub use scatter::dielectric_branch;
pub use slab::BoxFace;
pub use slab::KEY_INF;
pub use slab::KEY_NEG_INF;
pub use slab::enter_of;
pub use slab::exit_of;
pub use slab::lemma_clip_attained;
pub use slab::lemma_clip_inside_every_slab;
pub use slab::select_face;
pub use slab::slab_clip;
pub use slab::slab_hit;
pub use transport::PathStep;
pub use transport::classify_scatter;
pub use transport::classify_surface;
pub use transport::lemma_query_bound;
pub use transport::lemma_terminal_query;
pub use transport::path_queries;
pub use window::extent_admits;
pub use window::in_window;
pub use window::select_root;
pub use window::window_admits;
