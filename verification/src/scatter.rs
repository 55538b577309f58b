//! The dielectric's choice between reflection and refraction.
//!
//! At a dielectric boundary the scatter routine first checks whether Snell's
//! law yields a refracted direction at all — total internal reflection rules
//! it out — and, when it does, draws a uniform random value and compares it
//! against the Schlick reflectance.  The numeric work is the caller's; the
//! rule that combines the two answers is fixed here.

use vstd::prelude::*;

verus! {

/// Which outgoing ray a dielectric boundary emits.
#[derive(Clone, Copy, Debug, PartialEq, Eq, Structural)]
pub enum DielectricChoice {
    /// Follow the refracted direction through the boundary.
    Refract,
    /// Follow the mirrored direction off the boundary.
    Reflect,
}

/// Refraction wins exactly when it is geometrically possible and the uniform
/// draw exceeds the Schlick reflectance; every other case reflects.
pub fn dielectric_branch(refraction_possible: bool, draw_exceeds_reflectance: bool) -> (r:
    DielectricChoice)
    ensures
        r == (if refraction_possible && draw_exceeds_reflectance {
            DielectricChoice::Refract
        } else {
            DielectricChoice::Reflect
        }),
{
    if refraction_possible && draw_exceeds_reflectance {
        DielectricChoice::Refract
    } else {
        DielectricChoice::Reflect
    }
}

} // verus!
