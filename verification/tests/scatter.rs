// The dielectric's reflect-or-refract rule.

use tracer_core::dielectric_branch;
use tracer_core::DielectricChoice;

#[test]
fn refraction_needs_geometry_and_the_draw() {
    assert_eq!(dielectric_branch(true, true), DielectricChoice::Refract);
}

#[test]
fn total_internal_reflection_always_reflects() {
    assert_eq!(dielectric_branch(false, true), DielectricChoice::Reflect);
    assert_eq!(dielectric_branch(false, false), DielectricChoice::Reflect);
}

#[test]
fn schlick_reflectance_can_win_the_draw() {
    assert_eq!(dielectric_branch(true, false), DielectricChoice::Reflect);
}
