// The estimator's branch discipline: background on a miss, black once the
// budget is spent or the ray is absorbed, otherwise one more bounce.

use tracer_core::classify_scatter;
use tracer_core::classify_surface;
use tracer_core::PathStep;

#[test]
fn miss_yields_background_whatever_the_budget() {
    assert_eq!(classify_surface(false, 100), PathStep::EmitBackground);
    assert_eq!(classify_surface(false, 0), PathStep::EmitBackground);
    assert_eq!(classify_surface(false, -1), PathStep::EmitBackground);
    assert_eq!(classify_surface(false, i32::MIN), PathStep::EmitBackground);
}

#[test]
fn hit_with_spent_budget_yields_black() {
    assert_eq!(classify_surface(true, -1), PathStep::EmitBlack);
    assert_eq!(classify_surface(true, i32::MIN), PathStep::EmitBlack);
}

#[test]
fn hit_within_budget_scatters() {
    assert_eq!(classify_surface(true, 0), PathStep::ScatterAndContinue);
    assert_eq!(classify_surface(true, 100), PathStep::ScatterAndContinue);
}

#[test]
fn scattering_spends_one_bounce() {
    assert_eq!(classify_scatter(true, 100), Some(99));
    assert_eq!(classify_scatter(true, 0), Some(-1));
}

#[test]
fn absorption_ends_the_path() {
    assert_eq!(classify_scatter(false, 100), None);
    assert_eq!(classify_scatter(false, 0), None);
}
