// The scene's closest-hit choice over per-primitive distance reports.

use tracer_core::closest_index;

fn key(x: f64) -> u64 {
    let b = x.to_bits();
    if b & 0x8000_0000_0000_0000 != 0 {
        !b
    } else {
        b | 0x8000_0000_0000_0000
    }
}

#[test]
fn empty_scene_has_no_hit() {
    let dist: Vec<Option<u64>> = Vec::new();
    assert_eq!(closest_index(&dist), None);
}

#[test]
fn all_misses_yield_no_hit() {
    let dist: Vec<Option<u64>> = vec![None, None, None];
    assert_eq!(closest_index(&dist), None);
}

#[test]
fn single_hit_wins() {
    let dist: Vec<Option<u64>> = vec![None, Some(7), None];
    assert_eq!(closest_index(&dist), Some(1));
}

#[test]
fn nearest_hit_wins() {
    let dist: Vec<Option<u64>> = vec![Some(9), None, Some(3), Some(5)];
    assert_eq!(closest_index(&dist), Some(2));
}

#[test]
fn equal_distances_keep_the_first() {
    let dist: Vec<Option<u64>> = vec![None, Some(4), Some(4), Some(4)];
    assert_eq!(closest_index(&dist), Some(1));
}

#[test]
fn encoded_distances_choose_the_geometrically_nearest() {
    // Euclidean distances as a renderer would report them: the key order
    // matches the numeric order, so the closest primitive is picked.
    let dist = vec![
        Some(key(10.25)),
        Some(key(0.75)),
        None,
        Some(key(0.7501)),
        Some(key(1.0e6)),
    ];
    assert_eq!(closest_index(&dist), Some(1));
}
