use tracer::objects::{intersects, Object, ObjectList};

struct Surface;

impl Object for Surface {}

fn list_of(n: usize) -> ObjectList<Surface> {
    ObjectList::new((0..n).map(|_| Surface).collect())
}

#[test]
fn empty_aggregate_misses() {
    let list = list_of(0);
    assert_eq!(list.len(), 0);
    assert_eq!(list.closest(&Vec::new()), None);
}

#[test]
fn all_members_missing() {
    let list = list_of(3);
    assert_eq!(list.closest(&vec![None, None, None]), None);
}

#[test]
fn single_hit_wins() {
    let list = list_of(3);
    assert_eq!(list.closest(&vec![None, Some(17), None]), Some(1));
}

#[test]
fn closest_member_wins() {
    let list = list_of(4);
    assert_eq!(list.closest(&vec![Some(9), Some(4), None, Some(12)]), Some(1));
}

#[test]
fn equal_distance_first_member_wins() {
    let list = list_of(3);
    assert_eq!(list.closest(&vec![Some(5), Some(5), Some(6)]), Some(0));
    assert_eq!(list.closest(&vec![Some(6), Some(5), Some(5)]), Some(1));
}

#[test]
fn chosen_distance_is_no_farther_than_any_member() {
    // Closest-hit invariant over real parametric distances: positive finite
    // floats order as their bit patterns do.
    let distances = vec![3.5f32, 0.25, 7.0, 0.5, 1024.0];
    let list = list_of(distances.len());
    let candidates: Vec<Option<u32>> = distances.iter().map(|t| Some(t.to_bits())).collect();
    let chosen = list.closest(&candidates).expect("every member hit");
    let chosen_t = distances[chosen];
    for &t in &distances {
        assert!(chosen_t <= t);
    }
    assert_eq!(chosen, 1);
}

#[test]
fn confirmed_distances_are_normal_and_within_the_window() {
    let min_t = 0.0001f32;
    let window = |t: f32, max_t: f32| intersects(t.to_bits(), min_t.to_bits(), max_t.to_bits());

    // Strictly inside the open window.
    assert!(window(0.5, 100.0));
    assert!(window(0.00011, 100.0));
    assert!(window(99.9, 100.0));
    assert!(window(0.5, f32::INFINITY));

    // On or outside the boundary: the window is open at both ends.
    assert!(!window(min_t, 100.0));
    assert!(!window(100.0, 100.0));
    assert!(!window(0.00005, 100.0));
    assert!(!window(100.1, 100.0));

    // Degenerate distances never confirm.
    assert!(!window(0.0, 100.0));
    assert!(!window(-0.0, 100.0));
    assert!(!window(-3.0, 100.0));
    assert!(!window(f32::NAN, 100.0));
    assert!(!window(f32::INFINITY, f32::INFINITY));
    assert!(!window(1.0e-40, 100.0)); // subnormal
}

#[test]
fn positive_float_order_matches_bit_order() {
    let samples = [1e-4f32, 0.25, 0.5, 1.0, 1.5, 2.0, 600.0, 1e30, f32::MAX];
    for pair in samples.windows(2) {
        assert!(pair[0] < pair[1]);
        assert!(pair[0].to_bits() < pair[1].to_bits());
    }
}
