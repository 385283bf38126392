use ray_tracer::grid::{pixel_count, pixel_positions};

#[test]
fn pixel_count_of_small_frame() {
    assert_eq!(pixel_count(3, 2), Some(6));
    assert_eq!(pixel_count(0, 5), Some(0));
}

#[test]
fn pixel_count_of_largest_frame() {
    let expected = (u32::MAX as u128) * (u32::MAX as u128);
    match pixel_count(u32::MAX, u32::MAX) {
        Some(n) => assert_eq!(n as u128, expected),
        None => assert!(expected > usize::MAX as u128),
    }
}

#[test]
fn pixel_positions_are_row_major() {
    let p = pixel_positions(3, 2);
    assert_eq!(p, vec![(0, 0), (1, 0), (2, 0), (0, 1), (1, 1), (2, 1)]);
}

#[test]
fn pixel_positions_of_empty_frame() {
    assert!(pixel_positions(0, 4).is_empty());
    assert!(pixel_positions(4, 0).is_empty());
}
