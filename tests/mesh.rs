use orbital_core::mesh::{loop_indices, offset_indices, quad_strip_indices, ring_strip_indices};

#[test]
fn loop_of_consecutive_vertices() {
    assert_eq!(loop_indices(10, 4), vec![10, 11, 12, 13]);
    assert!(loop_indices(7, 0).is_empty());
}

#[test]
fn ring_strip_closes_on_first_pair() {
    assert_eq!(ring_strip_indices(100, 3), vec![100, 101, 102, 103, 104, 105, 100, 101]);
    assert_eq!(ring_strip_indices(0, 0), vec![0, 1]);
}

#[test]
fn quad_strip_two_triangles_per_quad() {
    assert_eq!(
        quad_strip_indices(4, 2),
        vec![4, 5, 6, 5, 6, 7, 6, 7, 8, 7, 8, 9]
    );
    assert_eq!(quad_strip_indices(0, 5).len(), 30);
}

#[test]
fn offset_pattern() {
    assert_eq!(offset_indices(20, &[0, 11, 10, 8]), vec![20, 31, 30, 28]);
    assert!(offset_indices(3, &[]).is_empty());
}
