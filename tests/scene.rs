use raycast::scene::{resolve_faces, Face};

#[test]
fn corners_are_zero_based() {
    assert_eq!(Face(1, 2, 3).corners(3), Some((0, 1, 2)));
    assert_eq!(Face(3, 1, 2).corners(5), Some((2, 0, 1)));
}

#[test]
fn corners_out_of_range() {
    assert_eq!(Face(0, 1, 2).corners(3), None);
    assert_eq!(Face(1, 2, 4).corners(3), None);
    assert_eq!(Face(1, 1, 1).corners(0), None);
}

#[test]
fn invalid_faces_are_dropped() {
    let faces = vec![Face(1, 2, 3), Face(0, 1, 2), Face(2, 3, 4), Face(3, 2, 1)];
    let mesh = resolve_faces(&faces, 3);
    assert_eq!(mesh.triangles, vec![(0, 1, 2), (2, 1, 0)]);
    assert_eq!(mesh.dropped, vec![1, 2]);
}

#[test]
fn no_faces_no_mesh() {
    let mesh = resolve_faces(&Vec::new(), 10);
    assert!(mesh.triangles.is_empty());
    assert!(mesh.dropped.is_empty());
}
