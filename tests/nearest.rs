use raycast::nearest::nearest_hit;

#[test]
fn no_triangle_no_hit() {
    assert_eq!(nearest_hit(&Vec::new()), None);
}

#[test]
fn all_misses_no_hit() {
    assert_eq!(nearest_hit(&vec![None, None, None]), None);
}

#[test]
fn smallest_key_wins() {
    assert_eq!(nearest_hit(&vec![Some(7), None, Some(-2), Some(4)]), Some(2));
    assert_eq!(nearest_hit(&vec![None, Some(9)]), Some(1));
}

#[test]
fn first_of_equal_hits_wins() {
    assert_eq!(nearest_hit(&vec![Some(5), None, Some(3), Some(3)]), Some(2));
    assert_eq!(nearest_hit(&vec![Some(i64::MIN), Some(i64::MIN)]), Some(0));
}

#[test]
fn extreme_keys() {
    assert_eq!(nearest_hit(&vec![Some(i64::MAX), Some(i64::MIN)]), Some(1));
    assert_eq!(nearest_hit(&vec![Some(i64::MAX)]), Some(0));
}
