use roster::helper::unused_helper;

#[test]
fn unused_helper_doubles() {
    assert_eq!(unused_helper(21), 42);
    assert_eq!(unused_helper(0), 0);
    assert_eq!(unused_helper(1), 2);
    assert_eq!(unused_helper(-7), -14);
}

#[test]
fn unused_helper_reaches_both_ends_of_the_range() {
    assert_eq!(unused_helper(i32::MAX / 2), i32::MAX - 1);
    assert_eq!(unused_helper(i32::MIN / 2), i32::MIN);
}
