#[test]
fn name() {
    assert_eq!(1 + 1, 2);
}
