use calculator::example_with_warnings;

#[test]
fn test_warnings() {
    let result = example_with_warnings();
    assert_eq!(result, 42);
}
