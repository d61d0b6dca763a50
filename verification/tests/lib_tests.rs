use graph::VERSION;

#[test]
fn test_version() {
    assert!(!VERSION.is_empty());
}
