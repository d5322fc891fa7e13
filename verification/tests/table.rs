use s3select_api::ResolvedTable;

#[test]
fn table_returns_the_resolved_path() {
    let t = ResolvedTable::new("s3://bucket/data/a.csv".to_string());
    assert_eq!(t.table(), "s3://bucket/data/a.csv");
}

#[test]
fn equal_paths_compare_equal() {
    let a = ResolvedTable::new("s3://bucket/data/a.csv".to_string());
    let b = ResolvedTable::new("s3://bucket/data/a.csv".to_string());
    assert!(a == b);
}

#[test]
fn different_paths_compare_unequal() {
    let a = ResolvedTable::new("s3://bucket/data/a.csv".to_string());
    let b = ResolvedTable::new("s3://bucket/data/b.csv".to_string());
    assert!(a != b);
}

#[test]
fn display_is_exactly_the_path() {
    let t = ResolvedTable::new("s3://bucket/data/a.csv".to_string());
    assert_eq!(t.display_string(), "s3://bucket/data/a.csv");
}

#[test]
fn empty_path_is_allowed_and_kept() {
    // No validation happens at construction: the empty path is kept as-is.
    let t = ResolvedTable::new(String::new());
    assert_eq!(t.table(), "");
    assert_eq!(t.display_string(), "");
}

#[test]
fn clone_preserves_identity() {
    let a = ResolvedTable::new("s3://bucket/data/a.csv".to_string());
    let b = a.clone();
    assert!(a == b);
    assert_eq!(b.table(), "s3://bucket/data/a.csv");
}
