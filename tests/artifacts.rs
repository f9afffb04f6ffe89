use zenkit_cli::artifacts::{artifact_path, decimal_string, summary_path, ArtifactKind};

#[test]
fn per_list_paths_share_the_uuid() {
    assert_eq!(artifact_path("out", "abc-123", ArtifactKind::List), "out/abc-123_list.json");
    assert_eq!(artifact_path("out", "abc-123", ArtifactKind::Fields), "out/abc-123_fields.json");
    assert_eq!(artifact_path("out", "abc-123", ArtifactKind::Items), "out/abc-123_items.json");
}

#[test]
fn summary_path_holds_the_timestamp() {
    assert_eq!(summary_path("/tmp/bk", 1617181920212), "/tmp/bk/summary_1617181920212.json");
    assert_eq!(summary_path("d", 0), "d/summary_0.json");
}

#[test]
fn decimal_notation() {
    assert_eq!(decimal_string(0), "0");
    assert_eq!(decimal_string(9), "9");
    assert_eq!(decimal_string(10), "10");
    assert_eq!(decimal_string(u64::MAX), u64::MAX.to_string());
}
