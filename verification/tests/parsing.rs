use runfiles::find_manifest_path;
use runfiles::get_source_repository;
use runfiles::is_manifest_only;
use runfiles::parse_manifest;
use runfiles::parse_repo_mapping;
use runfiles::RunfilesError;

#[test]
fn test_parse_repo_mapping_entry_shape() {
    let t = parse_repo_mapping("main,dep,canonical_dep~1.0").unwrap();
    assert_eq!(t.get("main,dep"), Some(&"canonical_dep~1.0".to_string()));
    assert_eq!(t.get("main"), None);
    assert_eq!(t.get("dep"), None);
}

#[test]
fn test_parse_repo_mapping_value_may_hold_commas() {
    let t = parse_repo_mapping("a,b,c,d").unwrap();
    assert_eq!(t.get("a,b"), Some(&"c,d".to_string()));
}

#[test]
fn test_parse_repo_mapping_rejects_short_lines() {
    assert!(parse_repo_mapping("main,dep").is_none());
    assert!(parse_repo_mapping("onlyone").is_none());
    assert!(parse_repo_mapping("a,b,c\n\na,b,c").is_none());
}

#[test]
fn test_parse_repo_mapping_empty_and_trailing_newline() {
    let empty = parse_repo_mapping("").unwrap();
    assert_eq!(empty.get("a,b"), None);
    let one = parse_repo_mapping("m,d,c\n").unwrap();
    assert_eq!(one.get("m,d"), Some(&"c".to_string()));
}

#[test]
fn test_parse_manifest_entries_and_crlf() {
    let t = parse_manifest("a/b c/d\r\nx y z").unwrap();
    assert_eq!(t.get("a/b"), Some(&"c/d".to_string()));
    assert_eq!(t.get("x"), Some(&"y z".to_string()));
}

#[test]
fn test_parse_manifest_rejects_missing_separator() {
    assert!(matches!(
        parse_manifest("a/b c/d\nbad"),
        Err(RunfilesError::ManifestContractViolation)
    ));
}

#[test]
fn test_is_manifest_only_flag() {
    assert!(is_manifest_only(Some("1")));
    assert!(!is_manifest_only(Some("0")));
    assert!(!is_manifest_only(Some("")));
    assert!(!is_manifest_only(Some("11")));
    assert!(!is_manifest_only(None));
}

#[test]
fn test_find_manifest_path_present() {
    let r = find_manifest_path(Some("1"), Some("/tree/manifest"));
    assert_eq!(r.unwrap(), "/tree/manifest");
}

#[test]
fn test_find_manifest_path_absent_is_violation() {
    let r = find_manifest_path(Some("1"), None);
    assert!(matches!(r, Err(RunfilesError::ManifestContractViolation)));
}

#[test]
fn test_source_repository_from_build_output_path() {
    // The build-output form follows any prefix, an absolute one included.
    assert_eq!(
        get_source_repository("/home/u/bazel-out/k8-fastbuild/bin/external/my_repo/tool"),
        "my_repo"
    );
    assert_eq!(
        get_source_repository("bazel-out/k8-fastbuild/bin/external/my_repo/tool"),
        "my_repo"
    );
}

#[test]
fn test_source_repository_build_output_leftmost_full_match() {
    // The first occurrence of the literal has an empty segment after it,
    // so the match is the next one.
    assert_eq!(get_source_repository("/bin/external//bin/external/y/z"), "y");
    // The build-output form wins over the source-tree form.
    assert_eq!(get_source_repository("external/a/bin/external/b/c"), "b");
}

#[test]
fn test_source_repository_from_source_tree_path() {
    assert_eq!(get_source_repository("external/dep~1.0/pkg/tool"), "dep~1.0");
}

#[test]
fn test_source_repository_defaults_to_main() {
    assert_eq!(get_source_repository("/usr/local/bin/tool"), "");
    assert_eq!(get_source_repository("bazel-out/k8/bin/external_other/x/y"), "");
    // The source-tree form holds only at the path's start.
    assert_eq!(get_source_repository("/x/external/r/t"), "");
    assert_eq!(get_source_repository("external/nocapture"), "");
}
