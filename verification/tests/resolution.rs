use runfiles::Runfiles;
use runfiles::RunfilesError;

fn manifest_based(content: &str) -> Runfiles {
    Runfiles::create_manifest_based(content, String::new(), String::new()).unwrap()
}

fn directory_based(root: &str, source: &str) -> Runfiles {
    Runfiles::create_directory_based(root.to_string(), source.to_string(), String::new())
}

#[test]
fn test_manifest_based_can_read_data_from_runfiles() {
    let r = manifest_based("a/b c/d");
    assert_eq!(r.rlocation("a/b"), "c/d");
}

#[test]
fn test_absolute_path_returned_unchanged() {
    let d = directory_based("root", "");
    assert_eq!(d.rlocation("/absolute/path"), "/absolute/path");
    let m = manifest_based("a/b c/d");
    assert_eq!(m.rlocation("/absolute/path"), "/absolute/path");
    assert_eq!(m.try_rlocation("/not/in/manifest"), Some("/not/in/manifest".to_string()));
}

#[test]
fn test_directory_resolution_is_join() {
    let d = directory_based("r", "");
    assert_eq!(d.rlocation("repo/data.txt"), "r/repo/data.txt");
    assert_eq!(d.rlocation("repo"), "r/repo");
}

#[test]
fn test_repeated_calls_return_identical_output() {
    let d = directory_based("r", "");
    assert_eq!(d.rlocation("repo/data.txt"), d.rlocation("repo/data.txt"));
    let m = manifest_based("a/b c/d");
    assert_eq!(m.try_rlocation("a/b"), m.try_rlocation("a/b"));
    assert_eq!(m.try_rlocation("missing/x"), m.try_rlocation("missing/x"));
}

#[test]
fn test_repo_mapping_rewrites_leading_segment() {
    let d = directory_based("r", "main")
        .with_repo_mapping("main,dep,canonical_dep~1.0")
        .unwrap();
    assert_eq!(d.rlocation("dep/file.txt"), "r/canonical_dep~1.0/file.txt");

    let m = Runfiles::create_manifest_based(
        "canonical_dep~1.0/file.txt /disk/phys",
        "main".to_string(),
        String::new(),
    )
    .unwrap()
    .with_repo_mapping("main,dep,canonical_dep~1.0")
    .unwrap();
    assert_eq!(m.rlocation("dep/file.txt"), "/disk/phys");
}

#[test]
fn test_unmapped_segment_resolves_without_remapping() {
    let d = directory_based("r", "other")
        .with_repo_mapping("main,dep,canonical_dep~1.0")
        .unwrap();
    assert_eq!(d.rlocation("dep/x"), "r/dep/x");
}

#[test]
fn test_manifest_round_trip() {
    let m = manifest_based("foo/bar phys/ical\nbaz/qux other file");
    assert_eq!(m.rlocation("foo/bar"), "phys/ical");
    assert_eq!(m.rlocation("baz/qux"), "other file");
}

#[test]
fn test_manifest_miss_yields_none() {
    let m = manifest_based("a/b c/d");
    assert_eq!(m.try_rlocation("nope/x"), None);
}

#[test]
fn test_manifest_duplicate_key_last_wins() {
    let m = manifest_based("a/b first\na/b second");
    assert_eq!(m.rlocation("a/b"), "second");
}

#[test]
fn test_manifest_line_without_space_is_violation() {
    let r = Runfiles::create_manifest_based("nospace", String::new(), String::new());
    assert!(matches!(r, Err(RunfilesError::ManifestContractViolation)));
}

#[test]
fn test_manifest_empty_lines_skipped() {
    let m = manifest_based("a/b c d\n\nx y\n");
    assert_eq!(m.rlocation("a/b"), "c d");
    assert_eq!(m.rlocation("x"), "y");
}

#[test]
fn test_malformed_repo_mapping_rejected() {
    let d = directory_based("r", "main");
    assert!(d.with_repo_mapping("main,dep").is_none());
}

#[test]
fn test_repo_mapping_location_resolves_reserved_name() {
    let d = directory_based("r", "");
    assert_eq!(d.repo_mapping_location(), Some("r/_repo_mapping".to_string()));
    let m = manifest_based("_repo_mapping /x/mapping");
    assert_eq!(m.repo_mapping_location(), Some("/x/mapping".to_string()));
    let empty = manifest_based("a/b c/d");
    assert_eq!(empty.repo_mapping_location(), None);
}

#[test]
fn test_current_repository_accessor() {
    let r = Runfiles::create_directory_based(
        "root".to_string(),
        String::new(),
        "my_workspace".to_string(),
    );
    assert_eq!(r.current_repository(), "my_workspace");
}

#[test]
fn test_join_keeps_single_separator() {
    let d = directory_based("r/", "");
    assert_eq!(d.rlocation("a/b"), "r/a/b");
    let e = directory_based("", "");
    assert_eq!(e.rlocation("a/b"), "a/b");
}

#[test]
fn test_remapping_collapses_separator_run() {
    let d = directory_based("r", "main").with_repo_mapping("main,dep,canon").unwrap();
    assert_eq!(d.rlocation("dep//x"), "r/canon/x");
}

#[test]
fn test_remapped_bare_segment_gets_trailing_separator() {
    let d = directory_based("r", "main").with_repo_mapping("main,dep,canon").unwrap();
    assert_eq!(d.rlocation("dep"), "r/canon/");
}
