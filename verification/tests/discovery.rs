use runfiles::candidate_runfiles_dir;
use runfiles::choose_root_override;
use runfiles::parent_of;
use runfiles::resolve_link_target;
use runfiles::runfiles_ancestor;
use runfiles::sibling_runfiles_path;

#[test]
fn test_directory_override_wins_over_test_srcdir() {
    let r = choose_root_override(Some("over/ride"), true, Some("test/srcdir"), true);
    assert_eq!(r, Some("over/ride".to_string()));
}

#[test]
fn test_test_srcdir_is_the_fallback() {
    let r = choose_root_override(Some("over/ride"), false, Some("test/srcdir"), true);
    assert_eq!(r, Some("test/srcdir".to_string()));
    let r = choose_root_override(None, false, Some("test/srcdir"), true);
    assert_eq!(r, Some("test/srcdir".to_string()));
}

#[test]
fn test_no_usable_override() {
    assert_eq!(choose_root_override(None, false, None, false), None);
    assert_eq!(choose_root_override(Some("a"), false, Some("b"), false), None);
}

#[test]
fn test_sibling_runfiles_path_appends_suffix() {
    assert_eq!(
        sibling_runfiles_path("work/bin/tool"),
        Some("work/bin/tool.runfiles".to_string())
    );
    assert_eq!(sibling_runfiles_path("tool"), Some("tool.runfiles".to_string()));
    assert_eq!(sibling_runfiles_path("work/bin/"), None);
    assert_eq!(sibling_runfiles_path(""), None);
}

#[test]
fn test_runfiles_ancestor_finds_nearest() {
    assert_eq!(
        runfiles_ancestor("/x/app.runfiles/pkg/bin"),
        Some("/x/app.runfiles".to_string())
    );
    assert_eq!(
        runfiles_ancestor("/a.runfiles/b.runfiles/c/d"),
        Some("/a.runfiles/b.runfiles".to_string())
    );
    assert_eq!(runfiles_ancestor("/plain/path/bin"), None);
    // The candidate itself is not its own ancestor.
    assert_eq!(runfiles_ancestor("x/app.runfiles"), None);
}

#[test]
fn test_candidate_decision_prefers_sibling() {
    assert_eq!(
        candidate_runfiles_dir("/x/app.runfiles/pkg/bin", true),
        Some("/x/app.runfiles/pkg/bin.runfiles".to_string())
    );
    assert_eq!(
        candidate_runfiles_dir("/x/app.runfiles/pkg/bin", false),
        Some("/x/app.runfiles".to_string())
    );
    assert_eq!(candidate_runfiles_dir("/plain/bin", false), None);
}

#[test]
fn test_resolve_link_target_absolute() {
    assert_eq!(resolve_link_target("/w/a", "/abs/t", "/cwd"), "/abs/t");
}

#[test]
fn test_resolve_link_target_relative() {
    // The link's parent directory is absolute, so it wins over the
    // working directory.
    assert_eq!(resolve_link_target("/w/a", "b", "/cwd"), "/w/b");
    // A bare candidate has no parent: the working directory remains.
    assert_eq!(resolve_link_target("a", "t", "/cwd"), "/cwd/t");
    // A relative parent is taken against the working directory.
    assert_eq!(resolve_link_target("rel/a", "t", "/cwd"), "/cwd/rel/t");
}

#[test]
fn test_parent_of_path_shapes() {
    assert_eq!(parent_of("/a"), "/");
    assert_eq!(parent_of("a/b"), "a");
    assert_eq!(parent_of("a"), "");
}

#[test]
fn test_symlink_chain_reaches_runfiles_dir() {
    // A binary path that is a symlink to another symlink sitting beside
    // `c.runfiles`: the chain of decisions reaches that directory.
    let cwd = "/cwd";

    // First candidate: /w/a, whose sibling /w/a.runfiles is no directory
    // and which has no .runfiles ancestor; it links to "b".
    assert_eq!(sibling_runfiles_path("/w/a"), Some("/w/a.runfiles".to_string()));
    assert_eq!(candidate_runfiles_dir("/w/a", false), None);
    let second = resolve_link_target("/w/a", "b", cwd);
    assert_eq!(second, "/w/b");

    // Second candidate: /w/b, again nothing found; it links to "c".
    assert_eq!(candidate_runfiles_dir(&second, false), None);
    let third = resolve_link_target(&second, "c", cwd);
    assert_eq!(third, "/w/c");

    // Third candidate: /w/c sits beside the directory /w/c.runfiles.
    assert_eq!(
        candidate_runfiles_dir(&third, true),
        Some("/w/c.runfiles".to_string())
    );
}
