use odebug::resolve::DirPolicy;
use odebug::resolve::determine_debug_dir;
use odebug::resolve::first_workspace_root;
use odebug::resolve::is_workspace_manifest;
use odebug::resolve::join_path;

fn policy(prefer_build_output: bool, prefer_workspace_root: bool) -> DirPolicy {
    DirPolicy { prefer_build_output, prefer_workspace_root }
}

#[test]
fn default_path_is_cwd_dot_debug() {
    let dir = determine_debug_dir(
        &policy(false, false),
        &None,
        &None,
        &Some(String::from("/home/user/proj")),
    );
    assert_eq!(dir, "/home/user/proj/.debug");
}

#[test]
fn build_output_env_override_wins() {
    let dir = determine_debug_dir(
        &policy(true, false),
        &Some(String::from("/tmp/test_target_dir")),
        &None,
        &Some(String::from("/home/user/proj")),
    );
    assert!(dir.starts_with("/tmp/test_target_dir"), "Should use the env override when set");
    assert_eq!(dir, "/tmp/test_target_dir/odebug");
}

#[test]
fn build_output_without_override_uses_cwd_target() {
    let dir = determine_debug_dir(&policy(true, false), &None, &None, &Some(String::from("/p")));
    assert_eq!(dir, "/p/target/odebug");
    assert!(dir.ends_with("odebug"), "Path should end with the debug artifacts directory");
}

#[test]
fn build_output_prefers_workspace_target() {
    let dir = determine_debug_dir(
        &policy(true, true),
        &None,
        &Some(String::from("/ws")),
        &Some(String::from("/ws/member")),
    );
    assert_eq!(dir, "/ws/target/odebug");
}

#[test]
fn workspace_policy_puts_dot_debug_at_root() {
    let dir = determine_debug_dir(
        &policy(false, true),
        &None,
        &Some(String::from("/ws")),
        &Some(String::from("/ws/member")),
    );
    assert_eq!(dir, "/ws/.debug");
}

#[test]
fn workspace_policy_falls_back_to_cwd_when_no_root_found() {
    let dir = determine_debug_dir(&policy(false, true), &None, &None, &Some(String::from("/cwd")));
    assert_eq!(dir, "/cwd/.debug");
}

#[test]
fn unreadable_cwd_falls_back_to_bare_dot_debug() {
    let dir = determine_debug_dir(&policy(false, false), &None, &None, &None);
    assert_eq!(dir, ".debug");
}

#[test]
fn resolution_is_idempotent() {
    let p = policy(true, true);
    let env = Some(String::from("/tmp/t"));
    let ws = Some(String::from("/ws"));
    let cwd = Some(String::from("/cwd"));
    let first = determine_debug_dir(&p, &env, &ws, &cwd);
    let second = determine_debug_dir(&p, &env, &ws, &cwd);
    assert_eq!(first, second);
}

#[test]
fn join_path_inserts_single_separator() {
    assert_eq!(join_path("/a/b", "c"), "/a/b/c");
    assert_eq!(join_path("", "c"), "c");
}

#[test]
fn workspace_manifest_detection() {
    assert!(is_workspace_manifest("[workspace]\nmembers = [\"a\"]\n"));
    assert!(is_workspace_manifest("[package]\nname = \"x\"\n\n[workspace]\n"));
    assert!(!is_workspace_manifest("[package]\nname = \"x\"\n"));
    assert!(!is_workspace_manifest(""));
}

#[test]
fn first_workspace_root_picks_innermost_match() {
    let dirs = vec![
        String::from("/a/b/c"),
        String::from("/a/b"),
        String::from("/a"),
    ];
    let manifests = vec![
        None,
        Some(String::from("[workspace]\n")),
        Some(String::from("[workspace]\n")),
    ];
    assert_eq!(first_workspace_root(&dirs, &manifests), Some(String::from("/a/b")));
}

#[test]
fn first_workspace_root_none_when_no_manifest_qualifies() {
    let dirs = vec![String::from("/a/b"), String::from("/a")];
    let manifests = vec![Some(String::from("[package]\n")), None];
    assert_eq!(first_workspace_root(&dirs, &manifests), None);
}
