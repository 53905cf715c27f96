use luna::config::HooksConfig;
use luna::error::LunaError;
use luna::workspace::{
    conclude_failed_hook, ensure_within_root, run_optional_hook, sanitize_workspace_key,
    truncate_output, HookEnd, PathState, WorkspaceManager,
};

fn hooks() -> HooksConfig {
    HooksConfig {
        after_create: Some("make setup".to_string()),
        before_run: Some("git pull".to_string()),
        after_run: Some("git status".to_string()),
        before_remove: None,
        timeout_ms: 60_000,
    }
}

fn manager() -> WorkspaceManager {
    WorkspaceManager::new("/tmp/root".to_string(), hooks())
}

#[test]
fn sanitizes_workspace_keys() {
    assert_eq!(sanitize_workspace_key("ABC-123"), "ABC-123");
    assert_eq!(sanitize_workspace_key("ABC/123 hello"), "ABC_123_hello");
}

#[test]
fn workspace_keys_are_settled() {
    let key = sanitize_workspace_key("a/../b#ü");
    assert_eq!(sanitize_workspace_key(&key), key);
}

fn kept_for(owner: &str) -> PathState {
    PathState::Directory { owner: Some(owner.to_string()) }
}

#[test]
fn issues_of_one_repository_have_workspaces_of_their_own() {
    let path = |id: &str| manager().prepare(id, PathState::Missing).unwrap().assignment.path;
    assert_ne!(path("ASAHI-1"), path("ASAHI-2"));
    assert_ne!(path("acme/repo#1"), path("acme/repo#2"));
    assert_ne!(path("acme/repo#1"), path("acme/repo#11"));
}

#[test]
fn the_workspace_of_another_issue_is_refused() {
    let first = manager().prepare("a_b/c#1", PathState::Missing).unwrap();
    assert_eq!(first.assignment.path, "/tmp/root/a_b_c_1");
    assert_eq!(first.record, "/tmp/root/a_b_c_1#issue");
    let err = manager().prepare("a/b_c#1", kept_for("a_b/c#1")).unwrap_err();
    assert!(matches!(err, LunaError::Workspace(_)));
    assert_eq!(
        err.message(),
        "workspace belongs to another issue: /tmp/root/a_b_c_1 is kept for a_b/c#1"
    );
    let err = manager().cleanup("a/b_c#1", kept_for("a_b/c#1")).unwrap_err();
    assert!(matches!(err, LunaError::Workspace(_)));
    assert!(!manager().prepare("a_b/c#1", kept_for("a_b/c#1")).unwrap().make_directory);
    let plan = manager().cleanup("a_b/c#1", kept_for("a_b/c#1")).unwrap().unwrap();
    assert_eq!(plan.path, first.assignment.path);
    assert_eq!(plan.record, manager().record("a_b/c#1"));
}

#[test]
fn names_that_lead_out_of_the_root_are_refused() {
    for (identifier, path) in
        [("", "/tmp/root"), (".", "/tmp/root"), ("..", "/tmp/root/..")]
    {
        let message = format!("workspace path escaped root: {path} not under /tmp/root");
        assert_eq!(manager().locate(identifier).unwrap_err().message(), message);
        let err = manager().prepare(identifier, PathState::Missing).unwrap_err();
        assert_eq!(err.message(), message);
        let err = manager().cleanup(identifier, PathState::Directory { owner: None }).unwrap_err();
        assert!(matches!(err, LunaError::Workspace(_)));
        assert_eq!(err.message(), message);
    }
    assert!(manager().locate("...").is_ok());
}

#[test]
fn prepares_a_missing_workspace_and_runs_its_hook() {
    let prepared = manager().prepare("acme/repo#1", PathState::Missing).unwrap();
    assert_eq!(prepared.assignment.path, "/tmp/root/acme_repo_1");
    assert_eq!(prepared.assignment.workspace_key, "acme_repo_1");
    assert!(prepared.assignment.created_now);
    assert!(prepared.make_directory);
    let hook = prepared.hook.unwrap();
    assert_eq!(hook.name, "after_create");
    assert_eq!(hook.script, "make setup");
    assert_eq!(hook.cwd, "/tmp/root/acme_repo_1");
    assert_eq!(hook.timeout_ms, 60_000);
    assert!(hook.fatal);
}

#[test]
fn reuses_a_workspace_and_refuses_what_is_no_directory() {
    let prepared = manager().prepare("A-1", PathState::Directory { owner: None }).unwrap();
    assert!(!prepared.assignment.created_now);
    assert!(!prepared.make_directory);
    assert!(prepared.hook.is_none());
    let err = manager().prepare("A-1", PathState::Other).unwrap_err();
    assert!(matches!(err, LunaError::Workspace(_)));
}

#[test]
fn hooks_run_before_and_after() {
    let prepared = manager().prepare("A-1", kept_for("A-1")).unwrap();
    let before = manager().before_run(&prepared.assignment).unwrap();
    assert_eq!((before.name.as_str(), before.fatal), ("before_run", true));
    let after = manager().after_run_best_effort(&prepared.assignment).unwrap();
    assert_eq!((after.name.as_str(), after.fatal), ("after_run", false));
}

#[test]
fn cleans_up_only_what_is_there() {
    assert!(manager().cleanup("A-1", PathState::Missing).unwrap().is_none());
    let plan = manager().cleanup("A-1", kept_for("A-1")).unwrap().unwrap();
    assert_eq!(plan.path, "/tmp/root/A-1");
    assert!(plan.hook.is_none());
}

#[test]
fn paths_outside_the_root_are_refused() {
    assert!(ensure_within_root("/tmp/root", "/tmp/root/a").is_ok());
    assert!(ensure_within_root("/tmp/root", "/tmp/rootling").is_err());
    let err = ensure_within_root("/tmp/root", "/tmp").unwrap_err();
    assert!(matches!(err, LunaError::Workspace(_)));
}

#[test]
fn failed_hooks_fail_or_are_noted() {
    assert!(matches!(run_optional_hook("h", true, &HookEnd::Succeeded), Ok(None)));
    assert!(run_optional_hook("h", true, &HookEnd::TimedOut).is_err());
    assert_eq!(
        run_optional_hook("h", false, &HookEnd::TimedOut).unwrap_err().message(),
        "hook timed out: h"
    );
    let not_started = HookEnd::NotStarted("no shell".to_string());
    assert!(run_optional_hook("h", true, &not_started).is_err());
    let outcome = conclude_failed_hook("h", true, "exit status: 1", b" out ", b"err\n").unwrap();
    let message = outcome.unwrap_err().message();
    assert!(message.contains("h") && message.contains("exit status: 1"));
    assert!(message.contains("out") && message.contains("err"));
    let noted = conclude_failed_hook("h", false, "exit status: 1", b" out ", b"err\n").unwrap();
    assert_eq!(
        noted.unwrap().as_deref(),
        Some("hook failed: h, status=exit status: 1, stdout=\"out\", stderr=\"err\"")
    );
    let odd = format!("{}é", "x".repeat(4095));
    assert!(conclude_failed_hook("h", true, "1", odd.as_bytes(), b"").is_none());
}

#[test]
fn long_output_is_cut() {
    assert_eq!(truncate_output("short"), "short");
    assert_eq!(truncate_output(&"x".repeat(5000)), format!("{}...", "x".repeat(4096)));
}
