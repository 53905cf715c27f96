use luna::agent::angel_runtime::{TurnElicitation, TurnResult, TurnRunEvent};
use luna::config::{AcpRunner, CodexRunner, RunnerConfig};
use luna::error::LunaError;
use luna::job::{
    default_permission_mode, existing_workspace, job_teardown, job_workspace_key,
    job_workspace_key_at, permission_elicitation_id, plan_job_workspace, run_job_in_workspace,
    temp_dir_name, temporary_workspace, worktree_workspace, JobAction, JobEvent, JobOptions,
    JobSession, JobWorkspaceMode, JobWorkspacePlan,
};
use luna::model::WorkspaceAssignment;

fn options(workspace: JobWorkspaceMode, prompt: &str) -> JobOptions {
    JobOptions {
        workflow_path: "/repo/WORKFLOW.md".to_string(),
        prompt: prompt.to_string(),
        workspace,
    }
}

fn codex(command: &str) -> RunnerConfig {
    RunnerConfig::Codex(CodexRunner {
        command: command.to_string(),
        args: Vec::new(),
        approval_policy: None,
        thread_sandbox: None,
        turn_sandbox_policy: None,
        turn_timeout_ms: 1_000,
        read_timeout_ms: 1_000,
        stall_timeout_ms: 1_000,
    })
}

fn elicitation_event(kind: &str) -> TurnRunEvent {
    TurnRunEvent::Elicitation {
        elicitation: TurnElicitation {
            id: format!("{kind}-id"),
            turn_id: Some("turn".to_string()),
            kind: kind.to_string(),
        },
    }
}

fn result_event() -> TurnRunEvent {
    TurnRunEvent::Result {
        result: TurnResult {
            remote_thread_id: Some("thread-1".to_string()),
            turn_id: Some("turn-1".to_string()),
            conversation: None,
        },
    }
}

#[test]
fn job_workspace_key_uses_prompt_slug() {
    let key = job_workspace_key("Fix flaky tests!!!\nmore");
    assert!(key.starts_with("JOB-"));
    assert!(key.ends_with("fix-flaky-tests"));
    let stamp = &key["JOB-".len()..key.len() - "-fix-flaky-tests".len()];
    assert_eq!(stamp.len(), "20260101-000000".len());
    assert!(stamp.starts_with("20") && stamp.as_bytes()[8] == b'-');
    assert_eq!(
        job_workspace_key_at("Fix flaky tests!!!\nmore", "20260101-000000"),
        "JOB-20260101-000000-fix-flaky-tests"
    );
}

#[test]
fn job_keys_are_cut_and_have_a_name_for_nothing() {
    let key = job_workspace_key_at(&"ab ".repeat(40), "s");
    assert!(key.len() <= "JOB-s-".len() + 48);
    assert!(!key.ends_with('-'));
    assert!(job_workspace_key_at("???", "s").starts_with("JOB-s-"));
}

#[test]
fn jobs_without_a_workspace_use_a_temporary_one() {
    let plan = plan_job_workspace(&options(JobWorkspaceMode::Temporary, "Inspect repository"), "/repo");
    assert!(matches!(plan, JobWorkspacePlan::Temporary));
    let workspace = temporary_workspace("/tmp/luna-job-1");
    assert_eq!(workspace.assignment.workspace_key, "none");
    assert!(!workspace.managed);
    assert_eq!(workspace.temp_path.as_deref(), Some("/tmp/luna-job-1"));
    let teardown = job_teardown(&workspace);
    assert!(!teardown.after_run);
    assert_eq!(teardown.cleanup_key, None);
    assert_eq!(teardown.remove_dir.as_deref(), Some("/tmp/luna-job-1"));
    assert!(temp_dir_name(12, 345).contains("12"));
}

#[test]
fn job_workspace_repo_uses_workflow_directory() {
    let plan = plan_job_workspace(&options(JobWorkspaceMode::Repo, "Inspect repository"), "/repo");
    let assignment = match plan {
        JobWorkspacePlan::Existing(assignment) => assignment,
        other => panic!("expected the repository, got {other:?}"),
    };
    assert_eq!(assignment.path, "/repo");
    assert_eq!(assignment.workspace_key, "repo");
    let workspace = existing_workspace(assignment);
    assert!(workspace.temp_path.is_none());
    assert!(!workspace.managed);
    let teardown = job_teardown(&workspace);
    assert!(!teardown.after_run && teardown.cleanup_key.is_none() && teardown.remove_dir.is_none());
}

#[test]
fn job_workspace_worktree_uses_prompt_slug_under_configured_root() {
    let plan = plan_job_workspace(
        &options(JobWorkspaceMode::Worktree, "Fix flaky tests!!!\nmore"),
        "/repo",
    );
    match plan {
        JobWorkspacePlan::Worktree(key) => assert!(key.contains("fix-flaky-tests")),
        other => panic!("expected a worktree, got {other:?}"),
    }
}

#[test]
fn worktree_jobs_are_put_away_however_they_end() {
    let assignment = || WorkspaceAssignment {
        path: "/root/JOB-1".to_string(),
        workspace_key: "JOB-1".to_string(),
        created_now: true,
    };
    let workspace = worktree_workspace(assignment(), Ok(())).unwrap();
    assert!(workspace.managed);
    let teardown = job_teardown(&workspace);
    assert!(teardown.after_run);
    assert_eq!(teardown.cleanup_key.as_deref(), Some("JOB-1"));
    assert_eq!(teardown.remove_dir, None);

    let failed = Err(LunaError::Workspace("before_run".to_string()));
    let (err, cleanup) = worktree_workspace(assignment(), failed).unwrap_err();
    assert_eq!(err.message(), "before_run");
    assert_eq!(cleanup, "JOB-1");
}

#[test]
fn codex_job_rejects_invalid_command_before_launching_runtime() {
    let err = run_job_in_workspace(&codex("\"codex"), "/tmp/work").unwrap_err();
    assert!(err.message().contains("unterminated"));
    let launch = run_job_in_workspace(&codex("codex app-server"), "/tmp/work").unwrap();
    assert_eq!(launch.options.command, "codex");
    assert_eq!(launch.options.args, vec!["app-server"]);
    assert_eq!(launch.turn_timeout_ms, 1_000);
    assert_eq!(launch.permission_mode, "never");
}

#[test]
fn job_rejects_acp_runner_before_launching_runtime() {
    let runner = RunnerConfig::Acp(AcpRunner {
        command: "kimi acp".to_string(),
        turn_timeout_ms: 1_000,
        read_timeout_ms: 1_000,
        stall_timeout_ms: 1_000,
    });
    let err = run_job_in_workspace(&runner, "/tmp/work").unwrap_err();
    assert!(err.message().contains("luna job only supports angel-engine runners"));
}

#[test]
fn codex_job_default_permission_mode_is_never() {
    assert_eq!(default_permission_mode("codex"), "never");
}

#[test]
fn codex_job_auto_allows_only_permission_elicitations() {
    assert_eq!(
        permission_elicitation_id(&elicitation_event("approval")).as_deref(),
        Some("approval-id")
    );
    assert_eq!(
        permission_elicitation_id(&elicitation_event("permissionProfile")).as_deref(),
        Some("permissionProfile-id")
    );
    assert!(permission_elicitation_id(&elicitation_event("userInput")).is_none());
    assert!(permission_elicitation_id(&elicitation_event("dynamicToolCall")).is_none());
}

#[test]
fn codex_job_session_streams_jsonl_resolves_permission_and_closes_on_result() {
    let (mut session, action) = JobSession::begin("codex", "/tmp/luna-job", "inspect repo", 1_000);
    match action {
        JobAction::StartTurn(request) => {
            assert_eq!(request.text, "inspect repo");
            assert_eq!(request.cwd, "/tmp/luna-job");
            assert_eq!(request.permission_mode, "never");
        }
        other => panic!("expected a turn, got {other:?}"),
    }
    assert!(matches!(session.step(JobEvent::Done), JobAction::WriteEvents));
    assert!(matches!(session.step(JobEvent::Done), JobAction::ReadClock));
    assert!(matches!(session.step(JobEvent::Elapsed(0)), JobAction::PollEvent(250)));
    assert!(matches!(
        session.step(JobEvent::Polled(Some(elicitation_event("approval")))),
        JobAction::WriteEvents
    ));
    assert!(matches!(
        session.step(JobEvent::Done),
        JobAction::AllowForSession(id) if id == "approval-id"
    ));
    assert!(matches!(session.step(JobEvent::Done), JobAction::WriteEvents));
    assert!(matches!(session.step(JobEvent::Done), JobAction::ReadClock));
    assert!(matches!(session.step(JobEvent::Elapsed(10)), JobAction::PollEvent(250)));
    assert!(matches!(
        session.step(JobEvent::Polled(Some(result_event()))),
        JobAction::WriteEvents
    ));
    assert!(matches!(session.step(JobEvent::Done), JobAction::Close));
    assert!(matches!(session.step(JobEvent::Done), JobAction::Finish(Ok(()))));
}

#[test]
fn codex_job_session_does_not_resolve_user_input_and_times_out() {
    let (mut session, _) = JobSession::begin("codex", "/tmp/luna-job", "inspect repo", 1);
    session.step(JobEvent::Done);
    session.step(JobEvent::Done);
    assert!(matches!(session.step(JobEvent::Elapsed(0)), JobAction::PollEvent(250)));
    assert!(matches!(
        session.step(JobEvent::Polled(Some(elicitation_event("userInput")))),
        JobAction::WriteEvents
    ));
    assert!(matches!(session.step(JobEvent::Done), JobAction::ReadClock));
    assert!(matches!(session.step(JobEvent::Elapsed(0)), JobAction::PollEvent(250)));
    assert!(matches!(session.step(JobEvent::Polled(None)), JobAction::ReadClock));
    assert!(matches!(session.step(JobEvent::Elapsed(2)), JobAction::Close));
    match session.step(JobEvent::Done) {
        JobAction::Finish(Err(err)) => assert!(err.message().contains("job turn timed out")),
        other => panic!("expected a timeout, got {other:?}"),
    }
}
