use luna::agent::{
    CommandExecutionEvent, SessionUpdate, StopReason, UsageUpdate, WorkerOutcome,
};
use luna::config::{
    default_shell_activity_patterns, AsahiTrackerConfig, CodexRunner, GitHubProjectTrackerConfig, HooksConfig, RunnerConfig,
    SchedulerConfig, ServiceConfig, TrackerConfig,
};
use luna::domain::project::ProjectRef;
use luna::model::{BlockerRef, Comment, Issue};
use luna::orchestrator::embedded::{
    configured_port, database_url, embedded_asahi_db_path, embedded_endpoint, health_url,
    should_embed, tick_interval_ms, use_endpoint, wait_for_asahi, StartStep,
};
use luna::orchestrator::events::{
    active_project, decide_retry, handle_retry_due, handle_worker_exit, on_tick, retry_delay_ms,
    schedule_retry, take_retry, RetryDecision, RetryStep,
};
use luna::orchestrator::order::{compare_priority, order_candidates, sort_issues_for_dispatch};
use luna::orchestrator::state::{
    available_global_slots, dispatch_issue, has_available_state_slot, should_dispatch,
    state_slot_left, OrchestratorState, RetryDelay, RetryEntry,
};
use luna::orchestrator::watch::{
    apply_session_update, apply_usage_update, handle_command_executed, inspect_shell_activity,
    poll_comments, reconcile_running_issues, reconcile_stalled_runs, shutdown_running,
    totals_have_room, CommandActivity, ShellActivityInspection,
};
use luna::table::TextMap;
use luna::time::Timestamp;
use luna::tracker::asahi::{AsahiTracker, Method};
use luna::tracker::github_project::create_comment;

fn at(secs: i64) -> Timestamp {
    Timestamp { secs, nanos: 0 }
}

fn config(tracker: TrackerConfig, max_concurrent: usize, stall_timeout_ms: i64) -> ServiceConfig {
    ServiceConfig {
        tracker,
        runner: RunnerConfig::Codex(CodexRunner {
            command: "codex app-server".to_string(),
            args: Vec::new(),
            approval_policy: None,
            thread_sandbox: None,
            turn_sandbox_policy: None,
            turn_timeout_ms: 1000,
            read_timeout_ms: 1000,
            stall_timeout_ms,
        }),
        scheduler: SchedulerConfig {
            max_concurrent,
            max_turns: 20,
            retry_backoff_ms: 300_000,
            max_concurrent_by_state: TextMap::new(),
        },
        hooks: HooksConfig {
            after_create: None,
            before_run: None,
            after_run: None,
            before_remove: None,
            timeout_ms: 60_000,
        },
        poll_interval_ms: 30_000,
        workspace_root: "/tmp/workspaces".to_string(),
        workflow_dir: "/tmp".to_string(),
        shell_activity_patterns: Vec::new(),
    }
}

fn github_codex_config() -> ServiceConfig {
    config(
        TrackerConfig::GitHubProject(GitHubProjectTrackerConfig {
            owner: "acme".to_string(),
            project_number: 12,
            status_field: "Status".to_string(),
            priority_field: "Priority".to_string(),
            gh_command: "gh".to_string(),
            active_states: vec!["Todo".to_string(), "In Progress".to_string()],
            terminal_states: vec!["Done".to_string()],
        }),
        2,
        300_000,
    )
}

fn asahi_codex_config() -> ServiceConfig {
    config(
        TrackerConfig::Asahi(AsahiTrackerConfig {
            endpoint: "http://127.0.0.1:3000".to_string(),
            db: Some("./asahi.db".to_string()),
            port: None,
        }),
        2,
        300_000,
    )
}

fn issue(id: &str, identifier: &str, state: &str) -> Issue {
    Issue {
        id: id.to_string(),
        identifier: identifier.to_string(),
        title: "title".to_string(),
        description: None,
        priority: None,
        state: state.to_string(),
        branch_name: None,
        url: None,
        labels: Vec::new(),
        blocked_by: Vec::new(),
        created_at: None,
        updated_at: None,
        project: None,
        source_data: None,
    }
}

fn issue_with_project(id: &str, identifier: &str, state: &str, slug: &str) -> Issue {
    let mut issue = issue(id, identifier, state);
    issue.project = Some(ProjectRef {
        id: format!("project-{slug}"),
        slug: slug.to_string(),
        name: slug.to_string(),
        state: "Active".to_string(),
        priority: None,
    });
    issue
}

/// A state in which these issues run.
fn running(config: &ServiceConfig, issues: Vec<Issue>) -> OrchestratorState {
    let mut state = OrchestratorState::new(config);
    for issue in issues {
        dispatch_issue(issue, None, at(1000), &mut state);
    }
    state
}

fn retry_entry(issue_id: &str, identifier: &str, attempt: u32) -> RetryEntry {
    RetryEntry {
        issue_id: issue_id.to_string(),
        identifier: identifier.to_string(),
        attempt,
        delay_ms: 1000,
        error: None,
    }
}

fn usage(input_tokens: u64, output_tokens: u64, total_tokens: u64) -> UsageUpdate {
    UsageUpdate { input_tokens, output_tokens, total_tokens }
}

#[test]
fn codex_configs_cover_github_and_asahi_tracker_state_semantics() {
    let github = github_codex_config();
    assert!(matches!(github.tracker, TrackerConfig::GitHubProject(_)));
    assert!(github.tracker.is_active_state("todo"));
    assert!(github.tracker.is_active_state("IN PROGRESS"));
    assert!(github.tracker.is_terminal_state("done"));
    assert!(!github.tracker.is_active_state("Backlog"));

    let asahi = asahi_codex_config();
    assert!(matches!(asahi.tracker, TrackerConfig::Asahi(_)));
    assert!(asahi.tracker.is_active_state("Todo"));
    assert!(asahi.tracker.is_active_state("in progress"));
    assert!(asahi.tracker.is_terminal_state("Done"));
    assert!(!asahi.tracker.is_active_state("Backlog"));
}

#[test]
fn should_dispatch_accepts_valid_codex_github_and_asahi_issues() {
    let github = github_codex_config();
    let asahi = asahi_codex_config();
    let github_state = OrchestratorState::new(&github);
    let asahi_state = OrchestratorState::new(&asahi);

    assert!(should_dispatch(&issue("1", "acme/repo#1", "Todo"), &github_state, &github));
    assert!(should_dispatch(&issue("2", "ASAHI-2", "In Progress"), &asahi_state, &asahi));
}

#[test]
fn should_dispatch_rejects_invalid_or_unavailable_codex_work() {
    let config = github_codex_config();
    let mut state = OrchestratorState::new(&config);

    assert!(!should_dispatch(&issue("", "acme/repo#1", "Todo"), &state, &config));
    assert!(!should_dispatch(&issue("1", "", "Todo"), &state, &config));
    assert!(!should_dispatch(&issue("1", "acme/repo#1", "Backlog"), &state, &config));
    assert!(!should_dispatch(&issue("1", "acme/repo#1", "Done"), &state, &config));

    state.claimed.insert("1".to_string());
    assert!(!should_dispatch(&issue("1", "acme/repo#1", "Todo"), &state, &config));

    let state = running(&config, vec![issue("1", "acme/repo#1", "Todo")]);
    assert!(!should_dispatch(&issue("1", "acme/repo#1", "Todo"), &state, &config));
}

#[test]
fn should_dispatch_respects_global_and_state_concurrency_limits() {
    let mut config = github_codex_config();
    config.scheduler.max_concurrent = 1;
    config.scheduler.max_concurrent_by_state.insert("todo".to_string(), 1);
    let state = running(&config, vec![issue("1", "acme/repo#1", "Todo")]);

    assert_eq!(available_global_slots(&state, &config), 0);
    assert!(!has_available_state_slot("Todo", &state, &config));
    assert!(!should_dispatch(&issue("2", "acme/repo#2", "Todo"), &state, &config));

    config.scheduler.max_concurrent = 5;
    assert_eq!(available_global_slots(&state, &config), 4);
    assert!(!has_available_state_slot("TODO", &state, &config));
    assert!(has_available_state_slot("In Progress", &state, &config));
    assert!(state_slot_left("Todo", "other", &state, &config));
    assert!(!state_slot_left("Todo", "todo", &state, &config));
}

#[test]
fn should_dispatch_rejects_unresolved_blockers_only() {
    let config = github_codex_config();
    let state = OrchestratorState::new(&config);
    let mut blocked = issue("1", "acme/repo#1", "Todo");
    blocked.blocked_by = vec![BlockerRef {
        id: Some("blocker".to_string()),
        identifier: Some("acme/repo#0".to_string()),
        state: Some("Todo".to_string()),
    }];
    assert!(!should_dispatch(&blocked, &state, &config));

    blocked.blocked_by[0].state = Some("Done".to_string());
    assert!(should_dispatch(&blocked, &state, &config));

    blocked.blocked_by[0].state = None;
    assert!(!should_dispatch(&blocked, &state, &config));
}

#[test]
fn sort_dispatches_oldest_then_highest_priority_then_identifier() {
    // The first and the second of January 2026.
    let first = at(1_767_225_600);
    let second = at(1_767_312_000);
    let mut oldest_low = issue("1", "C", "Todo");
    oldest_low.created_at = Some(first);
    oldest_low.priority = Some(3);

    let mut oldest_high_b = issue("2", "B", "Todo");
    oldest_high_b.created_at = Some(first);
    oldest_high_b.priority = Some(1);

    let mut oldest_high_a = issue("3", "A", "Todo");
    oldest_high_a.created_at = Some(first);
    oldest_high_a.priority = Some(1);

    let mut newer = issue("4", "D", "Todo");
    newer.created_at = Some(second);
    newer.priority = Some(0);

    let mut issues = vec![newer, oldest_low, oldest_high_b, oldest_high_a];
    issues.sort_by(sort_issues_for_dispatch);

    assert_eq!(
        issues.into_iter().map(|issue| issue.identifier).collect::<Vec<_>>(),
        vec!["A", "B", "C", "D"]
    );
    assert_eq!(compare_priority(Some(1), Some(2)), std::cmp::Ordering::Less);
    assert_eq!(compare_priority(Some(1), None), std::cmp::Ordering::Less);
    assert_eq!(compare_priority(None, Some(1)), std::cmp::Ordering::Greater);
    assert_eq!(compare_priority(None, None), std::cmp::Ordering::Equal);
}

#[test]
fn candidates_stay_together_by_project() {
    let dated = |id: &str, slug: &str, secs: i64| {
        let mut issue = issue_with_project(id, id, "Todo", slug);
        issue.created_at = Some(at(secs));
        issue
    };
    let candidates = vec![dated("a2", "a", 20), dated("b1", "b", 10), dated("a1", "a", 15), dated("c1", "c", 5)];
    let ids = |issues: Vec<Issue>| issues.into_iter().map(|issue| issue.id).collect::<Vec<_>>();
    assert_eq!(ids(order_candidates(&candidates, &None)), vec!["c1", "b1", "a1", "a2"]);
    assert_eq!(
        ids(order_candidates(&candidates, &Some("a".to_string()))),
        vec!["a1", "a2", "c1", "b1"]
    );
}

#[test]
fn reconcile_stalled_runs_sends_stalled_stop_for_codex_runner() {
    let mut config = github_codex_config();
    if let RunnerConfig::Codex(runner) = &mut config.runner {
        runner.stall_timeout_ms = 1;
    }
    let state = running(&config, vec![issue("1", "acme/repo#1", "Todo")]);
    let later = Timestamp { secs: 1000, nanos: 10_000_000 };
    assert_eq!(reconcile_stalled_runs(&state, &config, later), vec!["1"]);
    let soon = Timestamp { secs: 1000, nanos: 1_900_000 };
    assert!(reconcile_stalled_runs(&state, &config, soon).is_empty());
    if let RunnerConfig::Codex(runner) = &mut config.runner {
        runner.stall_timeout_ms = 0;
    }
    assert!(reconcile_stalled_runs(&state, &config, later).is_empty());
}

#[test]
fn reports_renew_the_patience_with_an_agent() {
    let mut config = github_codex_config();
    if let RunnerConfig::Codex(runner) = &mut config.runner {
        runner.stall_timeout_ms = 1_000;
    }
    let mut state = running(&config, vec![issue("1", "acme/repo#1", "Todo")]);
    assert_eq!(reconcile_stalled_runs(&state, &config, at(2001)), vec!["1"]);
    apply_session_update(session_update("1"), &mut state);
    assert!(reconcile_stalled_runs(&state, &config, at(2001)).is_empty());
    assert_eq!(reconcile_stalled_runs(&state, &config, at(2002)), vec!["1"]);
}

#[test]
fn agents_stay_within_the_limit_however_they_come_and_go() {
    let config = asahi_codex_config();
    let mut state = OrchestratorState::new(&config);
    let all = || (1..=6).map(|n| issue(&n.to_string(), &format!("ASAHI-{n}"), "Todo")).collect::<Vec<_>>();
    for round in 0..5 {
        on_tick(true, Some(all()), &config, at(round), &mut state);
        assert!(state.running.len() <= 2);
        let id = state.running.entries[0].0.clone();
        handle_worker_exit(&id, &WorkerOutcome::TimedOut, &config, &mut state);
        assert!(state.claimed.contains(&id) && state.retry_attempts.contains_key(&id));
        if let Some(entry) = take_retry(&id, &mut state) {
            handle_retry_due(entry, Some(all()), &config, at(round), &mut state);
        }
        assert!(state.running.len() <= 2);
        for (id, _) in &state.running.entries {
            assert!(state.claimed.contains(id) && !state.retry_attempts.contains_key(id));
        }
    }
}

#[test]
fn a_lowered_limit_starts_no_agent_until_enough_have_ended() {
    let mut config = asahi_codex_config();
    let mut state = running(
        &config,
        vec![issue("1", "ASAHI-1", "Todo"), issue("2", "ASAHI-2", "Todo")],
    );
    config.scheduler.max_concurrent = 1;
    let more = || Some(vec![issue("3", "ASAHI-3", "Todo")]);
    assert!(on_tick(true, more(), &config, at(5), &mut state).is_empty());
    assert_eq!(state.running.len(), 2);
    handle_worker_exit("1", &WorkerOutcome::CanceledByReconciliation, &config, &mut state);
    assert!(on_tick(true, more(), &config, at(6), &mut state).is_empty());
    handle_worker_exit("2", &WorkerOutcome::CanceledByReconciliation, &config, &mut state);
    assert_eq!(on_tick(true, more(), &config, at(7), &mut state).len(), 1);
    assert_eq!(state.max_concurrent_agents, 1);
}

#[test]
fn usage_updates_count_only_new_token_deltas() {
    let config = github_codex_config();
    let mut state = running(&config, vec![issue("1", "acme/repo#1", "Todo")]);

    apply_usage_update(&mut state, "1", usage(100, 20, 120));
    apply_usage_update(&mut state, "1", usage(150, 25, 175));
    apply_usage_update(&mut state, "1", usage(140, 22, 162));
    apply_usage_update(&mut state, "1", usage(151, 26, 177));
    apply_usage_update(&mut state, "unknown", usage(1, 1, 2));

    assert_eq!(state.agent_totals.input_tokens, 151);
    assert_eq!(state.agent_totals.output_tokens, 26);
    assert_eq!(state.agent_totals.total_tokens, 177);
}

fn session_update(issue_id: &str) -> SessionUpdate {
    SessionUpdate {
        issue_id: issue_id.to_string(),
        issue_identifier: "acme/repo#1".to_string(),
        event: "turn/started".to_string(),
        timestamp: at(2000),
        session_id: Some("session".to_string()),
        thread_id: Some("thread".to_string()),
        turn_id: Some("turn".to_string()),
        agent_pid: Some(123),
        message: Some("delta".to_string()),
        usage: Some(usage(10, 2, 12)),
        rate_limits: Some("{\"remaining\":1}".to_string()),
        turn_count: Some(2),
    }
}

#[test]
fn session_updates_refresh_running_entry_metadata() {
    let config = github_codex_config();
    let mut state = running(&config, vec![issue("1", "acme/repo#1", "Todo")]);

    apply_session_update(session_update("1"), &mut state);

    let entry = state.running.get("1").unwrap();
    assert_eq!(entry.last_agent_event.as_deref(), Some("turn/started"));
    assert_eq!(entry.session_id.as_deref(), Some("session"));
    assert_eq!(entry.thread_id.as_deref(), Some("thread"));
    assert_eq!(entry.turn_id.as_deref(), Some("turn"));
    assert_eq!(entry.agent_pid, Some(123));
    assert_eq!(entry.last_agent_message.as_deref(), Some("delta"));
    assert_eq!(entry.turn_count, 2);
    assert_eq!(entry.last_agent_timestamp, Some(at(2000)));
    assert_eq!(state.agent_totals.total_tokens, 12);
    assert_eq!(state.agent_rate_limits.as_deref(), Some("{\"remaining\":1}"));
    apply_session_update(session_update("unknown"), &mut state);
    assert_eq!(state.agent_totals.total_tokens, 12);
}

#[test]
fn worker_event_entry_routes_codex_retry_due() {
    let config = asahi_codex_config();
    let mut state = OrchestratorState::new(&config);
    state.claimed.insert("1".to_string());
    state.retry_attempts.insert("1".to_string(), retry_entry("1", "ASAHI-1", 4));

    let entry = take_retry("1", &mut state).expect("retry");
    let step = handle_retry_due(
        entry,
        Some(vec![issue("1", "ASAHI-1", "Todo")]),
        &config,
        at(5),
        &mut state,
    );

    assert!(matches!(step, RetryStep::Dispatched(issue) if issue.id == "1"));
    assert!(!state.retry_attempts.contains_key("1"));
    assert_eq!(state.running.get("1").unwrap().retry_attempt, Some(4));
}

#[test]
fn worker_exit_outcomes_schedule_codex_retries_or_release_claims() {
    let config = asahi_codex_config();
    let issues = (1..=5)
        .map(|n| issue(&n.to_string(), &format!("ASAHI-{n}"), "Todo"))
        .collect();
    let mut state = running(&config, issues);
    state.running.entries[0].1.pending_cleanup = true;
    state.running.entries[1].1.retry_attempt = Some(2);

    let plan = handle_worker_exit("1", &WorkerOutcome::Normal, &config, &mut state).unwrap();
    assert!(plan.cleanup);
    assert_eq!(plan.identifier, "ASAHI-1");
    assert_eq!(plan.retry.unwrap().delay_ms, 1_000);
    assert!(state.running.get("1").is_none());
    assert!(state.completed.contains("1"));
    assert_eq!(state.retry_attempts.get("1").unwrap().attempt, 1);

    let failed = WorkerOutcome::Failed("boom".to_string());
    let plan = handle_worker_exit("2", &failed, &config, &mut state).unwrap();
    assert!(!plan.cleanup);
    assert_eq!(plan.retry.unwrap().delay_ms, 40_000);
    let retry = state.retry_attempts.get("2").unwrap();
    assert_eq!(retry.attempt, 3);
    assert_eq!(retry.error.as_deref(), Some("boom"));

    handle_worker_exit("3", &WorkerOutcome::TimedOut, &config, &mut state).unwrap();
    assert_eq!(state.retry_attempts.get("3").unwrap().error.as_deref(), Some("turn_timeout"));
    handle_worker_exit("4", &WorkerOutcome::Stalled, &config, &mut state).unwrap();
    assert_eq!(state.retry_attempts.get("4").unwrap().error.as_deref(), Some("stalled"));

    let outcome = WorkerOutcome::CanceledByReconciliation;
    let plan = handle_worker_exit("5", &outcome, &config, &mut state).unwrap();
    assert!(plan.retry.is_none());
    assert!(!state.claimed.contains("5"));
    assert!(!state.retry_attempts.contains_key("5"));
    assert!(handle_worker_exit("5", &outcome, &config, &mut state).is_none());
}

#[test]
fn retry_due_dispatches_active_codex_issue_and_releases_missing_issue() {
    let config = asahi_codex_config();
    let mut state = OrchestratorState::new(&config);
    state.claimed.insert("1".to_string());
    state.claimed.insert("missing".to_string());
    state.claimed.insert("2".to_string());

    let candidates = || vec![issue("1", "ASAHI-1", "Todo"), issue("2", "ASAHI-2", "Done")];
    let step =
        handle_retry_due(retry_entry("1", "ASAHI-1", 2), Some(candidates()), &config, at(5), &mut state);
    assert!(matches!(step, RetryStep::Dispatched(_)));
    assert!(state.running.contains_key("1"));

    let step = handle_retry_due(
        retry_entry("missing", "ASAHI-missing", 1),
        Some(Vec::new()),
        &config,
        at(5),
        &mut state,
    );
    assert!(matches!(step, RetryStep::Released));
    assert!(!state.claimed.contains("missing"));

    let step =
        handle_retry_due(retry_entry("2", "ASAHI-2", 1), Some(candidates()), &config, at(5), &mut state);
    assert!(matches!(step, RetryStep::Released));
    assert!(!state.claimed.contains("2"));
}

#[test]
fn retries_wait_again_without_candidates_or_slots() {
    let mut config = asahi_codex_config();
    config.scheduler.max_concurrent = 1;
    let mut state = running(&config, vec![issue("1", "ASAHI-1", "Todo")]);
    state.claimed.insert("2".to_string());
    let step = handle_retry_due(retry_entry("2", "ASAHI-2", 1), None, &config, at(5), &mut state);
    assert!(matches!(step, RetryStep::Again(timer) if timer.delay_ms == 20_000));
    let entry = take_retry("2", &mut state).unwrap();
    assert_eq!(entry.error.as_deref(), Some("retry poll failed"));
    assert_eq!(entry.attempt, 2);
    let candidates = vec![issue("2", "ASAHI-2b", "Todo")];
    let step = handle_retry_due(entry, Some(candidates), &config, at(5), &mut state);
    assert!(matches!(step, RetryStep::Again(timer) if timer.delay_ms == 40_000));
    let entry = take_retry("2", &mut state).unwrap();
    assert_eq!(entry.error.as_deref(), Some("no available orchestrator slots"));
    assert_eq!(entry.identifier, "ASAHI-2b");
    assert!(take_retry("2", &mut state).is_none());
}

#[test]
fn a_due_retry_is_decided_before_it_is_gone_on_with() {
    let config = asahi_codex_config();
    let state = OrchestratorState::new(&config);
    let entry = retry_entry("1", "ASAHI-1", u32::MAX);
    match decide_retry(&entry, &None, &config, &state) {
        RetryDecision::Again { identifier, error } => {
            assert_eq!((identifier.as_str(), error.as_str()), ("ASAHI-1", "retry poll failed"))
        }
        other => panic!("{other:?}"),
    }
    let found = Some(vec![issue("1", "ASAHI-1", "Todo")]);
    assert!(matches!(
        decide_retry(&entry, &found, &config, &state),
        RetryDecision::Dispatch(issue) if issue.id == "1"
    ));
    assert!(matches!(
        decide_retry(&entry, &Some(Vec::new()), &config, &state),
        RetryDecision::Released
    ));
}

#[test]
fn totals_have_room_for_what_is_new() {
    let config = asahi_codex_config();
    let mut state = running(&config, vec![issue("1", "ASAHI-1", "Todo")]);
    let report = |n: u64| UsageUpdate { input_tokens: n, output_tokens: 0, total_tokens: n };
    assert!(totals_have_room(&state, "1", &report(u64::MAX)));
    apply_usage_update(&mut state, "1", report(u64::MAX));
    assert!(totals_have_room(&state, "1", &report(u64::MAX)));
    state.running.entries[0].1.reported = report(u64::MAX - 1);
    assert!(!totals_have_room(&state, "1", &report(u64::MAX)));
    assert!(totals_have_room(&state, "unknown", &report(u64::MAX)));
}

#[test]
fn failures_wait_longer_each_time_up_to_the_limit() {
    let delays: Vec<u64> =
        (0..8).map(|n| retry_delay_ms(RetryDelay::Backoff, n, 300_000)).collect();
    assert_eq!(
        delays,
        vec![10_000, 10_000, 20_000, 40_000, 80_000, 160_000, 300_000, 300_000]
    );
    assert_eq!(retry_delay_ms(RetryDelay::Backoff, u32::MAX, u64::MAX), u64::MAX);
    assert_eq!(retry_delay_ms(RetryDelay::Continuation, 9, 5), 1_000);
    let config = asahi_codex_config();
    let mut state = OrchestratorState::new(&config);
    let first = schedule_retry(&mut state, 300_000, "1".to_string(), 1, None, None, RetryDelay::Backoff);
    assert!(!first.replaces);
    let second = schedule_retry(&mut state, 300_000, "1".to_string(), 2, None, None, RetryDelay::Backoff);
    assert!(second.replaces);
    assert_eq!(second.delay_ms, 20_000);
    assert_eq!(state.retry_attempts.get("1").unwrap().identifier, "");
}

fn comment(id: &str, body: &str) -> Comment {
    Comment {
        id: id.to_string(),
        issue_id: "1".to_string(),
        body: body.to_string(),
        created_at: at(0),
    }
}

#[test]
fn poll_comments_forwards_only_new_asahi_comments_to_running_codex() {
    let config = asahi_codex_config();
    let mut state = running(&config, vec![issue("1", "ASAHI-1", "Todo")]);
    let first = vec![comment("c1", "first"), comment("c2", "second")];
    let second = vec![comment("c1", "first"), comment("c3", "third")];
    assert_eq!(poll_comments("1", &first, &mut state), vec!["first", "second"]);
    assert_eq!(poll_comments("1", &second, &mut state), vec!["third"]);
    assert!(poll_comments("1", &second, &mut state).is_empty());
}

#[test]
fn poll_comments_ignores_fetch_errors_and_missing_codex_comment_sender() {
    let config = asahi_codex_config();
    let mut state = running(&config, vec![issue("1", "ASAHI-1", "Todo")]);
    state.running.entries[0].1.accepts_comments = false;
    assert!(poll_comments("1", &vec![comment("c1", "not delivered")], &mut state).is_empty());
    assert!(state.running.get("1").unwrap().seen_comment_ids.contains("c1"));
    assert!(poll_comments("unknown", &vec![comment("c1", "x")], &mut state).is_empty());
}

fn command(issue_id: &str, command: &str) -> CommandExecutionEvent {
    CommandExecutionEvent {
        issue_id: issue_id.to_string(),
        issue_identifier: "ASAHI-1".to_string(),
        command: command.to_string(),
        cwd: Some("/tmp/work".to_string()),
        duration_ms: Some(1200),
        exit_code: Some(0),
    }
}

fn texts(list: &[&str]) -> Vec<String> {
    list.iter().map(|text| text.to_string()).collect()
}

fn told(
    event: &CommandExecutionEvent,
    patterns: &Vec<String>,
    state: &OrchestratorState,
) -> Option<CommandActivity> {
    handle_command_executed(event, patterns, state)
}

#[test]
fn command_activity_posts_asahi_comment_and_activity_for_matching_codex_command() {
    let config = asahi_codex_config();
    let state = running(&config, vec![issue("1", "ASAHI-1", "Todo")]);
    let activity =
        told(&command("1", "git commit -m test"), &texts(&["git commit"]), &state).unwrap();
    assert_eq!(activity.issue.id, "1");
    assert_eq!(activity.comment, "🤖 Agent executed: `git commit -m test`");
    assert_eq!(activity.kind, "command_executed");
    assert_eq!(activity.body, activity.comment);
    assert_eq!(activity.title, "Agent executed: git commit -m test");
    let TrackerConfig::Asahi(mut asahi) = config.tracker else { unreachable!() };
    asahi.endpoint = "http://127.0.0.1:9".to_string();
    let tracker = AsahiTracker::new(asahi);
    let comment = tracker.create_comment(&activity.issue.id, &activity.comment).unwrap();
    assert_eq!(comment.method, Method::Post);
    assert_eq!(comment.url, "http://127.0.0.1:9/api/issues/1/comments");
    let posted = tracker
        .create_activity(&activity.issue.id, &activity.kind, &activity.title, Some(activity.body.clone()))
        .unwrap();
    assert_eq!(posted.method, Method::Post);
    assert_eq!(posted.url, "http://127.0.0.1:9/api/issues/1/activities");
}

#[test]
fn command_activity_posts_github_backing_issue_comment_for_matching_codex_command() {
    let config = github_codex_config();
    let state = running(&config, vec![issue("PVTI_1", "acme/repo#42", "Todo")]);
    let event = command("PVTI_1", "gh pr create -R acme/repo --fill");
    let activity = told(&event, &texts(&["gh pr create"]), &state).unwrap();
    let args = create_comment(&activity.issue, &activity.comment).unwrap();
    assert_eq!(args[..6], texts(&["issue", "comment", "42", "-R", "acme/repo", "--body"])[..]);
    assert!(args[6].contains("gh pr create"));
}

#[test]
fn command_activity_posts_github_comment_for_matching_ci_watch_command() {
    let config = github_codex_config();
    let state = running(&config, vec![issue("PVTI_1", "acme/repo#42", "Todo")]);
    let event = command("PVTI_1", "gh run watch 123456 -R acme/repo");
    let activity = told(&event, &texts(&["gh run watch"]), &state).unwrap();
    let args = create_comment(&activity.issue, &activity.comment).unwrap();
    assert_eq!(args[..5], texts(&["issue", "comment", "42", "-R", "acme/repo"])[..]);
    assert!(args[6].contains("gh run watch"));
}

#[test]
fn command_activity_posts_github_comment_for_default_ci_check_command() {
    let config = github_codex_config();
    let state = running(&config, vec![issue("PVTI_1", "acme/repo#42", "Todo")]);
    let event = command("PVTI_1", "gh pr checks 42 -R acme/repo --watch");
    let activity = told(&event, &default_shell_activity_patterns(), &state).unwrap();
    let args = create_comment(&activity.issue, &activity.comment).unwrap();
    assert_eq!(args[..5], texts(&["issue", "comment", "42", "-R", "acme/repo"])[..]);
    assert!(args[6].contains("gh pr checks"));
}

#[test]
fn command_activity_skip_paths_do_not_call_github_tracker_for_codex() {
    let config = github_codex_config();
    let state = running(
        &config,
        vec![issue("PVTI_1", "acme/repo#42", "Todo"), issue("PVTI_2", "acme/repo#42", "Todo")],
    );
    let patterns = texts(&["gh pr create"]);
    let create = "gh pr create -R acme/repo --fill";
    assert!(told(&command("missing", create), &patterns, &state).is_none());
    assert!(told(&command("PVTI_1", "git status"), &patterns, &state).is_none());
    assert!(told(&command("PVTI_1", "echo \"unterminated"), &patterns, &state).is_none());
    assert!(told(&command("PVTI_2", create), &Vec::new(), &state).is_none());
    assert!(told(&command("PVTI_1", create), &patterns, &state).is_some());
}

#[test]
fn the_first_pattern_with_the_words_of_a_command_is_found() {
    let patterns = texts(&["", "gh pr", "gh pr create", "git 'commit"]);
    match inspect_shell_activity("gh  'pr' create", &patterns) {
        ShellActivityInspection::Matched { pattern, command_tokens } => {
            assert_eq!(pattern, "gh pr");
            assert_eq!(command_tokens, texts(&["gh", "pr", "create"]));
        }
        other => panic!("{other:?}"),
    }
    for command in ["gh", "gh prs", "git commit"] {
        match inspect_shell_activity(command, &patterns) {
            ShellActivityInspection::NoMatch { parsed_commands } => {
                assert_eq!(parsed_commands.len(), 1)
            }
            other => panic!("{other:?}"),
        }
    }
    assert!(matches!(
        inspect_shell_activity("git 'commit", &patterns),
        ShellActivityInspection::ParseFailed
    ));
    assert!(matches!(
        inspect_shell_activity("git 'commit", &Vec::new()),
        ShellActivityInspection::NoPatterns
    ));
}

#[test]
fn on_tick_reload_error_keeps_last_codex_config_but_skips_dispatch() {
    let mut config = asahi_codex_config();
    let mut state = OrchestratorState::new(&config);
    config.poll_interval_ms = 7;
    config.scheduler.max_concurrent = 9;
    let candidates = Some(vec![issue("1", "ASAHI-1", "Todo")]);
    assert!(on_tick(false, candidates, &config, at(5), &mut state).is_empty());
    assert_eq!(state.running.len(), 0);
    assert_eq!(state.poll_interval_ms, 7);
    assert_eq!(state.max_concurrent_agents, 9);
    assert!(on_tick(true, None, &config, at(5), &mut state).is_empty());
}

#[test]
fn on_tick_prefers_running_project_and_respects_codex_global_slots() {
    let config = asahi_codex_config();
    let mut state =
        running(&config, vec![issue_with_project("existing", "ASAHI-1", "Todo", "proj-a")]);
    assert_eq!(active_project(&state).as_deref(), Some("proj-a"));
    let candidates = vec![
        issue_with_project("new-b", "ASAHI-3", "Todo", "proj-b"),
        issue_with_project("new-a", "ASAHI-2", "Todo", "proj-a"),
    ];
    let dispatched = on_tick(true, Some(candidates), &config, at(5), &mut state);

    assert_eq!(dispatched.len(), 1);
    assert!(state.running.contains_key("existing"));
    assert!(state.running.contains_key("new-a"));
    assert!(!state.running.contains_key("new-b"));
    assert!(state.claimed.contains("new-a"));
    assert!(!state.claimed.contains("new-b"));
    let entry = state.running.get("new-a").unwrap();
    assert_eq!(entry.issue.project.as_ref().map(|p| p.slug.as_str()), Some("proj-a"));
    assert_eq!(entry.started_at, at(5));
    assert_eq!(entry.retry_attempt, None);
}

#[test]
fn a_tick_takes_each_issue_once() {
    let config = asahi_codex_config();
    let mut state = OrchestratorState::new(&config);
    let twice = vec![issue("1", "ASAHI-1", "Todo"), issue("1", "ASAHI-1", "Todo")];
    assert_eq!(on_tick(true, Some(twice), &config, at(5), &mut state).len(), 1);
}

#[test]
fn reconcile_running_asahi_issues_updates_active_and_stops_nonactive_or_terminal_codex() {
    let config = asahi_codex_config();
    let mut state = running(
        &config,
        vec![
            issue("1", "ASAHI-1", "Todo"),
            issue("2", "ASAHI-2", "Todo"),
            issue("3", "ASAHI-3", "Todo"),
            issue("4", "ASAHI-4", "Todo"),
        ],
    );
    let refreshed = vec![
        issue("1", "ASAHI-1", "Done"),
        issue("2", "ASAHI-2", "Backlog"),
        issue("3", "ASAHI-3", "In Progress"),
    ];

    let stops = reconcile_running_issues(refreshed, &config, &mut state);

    assert!(state.running.get("1").unwrap().pending_cleanup);
    assert_eq!(
        stops,
        vec![("1".to_string(), StopReason::Terminal), ("2".to_string(), StopReason::NonActive)]
    );
    assert_eq!(state.running.get("3").unwrap().issue.state, "In Progress");
    assert_eq!(state.running.get("4").unwrap().issue.state, "Todo");
    let (stopped, retries) = shutdown_running(&state);
    assert_eq!(stopped, vec!["1", "2", "3", "4"]);
    assert!(retries.is_empty());
}

#[test]
fn the_local_tracker_is_embedded_where_none_is_named() {
    let mut config = github_codex_config();
    assert!(should_embed(&config.tracker, true));
    assert!(!should_embed(&config.tracker, false));
    config.tracker = TrackerConfig::Asahi(AsahiTrackerConfig {
        endpoint: "http://127.0.0.1:1".to_string(),
        db: None,
        port: None,
    });
    assert_eq!(embedded_asahi_db_path(&config), "/tmp/asahi.db");
    assert_eq!(database_url("/tmp/asahi.db"), "sqlite:/tmp/asahi.db?mode=rwc");
    assert_eq!(configured_port(&config.tracker), None);
    let endpoint = embedded_endpoint(4321);
    assert_eq!(endpoint, "http://127.0.0.1:4321");
    assert_eq!(health_url(&endpoint), "http://127.0.0.1:4321/api/issues");
    use_endpoint(&mut config.tracker, endpoint.clone());
    match &config.tracker {
        TrackerConfig::Asahi(tracker) => assert_eq!(tracker.endpoint, endpoint),
        other => panic!("expected Asahi tracker, got {other:?}"),
    }
}

#[test]
fn embedded_asahi_skips_explicit_endpoint_without_db_for_codex_workflow() {
    let tracker = TrackerConfig::Asahi(AsahiTrackerConfig {
        endpoint: "http://127.0.0.1:9".to_string(),
        db: None,
        port: None,
    });
    assert!(!should_embed(&tracker, false));
    assert!(should_embed(&asahi_codex_config().tracker, false));
}

#[test]
fn embedded_asahi_is_given_up_on_after_the_last_attempt() {
    assert!(matches!(wait_for_asahi(0, true), StartStep::Up));
    assert!(matches!(wait_for_asahi(58, false), StartStep::WaitAndAskAgain));
    match wait_for_asahi(59, false) {
        StartStep::GiveUp(err) => {
            assert_eq!(err.message(), "asahi failed to start within timeout");
        }
        other => panic!("expected the end, got {other:?}"),
    }
    assert_eq!(tick_interval_ms(0), 1);
    assert_eq!(tick_interval_ms(30_000), 30_000);
}
