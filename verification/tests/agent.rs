use luna::agent::angel_runtime::{
    angel_error, ends_turn, launch_runtime, project_turn_event, project_turn_event_at, run_turn,
    start_request, truncate_message, turn_request, AngelEventContext, AngelRuntimeKind,
    AngelRuntimeLaunchConfig, AngelWorkerEventState, ProjectedAngelEvent, TurnAction,
    TurnConversation, TurnElicitation, TurnResult, TurnRunEvent, TurnWait,
};
use luna::agent::attempt::{Action, Attempt, Event};
use luna::agent::command_line::{parse_command_words, split_command};
use luna::agent::worker::{
    build_agent_session, channel_closed, session_started, AngelCommand, AngelWorker, Answer,
    SessionCall, SessionPlan, WorkerAction, WorkerInput,
};
use luna::agent::{
    exit_report, map_stop_reason, CommandExecutionEvent, SessionUpdate, StopReason, TurnExit,
    WorkerEvent, WorkerOutcome,
};
use luna::config::{AcpRunner, CodexRunner, OpencodeRunner, RunnerConfig};
use luna::error::LunaError;
use luna::model::{Comment, Issue};
use luna::time::Timestamp;

fn codex_runner() -> CodexRunner {
    CodexRunner {
        command: "codex app-server".to_string(),
        args: vec!["--experimental".to_string()],
        approval_policy: None,
        thread_sandbox: None,
        turn_sandbox_policy: None,
        turn_timeout_ms: 1234,
        read_timeout_ms: 5000,
        stall_timeout_ms: 300_000,
    }
}

#[test]
fn codex_launch_config_uses_codex_runtime_defaults() {
    let launch = AngelRuntimeLaunchConfig::codex(&codex_runner());

    assert!(matches!(launch.kind, AngelRuntimeKind::Codex));
    assert_eq!(launch.kind.name(), "codex");
    assert_eq!(launch.command, "codex app-server");
    assert_eq!(launch.args, vec!["--experimental"]);
    assert_eq!(launch.turn_timeout_ms, 1234);
    assert_eq!(launch.default_permission_mode, "never");
    assert_eq!(launch.default_reasoning_effort, None);
}

#[test]
fn truncate_message_keeps_short_messages_and_shortens_long_ones() {
    assert_eq!(truncate_message("short".to_string()), "short");

    let long = "好".repeat(513);
    let truncated = truncate_message(long);

    assert_eq!(truncated.chars().count(), 515);
    assert!(truncated.ends_with("..."));
    let full = "好".repeat(512);
    assert_eq!(truncate_message(full.clone()), full);
}

#[test]
fn splits_command_and_appends_explicit_args() {
    let (program, args) =
        split_command("codex app-server", &["--experimental".to_string()]).unwrap();

    assert_eq!(program, "codex");
    assert_eq!(args, vec!["app-server", "--experimental"]);
}

#[test]
fn keeps_quoted_executable_path_together() {
    let (program, args) =
        split_command("'/Applications/My Tools/agent' --foo \"bar baz\"", &[]).unwrap();

    assert_eq!(program, "/Applications/My Tools/agent");
    assert_eq!(args, vec!["--foo", "bar baz"]);
}

#[test]
fn parses_words_quotes_and_escapes() {
    assert_eq!(parse_command_words("a  'b c' \"d e\"f").unwrap(), vec!["a", "b c", "d ef"]);
    assert_eq!(parse_command_words("").unwrap(), Vec::<String>::new());
    let err = parse_command_words("\"codex").unwrap_err();
    assert!(matches!(err, LunaError::Agent(_) | LunaError::InvalidConfig(_)));
    assert!(err.message().contains("unterminated"));
}

#[test]
fn any_words_can_be_written_in_quotes() {
    let words = ["", "two words", "it's", "a \"b\"", "back\\slash", "\t"];
    for quote in ['\'', '"'] {
        let line: Vec<String> = words
            .iter()
            .map(|word| {
                let shielded: String = word
                    .chars()
                    .map(|c| if c == quote || c == '\\' { format!("\\{c}") } else { c.to_string() })
                    .collect();
                format!("{quote}{shielded}{quote}")
            })
            .collect();
        assert_eq!(parse_command_words(&line.join(" ")).unwrap(), words);
    }
    assert_eq!(parse_command_words("a \t b\n c").unwrap(), ["a", "b", "c"]);
}

#[test]
fn refuses_a_command_without_a_program() {
    assert!(split_command("   ", &["--flag".to_string()]).is_err());
}

#[test]
fn opencode_launches_with_its_own_defaults() {
    let config = OpencodeRunner {
        command: "opencode acp".to_string(),
        args: Vec::new(),
        turn_timeout_ms: 77,
        read_timeout_ms: 5,
        stall_timeout_ms: 6,
    };
    let launch = AngelRuntimeLaunchConfig::opencode(&config);
    assert_eq!(launch.kind.name(), "opencode");
    assert_eq!(launch.default_permission_mode, "bypassPermissions");
    assert_eq!(launch.turn_timeout_ms, 77);

    let options = launch_runtime(&launch, "/tmp/work", "ASAHI-1").unwrap();
    assert_eq!(options.runtime, "opencode");
    assert_eq!(options.command, "opencode");
    assert_eq!(options.args, vec!["acp"]);
    assert_eq!(options.cwd, "/tmp/work");
    assert_eq!(options.process_label, "luna:opencode:ASAHI-1");
    assert_eq!(options.client_name, "luna");
    assert_eq!(options.client_title, "Luna");
}

#[test]
fn launching_refuses_a_command_that_does_not_parse() {
    let mut runner = codex_runner();
    runner.command = "\"codex".to_string();
    let launch = AngelRuntimeLaunchConfig::codex(&runner);
    let err = launch_runtime(&launch, "/tmp/work", "ASAHI-1").unwrap_err();
    assert!(err.message().contains("unterminated"));
}

#[test]
fn requests_carry_comments_once() {
    let request = start_request("/tmp/work", "never");
    assert_eq!(request.text, "Initialize this Luna workspace. Do not make changes yet.");

    let mut pending = vec![" one ".to_string(), "two".to_string()];
    let request = turn_request("go", &mut pending, "/tmp/work", "never");
    assert_eq!(request.text, "go\n\nNew comments on this issue:\n- one\n- two");
    assert!(pending.is_empty());
    let request = turn_request("go", &mut pending, "/tmp/work", "never");
    assert_eq!(request.text, "go");
    assert_eq!(request.cwd, "/tmp/work");
    assert_eq!(request.permission_mode, "never");
}

// ---------------------------------------------------------------------------
// Events of a turn
// ---------------------------------------------------------------------------

fn context() -> AngelEventContext {
    AngelEventContext {
        issue_id: "issue-1".to_string(),
        issue_identifier: "ASAHI-1".to_string(),
        workspace_path: "/tmp/luna-workspace".to_string(),
    }
}

fn command_action(
    kind: &str,
    phase: &str,
    input_summary: Option<&str>,
    raw_input: Option<&str>,
    has_error: bool,
) -> TurnAction {
    TurnAction {
        turn_id: "turn-action".to_string(),
        kind: kind.to_string(),
        phase: phase.to_string(),
        input_summary: input_summary.map(str::to_string),
        raw_input: raw_input.map(str::to_string),
        has_error,
    }
}

fn delta(text: &str) -> TurnRunEvent {
    TurnRunEvent::Delta { text: text.to_string(), turn_id: Some("turn-1".to_string()) }
}

fn result_event() -> TurnRunEvent {
    TurnRunEvent::Result {
        result: TurnResult {
            remote_thread_id: Some("thread-1".to_string()),
            turn_id: Some("turn-final".to_string()),
            conversation: Some(TurnConversation {
                id: "conversation-1".to_string(),
                remote_id: Some("thread-1".to_string()),
                used_tokens: Some(77),
            }),
        },
    }
}

fn elicitation(id: &str) -> TurnRunEvent {
    TurnRunEvent::Elicitation {
        elicitation: TurnElicitation {
            id: id.to_string(),
            turn_id: Some("turn-approval".to_string()),
            kind: "approval".to_string(),
        },
    }
}

fn session_event<'a>(event: &'a WorkerEvent, expected: &str) -> &'a SessionUpdate {
    match event {
        WorkerEvent::Session(update) => {
            assert_eq!(update.event, expected);
            update
        }
        other => panic!("expected session event, got {other:?}"),
    }
}

fn command_event(event: &WorkerEvent) -> &CommandExecutionEvent {
    match event {
        WorkerEvent::CommandExecuted(command) => command,
        other => panic!("expected command event, got {other:?}"),
    }
}

#[test]
fn codex_worker_projection_emits_delta_command_usage_and_completion_events() {
    let mut state = AngelWorkerEventState::new();

    let (projected, events) = project_turn_event(delta("hello"), 4, &mut state, &context());
    assert!(matches!(projected, ProjectedAngelEvent::Handled));
    assert_eq!(events.len(), 2);
    let started = session_event(&events[0], "turn/started");
    assert_eq!(started.issue_id, "issue-1");
    assert_eq!(started.issue_identifier, "ASAHI-1");
    assert_eq!(started.turn_id.as_deref(), Some("turn-1"));
    assert_eq!(started.turn_count, Some(4));
    let update = session_event(&events[1], "item/agentMessage/delta");
    assert_eq!(update.message.as_deref(), Some("hello"));
    assert_eq!(update.turn_id.as_deref(), Some("turn-1"));

    let (projected, events) = project_turn_event(
        TurnRunEvent::ActionObserved {
            action: command_action(
                "command",
                "completed",
                Some("gh pr create"),
                Some("ignored raw input"),
                false,
            ),
        },
        4,
        &mut state,
        &context(),
    );
    assert!(matches!(projected, ProjectedAngelEvent::Handled));
    assert_eq!(events.len(), 2);
    let action_started = session_event(&events[0], "turn/started");
    assert_eq!(action_started.turn_id.as_deref(), Some("turn-action"));
    let command = command_event(&events[1]);
    assert_eq!(command.issue_id, "issue-1");
    assert_eq!(command.issue_identifier, "ASAHI-1");
    assert_eq!(command.command, "gh pr create");
    assert_eq!(command.cwd.as_deref(), Some("/tmp/luna-workspace"));
    assert_eq!(command.duration_ms, None);
    assert_eq!(command.exit_code, None);

    let (projected, events) = project_turn_event(result_event(), 4, &mut state, &context());
    assert!(matches!(projected, ProjectedAngelEvent::Handled));
    assert_eq!(events.len(), 3);
    let result_started = session_event(&events[0], "turn/started");
    assert_eq!(result_started.thread_id.as_deref(), Some("thread-1"));
    assert_eq!(result_started.session_id.as_deref(), Some("thread-1-turn-final"));
    assert_eq!(result_started.turn_id.as_deref(), Some("turn-final"));
    let usage = session_event(&events[1], "thread/tokenUsage/updated");
    let usage_update = usage.usage.expect("usage update");
    assert_eq!(usage_update.input_tokens, 77);
    assert_eq!(usage_update.output_tokens, 0);
    assert_eq!(usage_update.total_tokens, 77);
    assert_eq!(usage.thread_id.as_deref(), Some("thread-1"));
    assert_eq!(usage.turn_id.as_deref(), Some("turn-final"));
    let completed = session_event(&events[2], "turn/completed");
    assert_eq!(completed.session_id.as_deref(), Some("thread-1-turn-final"));
    assert_eq!(completed.turn_count, Some(4));
}

#[test]
fn codex_worker_projection_skips_noncompleted_or_failed_command_actions() {
    let mut state = AngelWorkerEventState::new();

    let (projected, events) = project_turn_event(
        TurnRunEvent::ActionUpdated {
            action: command_action("command", "completed", Some("gh pr create"), None, true),
        },
        1,
        &mut state,
        &context(),
    );
    assert!(matches!(projected, ProjectedAngelEvent::Handled));
    assert_eq!(events.len(), 1);
    let started = session_event(&events[0], "turn/started");
    assert_eq!(started.turn_id.as_deref(), Some("turn-action"));

    let (projected, events) = project_turn_event(
        TurnRunEvent::ActionUpdated {
            action: command_action("read", "completed", Some("cat README.md"), None, false),
        },
        1,
        &mut state,
        &context(),
    );
    assert!(matches!(projected, ProjectedAngelEvent::Handled));
    assert_eq!(events.len(), 1);
    let started = session_event(&events[0], "turn/started");
    assert_eq!(started.turn_id.as_deref(), Some("turn-action"));
}

#[test]
fn codex_worker_projection_tracks_action_output_and_plan_turn_identity() {
    let mut state = AngelWorkerEventState::new();
    state.thread_id = Some("thread-1".to_string());

    let (projected, events) = project_turn_event(
        TurnRunEvent::ActionOutputDelta { turn_id: "turn-output".to_string() },
        3,
        &mut state,
        &context(),
    );
    assert!(matches!(projected, ProjectedAngelEvent::Handled));
    assert_eq!(events.len(), 1);
    let started = session_event(&events[0], "turn/started");
    assert_eq!(started.thread_id.as_deref(), Some("thread-1"));
    assert_eq!(started.session_id.as_deref(), Some("thread-1-turn-output"));
    assert_eq!(started.turn_id.as_deref(), Some("turn-output"));

    let (projected, events) = project_turn_event(
        TurnRunEvent::PlanUpdated { turn_id: Some("turn-plan".to_string()) },
        3,
        &mut state,
        &context(),
    );
    assert!(matches!(projected, ProjectedAngelEvent::Handled));
    assert_eq!(events.len(), 1);
    let started = session_event(&events[0], "turn/started");
    assert_eq!(started.thread_id.as_deref(), Some("thread-1"));
    assert_eq!(started.session_id.as_deref(), Some("thread-1-turn-plan"));
    assert_eq!(started.turn_id.as_deref(), Some("turn-plan"));

    let (projected, events) = project_turn_event(
        TurnRunEvent::PlanUpdated { turn_id: None },
        3,
        &mut state,
        &context(),
    );
    assert!(matches!(projected, ProjectedAngelEvent::Handled));
    assert!(events.is_empty());
}

#[test]
fn codex_worker_projection_returns_elicitation_resolution_request() {
    let mut state = AngelWorkerEventState::new();
    state.thread_id = Some("thread-1".to_string());

    let (projected, events) =
        project_turn_event(elicitation("approval-1"), 2, &mut state, &context());

    match projected {
        ProjectedAngelEvent::ResolveElicitation(id) => assert_eq!(id, "approval-1"),
        ProjectedAngelEvent::Handled => panic!("expected elicitation resolution request"),
    }
    assert_eq!(events.len(), 1);
    let started = session_event(&events[0], "turn/started");
    assert_eq!(started.thread_id.as_deref(), Some("thread-1"));
    assert_eq!(started.session_id.as_deref(), Some("thread-1-turn-approval"));
    assert_eq!(started.turn_id.as_deref(), Some("turn-approval"));
}

#[test]
fn reports_bear_the_time_at_which_the_event_was_taken_in() {
    let mut state = AngelWorkerEventState::new();
    let now = Timestamp { secs: 5, nanos: 6 };
    let (_, events) = project_turn_event_at(delta("x"), 1, &mut state, &context(), now);
    assert!(events.iter().all(|event| matches!(event, WorkerEvent::Session(u) if u.timestamp == now)));
    let (_, events) = project_turn_event(delta("x"), 1, &mut state, &context());
    match &events[0] {
        WorkerEvent::Session(update) => assert!(update.timestamp.secs > 1_600_000_000),
        other => panic!("expected session event, got {other:?}"),
    }
}

#[test]
fn only_a_result_ends_a_turn() {
    assert!(ends_turn(&result_event()));
    assert!(!ends_turn(&delta("x")));
    assert!(!ends_turn(&elicitation("x")));
}

#[test]
fn codex_session_run_turn_cancels_on_stop_and_timeout() {
    let (result, cancel) = run_turn(TurnWait::StopChanged(Some(StopReason::Stalled)));
    assert!(matches!(result, Ok(TurnExit::Stopped(StopReason::Stalled))));
    assert!(cancel);
    let (result, cancel) = run_turn(TurnWait::StopChanged(None));
    assert!(matches!(result, Ok(TurnExit::Stopped(StopReason::Shutdown))));
    assert!(cancel);
    let (result, cancel) = run_turn(TurnWait::StopClosed);
    assert!(matches!(result, Ok(TurnExit::Stopped(StopReason::Shutdown))));
    assert!(!cancel);
    let (result, cancel) = run_turn(TurnWait::TimeUp);
    assert!(matches!(result, Ok(TurnExit::TimedOut)));
    assert!(cancel);
    let (result, cancel) = run_turn(TurnWait::Answered(Ok(TurnExit::Completed)));
    assert!(matches!(result, Ok(TurnExit::Completed)));
    assert!(!cancel);
    let (result, _) = run_turn(TurnWait::Abandoned);
    assert_eq!(result.unwrap_err().message(), "angel turn response channel closed");
}

#[test]
fn failures_of_the_runtime_are_agent_errors() {
    let err = angel_error("gone");
    assert!(matches!(err, LunaError::Agent(_)));
    assert_eq!(err.message(), "angel-engine client error: gone");
}

// ---------------------------------------------------------------------------
// The worker
// ---------------------------------------------------------------------------

fn now() -> Timestamp {
    Timestamp { secs: 1_700_000_000, nanos: 0 }
}

#[test]
fn worker_answers_questions_before_it_goes_on() {
    let (mut worker, action) = AngelWorker::begin(context(), "never".to_string());
    assert!(matches!(action, WorkerAction::Receive));

    let (action, _) = worker.step(
        WorkerInput::Command(AngelCommand::SendComment { body: "look here".to_string() }),
        now(),
    );
    assert!(matches!(action, WorkerAction::Respond(Answer::CommentTaken)));
    let (action, _) = worker.step(WorkerInput::Done, now());
    assert!(matches!(action, WorkerAction::Receive));

    let (action, _) = worker.step(
        WorkerInput::Command(AngelCommand::RunTurn { prompt: "go".to_string(), turn_number: 2 }),
        now(),
    );
    match action {
        WorkerAction::StartTurn(request) => {
            assert_eq!(request.text, "go\n\nNew comments on this issue:\n- look here");
            assert_eq!(request.cwd, "/tmp/luna-workspace");
            assert_eq!(request.permission_mode, "never");
        }
        other => panic!("expected a turn, got {other:?}"),
    }

    let (action, events) = worker.step(
        WorkerInput::Events(vec![delta("a"), elicitation("q1"), delta("b")]),
        now(),
    );
    assert!(matches!(action, WorkerAction::AllowForSession(id) if id == "q1"));
    assert_eq!(events.len(), 3);

    let (action, events) = worker.step(WorkerInput::Events(vec![elicitation("q2")]), now());
    assert!(matches!(action, WorkerAction::AllowForSession(id) if id == "q2"));
    assert_eq!(events.len(), 1);

    let (action, events) = worker.step(WorkerInput::Events(Vec::new()), now());
    assert!(matches!(action, WorkerAction::Poll(250)));
    assert_eq!(events.len(), 2);
    assert_eq!(session_event(&events[1], "item/agentMessage/delta").message.as_deref(), Some("b"));

    let (action, events) = worker.step(WorkerInput::Polled(None), now());
    assert!(matches!(action, WorkerAction::Poll(250)));
    assert!(events.is_empty());

    let (action, events) = worker.step(WorkerInput::Polled(Some(result_event())), now());
    assert!(matches!(action, WorkerAction::Respond(Answer::Turn(Ok(TurnExit::Completed)))));
    assert_eq!(session_event(&events[2], "turn/completed").turn_count, Some(2));

    let (action, _) = worker.step(WorkerInput::Done, now());
    assert!(matches!(action, WorkerAction::Receive));
    let (action, _) = worker.step(WorkerInput::Command(AngelCommand::Shutdown), now());
    assert!(matches!(action, WorkerAction::CloseSession));
    let (action, _) = worker.step(WorkerInput::Done, now());
    assert!(matches!(action, WorkerAction::Finish));
}

#[test]
fn worker_goes_on_after_a_result_that_was_not_polled() {
    let (mut worker, _) = AngelWorker::begin(context(), "never".to_string());
    let (action, _) = worker.step(WorkerInput::Command(AngelCommand::Start), now());
    assert!(matches!(action, WorkerAction::StartTurn(_)));
    let (action, _) = worker.step(WorkerInput::Events(vec![result_event()]), now());
    assert!(matches!(action, WorkerAction::Poll(250)));
    let (action, _) = worker.step(WorkerInput::Failed("lost".to_string()), now());
    match action {
        WorkerAction::Respond(Answer::Started(Err(err))) => {
            assert_eq!(err.message(), "angel-engine client error: lost");
        }
        other => panic!("expected an answer, got {other:?}"),
    }
}

#[test]
fn worker_cancels_and_closes() {
    let (mut worker, _) = AngelWorker::begin(context(), "never".to_string());
    let (action, _) = worker.step(WorkerInput::Command(AngelCommand::Cancel), now());
    assert!(matches!(action, WorkerAction::CancelTurn));
    let (action, _) = worker.step(WorkerInput::Done, now());
    assert!(matches!(action, WorkerAction::Receive));
    let (action, _) = worker.step(WorkerInput::CommandsClosed, now());
    assert!(matches!(action, WorkerAction::CloseSession));
}

#[test]
fn codex_session_methods_report_closed_worker_channel() {
    assert_eq!(channel_closed(None).message(), "angel worker channel closed");
    assert_eq!(
        channel_closed(Some(SessionCall::Start)).message(),
        "angel start response channel closed"
    );
    assert_eq!(
        channel_closed(Some(SessionCall::Turn)).message(),
        "angel turn response channel closed"
    );
    assert_eq!(
        channel_closed(Some(SessionCall::Comment)).message(),
        "angel comment response channel closed"
    );
}

#[test]
fn a_started_session_is_reported() {
    let event = session_started(&AngelWorkerEventState::new(), &context(), now());
    let update = session_event(&event, "session_started");
    assert_eq!(update.turn_count, Some(0));
    assert_eq!(update.session_id, None);
    let mut session = AngelWorkerEventState::new();
    session.session_id = Some("session".to_string());
    session.thread_id = Some("thread".to_string());
    session.turn_id = Some("turn".to_string());
    let event = session_started(&session, &context(), now());
    let update = session_event(&event, "session_started");
    assert_eq!(update.session_id.as_deref(), Some("session"));
    assert_eq!(update.thread_id.as_deref(), Some("thread"));
    assert_eq!(update.turn_id.as_deref(), Some("turn"));
    assert_eq!(update.turn_count, Some(0));
    assert_eq!(update.issue_id, "issue-1");
}

#[test]
fn every_runner_has_its_session() {
    match build_agent_session(&RunnerConfig::Codex(codex_runner())) {
        SessionPlan::Angel(launch) => assert_eq!(launch.kind.name(), "codex"),
        other => panic!("expected a session, got {other:?}"),
    }
    let runner = AcpRunner {
        command: "kimi acp".to_string(),
        turn_timeout_ms: 1,
        read_timeout_ms: 2,
        stall_timeout_ms: 3,
    };
    match build_agent_session(&RunnerConfig::Acp(runner)) {
        SessionPlan::Acp(runner) => assert_eq!(runner.command, "kimi acp"),
        other => panic!("expected a session, got {other:?}"),
    }
}

// ---------------------------------------------------------------------------
// Attempts
// ---------------------------------------------------------------------------

fn test_issue(state: &str) -> Issue {
    Issue {
        id: "1".to_string(),
        identifier: "ASAHI-1".to_string(),
        title: "Title".to_string(),
        description: None,
        priority: None,
        state: state.to_string(),
        branch_name: None,
        url: None,
        labels: Vec::new(),
        blocked_by: Vec::new(),
        created_at: None,
        updated_at: None,
        project: None,
        source_data: None,
    }
}

fn comment(id: &str, body: &str) -> Comment {
    Comment {
        id: id.to_string(),
        issue_id: "1".to_string(),
        body: body.to_string(),
        created_at: now(),
    }
}

fn attempt(max_turns: u32) -> (Attempt, Action) {
    Attempt::begin(
        test_issue("Todo"),
        vec!["Todo".to_string(), "In Progress".to_string()],
        max_turns,
    )
}

/// Drives an attempt to where its session has started.
fn started(max_turns: u32) -> Attempt {
    let (mut attempt, action) = attempt(max_turns);
    assert!(matches!(action, Action::ConnectTracker));
    match attempt.step(Event::Done) {
        Action::RecordActivity { kind, title, body } => {
            assert_eq!(kind, "agent_started");
            assert_eq!(title, "Agent started on ASAHI-1");
            assert_eq!(body, "Working on: Title");
        }
        other => panic!("expected an activity, got {other:?}"),
    }
    assert!(matches!(attempt.step(Event::Done), Action::PrepareWorkspace(id) if id == "ASAHI-1"));
    assert!(matches!(attempt.step(Event::Done), Action::RunBeforeHook));
    assert!(matches!(attempt.step(Event::Done), Action::CheckStop));
    assert!(matches!(attempt.step(Event::Stop(None)), Action::RenderPrompt));
    assert!(matches!(
        attempt.step(Event::Prompt("Issue ASAHI-1".to_string())),
        Action::BuildSession
    ));
    assert!(matches!(attempt.step(Event::Done), Action::StartSession));
    attempt
}

#[test]
fn codex_agent_attempt_runs_successful_multi_turn_with_comments_and_refresh() {
    let mut attempt = started(2);
    assert!(matches!(attempt.step(Event::Done), Action::DeliverComments));
    assert!(matches!(attempt.step(Event::Done), Action::FetchComments));
    match attempt.step(Event::Comments(vec![comment("c1", "initial tracker comment")])) {
        Action::RunFirstTurn(prompt) => assert_eq!(prompt, "Issue ASAHI-1"),
        other => panic!("expected the first turn, got {other:?}"),
    }
    assert!(matches!(
        attempt.step(Event::Turn(TurnExit::Completed)),
        Action::RefreshIssue(id) if id == "1"
    ));
    assert!(matches!(
        attempt.step(Event::Issues(vec![test_issue("In Progress")])),
        Action::DeliverComments
    ));
    assert!(matches!(attempt.step(Event::Done), Action::FetchComments));
    match attempt.step(Event::Comments(vec![
        comment("c1", "initial tracker comment"),
        comment("c2", "fresh tracker comment"),
    ])) {
        Action::RunNextTurn { turn_number, max_turns, comments } => {
            assert_eq!(turn_number, 2);
            assert_eq!(max_turns, 2);
            assert_eq!(comments.len(), 1);
            assert_eq!(comments[0].body, "fresh tracker comment");
        }
        other => panic!("expected the next turn, got {other:?}"),
    }
    assert!(matches!(
        attempt.step(Event::Turn(TurnExit::Completed)),
        Action::RefreshIssue(_)
    ));
    assert!(matches!(
        attempt.step(Event::Issues(vec![test_issue("In Progress")])),
        Action::ShutDownSession
    ));
    assert!(matches!(attempt.step(Event::Done), Action::RunAfterHook));
    assert!(matches!(
        attempt.step(Event::Done),
        Action::Finish(Ok(WorkerOutcome::Normal))
    ));
}

#[test]
fn codex_agent_attempt_stops_after_turn_when_tracker_state_is_no_longer_active() {
    let mut attempt = started(5);
    attempt.step(Event::Done);
    attempt.step(Event::Done);
    attempt.step(Event::Comments(Vec::new()));
    attempt.step(Event::Turn(TurnExit::Completed));
    assert!(matches!(
        attempt.step(Event::Issues(vec![test_issue("Done")])),
        Action::ShutDownSession
    ));
    attempt.step(Event::Done);
    assert!(matches!(
        attempt.step(Event::Done),
        Action::Finish(Ok(WorkerOutcome::Normal))
    ));
}

#[test]
fn codex_agent_attempt_maps_session_turn_exits_and_shuts_down() {
    for (exit, name) in [
        (TurnExit::Failed("agent rejected task".to_string()), "failed"),
        (TurnExit::TimedOut, "timeout"),
        (TurnExit::Stopped(StopReason::Stalled), "stalled"),
    ] {
        let mut attempt = started(2);
        attempt.step(Event::Done);
        attempt.step(Event::Done);
        attempt.step(Event::Comments(Vec::new()));
        assert!(matches!(attempt.step(Event::Turn(exit)), Action::ShutDownSession), "{name}");
        assert!(matches!(attempt.step(Event::Done), Action::RunAfterHook), "{name}");
        match (name, attempt.step(Event::Done)) {
            ("failed", Action::Finish(Ok(WorkerOutcome::Failed(reason)))) => {
                assert_eq!(reason, "agent rejected task");
            }
            ("timeout", Action::Finish(Ok(WorkerOutcome::TimedOut))) => {}
            ("stalled", Action::Finish(Ok(WorkerOutcome::Stalled))) => {}
            (_, other) => panic!("{name}: unexpected {other:?}"),
        }
    }
}

#[test]
fn codex_agent_attempt_shuts_down_and_runs_after_run_on_session_errors() {
    let mut attempt = started(2);
    let refused = LunaError::Agent("session refused start".to_string());
    assert!(matches!(attempt.step(Event::Failed(refused)), Action::ShutDownSession));
    assert!(matches!(attempt.step(Event::Done), Action::RunAfterHook));
    match attempt.step(Event::Done) {
        Action::Finish(Err(err)) => assert_eq!(err.message(), "session refused start"),
        other => panic!("expected an error, got {other:?}"),
    }

    let mut attempt = started(2);
    attempt.step(Event::Done);
    attempt.step(Event::Done);
    attempt.step(Event::Comments(Vec::new()));
    let closed = LunaError::Agent("turn channel closed".to_string());
    assert!(matches!(attempt.step(Event::Failed(closed)), Action::ShutDownSession));
    assert!(matches!(attempt.step(Event::Done), Action::RunAfterHook));
    match attempt.step(Event::Done) {
        Action::Finish(Err(err)) => assert_eq!(err.message(), "turn channel closed"),
        other => panic!("expected an error, got {other:?}"),
    }
}

#[test]
fn codex_agent_attempt_continues_when_agent_started_activity_fails() {
    let (mut attempt, _) = attempt(1);
    attempt.step(Event::Done);
    let failed = LunaError::Tracker("no".to_string());
    assert!(matches!(attempt.step(Event::Failed(failed)), Action::PrepareWorkspace(_)));
}

#[test]
fn codex_agent_attempt_stop_before_launch_reports_reconciliation_cancel() {
    let (mut attempt, _) = attempt(1);
    for _ in 0..4 {
        attempt.step(Event::Done);
    }
    assert!(matches!(
        attempt.step(Event::Stop(Some(StopReason::Terminal))),
        Action::RunAfterHook
    ));
    assert!(matches!(
        attempt.step(Event::Done),
        Action::Finish(Ok(WorkerOutcome::CanceledByReconciliation))
    ));
}

#[test]
fn codex_agent_attempt_stop_before_launch_reports_stalled() {
    let (mut attempt, _) = attempt(1);
    for _ in 0..4 {
        attempt.step(Event::Done);
    }
    attempt.step(Event::Stop(Some(StopReason::Stalled)));
    assert!(matches!(
        attempt.step(Event::Done),
        Action::Finish(Ok(WorkerOutcome::Stalled))
    ));
}

#[test]
fn attempt_fails_when_its_issue_is_gone() {
    let mut attempt = started(3);
    attempt.step(Event::Done);
    attempt.step(Event::Done);
    attempt.step(Event::Comments(Vec::new()));
    attempt.step(Event::Turn(TurnExit::Completed));
    assert!(matches!(attempt.step(Event::Issues(Vec::new())), Action::ShutDownSession));
    attempt.step(Event::Done);
    match attempt.step(Event::Done) {
        Action::Finish(Err(LunaError::Tracker(message))) => {
            assert_eq!(message, "issue state refresh error: issue missing after turn");
        }
        other => panic!("expected an error, got {other:?}"),
    }
}

#[test]
fn attempt_ends_without_a_hook_when_the_workspace_fails() {
    let (mut attempt, _) = attempt(1);
    attempt.step(Event::Done);
    attempt.step(Event::Done);
    match attempt.step(Event::Failed(LunaError::Workspace("no".to_string()))) {
        Action::Finish(Err(err)) => assert_eq!(err.message(), "no"),
        other => panic!("expected the end, got {other:?}"),
    }
}

#[test]
fn exit_reports_say_why() {
    assert!(matches!(map_stop_reason(None), WorkerOutcome::CanceledByReconciliation));
    assert!(matches!(map_stop_reason(Some(StopReason::Stalled)), WorkerOutcome::Stalled));
    assert!(matches!(
        map_stop_reason(Some(StopReason::Shutdown)),
        WorkerOutcome::CanceledByReconciliation
    ));
    let report = |result| exit_report("1".to_string(), "ASAHI-1".to_string(), result);
    assert_eq!(report(Ok(WorkerOutcome::Normal)).error, None);
    assert_eq!(report(Ok(WorkerOutcome::TimedOut)).error.as_deref(), Some("turn_timeout"));
    assert_eq!(report(Ok(WorkerOutcome::Stalled)).error.as_deref(), Some("stalled"));
    assert_eq!(
        report(Ok(WorkerOutcome::CanceledByReconciliation)).error.as_deref(),
        Some("canceled_by_reconciliation")
    );
    let failed = report(Err(LunaError::Agent("boom".to_string())));
    assert_eq!(failed.error.as_deref(), Some("boom"));
    assert!(matches!(failed.outcome, WorkerOutcome::Failed(reason) if reason == "boom"));
}
