//! The runtime that drives Codex and Opencode agents.
use vstd::prelude::*;

use crate::agent::{
    CommandExecutionEvent, SessionUpdate, StopReason, TurnExit, UsageUpdate, WorkerEvent,
};
use crate::agent::command_line::{command_words, open_quote_error, split_command};
use crate::config::{CodexRunner, OpencodeRunner};
use crate::error::{ErrorView, LunaError};
use crate::text::{
    cat, cat3, chars_of, clone_opt, clone_texts, join, joined, opt_text, same_text, text_of, texts,
    trim, trimmed,
};
use crate::time::{utc_now, Timestamp};

verus! {

/// Which agent the runtime drives.
#[derive(Clone, Copy, Debug, PartialEq, Eq, Structural)]
pub enum AngelRuntimeKind {
    Codex,
    Opencode,
}

impl AngelRuntimeKind {
    /// The name of the agent.
    pub open spec fn spec_name(self) -> Seq<char> {
        match self {
            AngelRuntimeKind::Codex => "codex"@,
            AngelRuntimeKind::Opencode => "opencode"@,
        }
    }

    /// The name of the agent.
    pub fn name(self) -> (r: &'static str)
        ensures
            r@ == self.spec_name(),
    {
        match self {
            AngelRuntimeKind::Codex => "codex",
            AngelRuntimeKind::Opencode => "opencode",
        }
    }
}

/// How an agent is launched.
#[derive(Clone, Debug)]
pub struct AngelRuntimeLaunchConfig {
    pub kind: AngelRuntimeKind,
    pub command: String,
    pub args: Vec<String>,
    pub turn_timeout_ms: u64,
    pub default_reasoning_effort: Option<String>,
    pub default_permission_mode: String,
}

impl AngelRuntimeLaunchConfig {
    /// How Codex is launched: it never asks for permission.
    pub fn codex(config: &CodexRunner) -> (r: AngelRuntimeLaunchConfig)
        ensures
            r.kind == AngelRuntimeKind::Codex,
            r.command@ == config.command@,
            r.args@ == config.args@,
            r.turn_timeout_ms == config.turn_timeout_ms,
            r.default_reasoning_effort is None,
            r.default_permission_mode@ == "never"@,
    {
        AngelRuntimeLaunchConfig {
            kind: AngelRuntimeKind::Codex,
            command: config.command.clone(),
            args: clone_texts(config.args.as_slice()),
            turn_timeout_ms: config.turn_timeout_ms,
            default_reasoning_effort: None,
            default_permission_mode: "never".to_owned(),
        }
    }

    /// How Opencode is launched: it bypasses permissions.
    pub fn opencode(config: &OpencodeRunner) -> (r: AngelRuntimeLaunchConfig)
        ensures
            r.kind == AngelRuntimeKind::Opencode,
            r.command@ == config.command@,
            r.args@ == config.args@,
            r.turn_timeout_ms == config.turn_timeout_ms,
            r.default_reasoning_effort is None,
            r.default_permission_mode@ == "bypassPermissions"@,
    {
        AngelRuntimeLaunchConfig {
            kind: AngelRuntimeKind::Opencode,
            command: config.command.clone(),
            args: clone_texts(config.args.as_slice()),
            turn_timeout_ms: config.turn_timeout_ms,
            default_reasoning_effort: None,
            default_permission_mode: "bypassPermissions".to_owned(),
        }
    }
}

/// What the runtime client is told when an agent is launched.
#[derive(Clone, Debug)]
pub struct RuntimeOptions {
    pub runtime: String,
    pub command: String,
    pub args: Vec<String>,
    pub cwd: String,
    pub process_label: String,
    pub client_name: String,
    pub client_title: String,
    pub default_reasoning_effort: Option<String>,
}

/// What the runtime client is told when an agent is launched for an issue in a
/// workspace. A command that cannot be split is refused.
pub fn launch_runtime(
    config: &AngelRuntimeLaunchConfig,
    workspace_path: &str,
    issue_identifier: &str,
) -> (r: Result<RuntimeOptions, LunaError>)
    ensures
        match command_words(config.command@) {
            Err(q) => r is Err && r->Err_0@ == open_quote_error(q),
            Ok(words) => if words.len() == 0 {
                r is Err && r->Err_0@ == ErrorView::InvalidConfig(
                    "runner command must be non-empty"@,
                )
            } else {
                let o = r->Ok_0;
                &&& r is Ok
                &&& o.runtime@ == config.kind.spec_name()
                &&& o.command@ == words[0]
                &&& texts(o.args@) == words.skip(1) + texts(config.args@)
                &&& o.cwd@ == workspace_path@
                &&& o.process_label@ == "luna:"@ + config.kind.spec_name() + ":"@
                    + issue_identifier@
                &&& o.client_name@ == "luna"@
                &&& o.client_title@ == "Luna"@
                &&& opt_text(o.default_reasoning_effort) == opt_text(
                    config.default_reasoning_effort,
                )
            },
        },
{
    let (command, args) = match split_command(config.command.as_str(), config.args.as_slice()) {
        Ok(found) => found,
        Err(e) => return Err(e),
    };
    let mut process_label = "luna:".to_owned();
    process_label.append(config.kind.name());
    process_label.append(":");
    process_label.append(issue_identifier);
    Ok(
        RuntimeOptions {
            runtime: config.kind.name().to_owned(),
            command,
            args,
            cwd: workspace_path.to_owned(),
            process_label,
            client_name: "luna".to_owned(),
            client_title: "Luna".to_owned(),
            default_reasoning_effort: clone_opt(&config.default_reasoning_effort),
        },
    )
}

// ---------------------------------------------------------------------------
// Prompts
// ---------------------------------------------------------------------------

/// The text of a request to the agent, with where and how it is carried out.
#[derive(Clone, Debug)]
pub struct TextRequest {
    pub text: String,
    pub cwd: String,
    pub permission_mode: String,
}

/// The lines that list comments.
pub open spec fn comment_lines(comments: Seq<Seq<char>>) -> Seq<Seq<char>> {
    Seq::new(comments.len(), |i: int| "- "@ + trimmed(comments[i]))
}

/// A prompt, with the comments that have arrived since the last turn behind it.
pub open spec fn prompt_with_comments(prompt: Seq<char>, comments: Seq<Seq<char>>) -> Seq<char> {
    if comments.len() == 0 {
        prompt
    } else {
        prompt + "\n\nNew comments on this issue:\n"@ + joined(comment_lines(comments), "\n"@)
    }
}

/// The first request to an agent: it gets to know its workspace.
pub fn start_request(workspace_path: &str, permission_mode: &str) -> (r: TextRequest)
    ensures
        r.text@ == "Initialize this Luna workspace. Do not make changes yet."@,
        r.cwd@ == workspace_path@,
        r.permission_mode@ == permission_mode@,
{
    TextRequest {
        text: "Initialize this Luna workspace. Do not make changes yet.".to_owned(),
        cwd: workspace_path.to_owned(),
        permission_mode: permission_mode.to_owned(),
    }
}

/// The request for a turn. The comments that wait are put into it, and wait no more.
pub fn turn_request(
    prompt: &str,
    pending_comments: &mut Vec<String>,
    workspace_path: &str,
    permission_mode: &str,
) -> (r: TextRequest)
    ensures
        r.text@ == prompt_with_comments(prompt@, texts(old(pending_comments)@)),
        r.cwd@ == workspace_path@,
        r.permission_mode@ == permission_mode@,
        final(pending_comments)@.len() == 0,
{
    let ghost all = texts(pending_comments@);
    let mut text = prompt.to_owned();
    if pending_comments.len() > 0 {
        let mut lines: Vec<String> = Vec::new();
        let mut i: usize = 0;
        while i < pending_comments.len()
            invariant
                i <= pending_comments@.len(),
                all == texts(pending_comments@),
                lines@.len() == i,
                forall|k: int| 0 <= k < i ==> #[trigger] lines@[k]@ == comment_lines(all)[k],
            decreases pending_comments@.len() - i,
        {
            let bare = trim(pending_comments[i].as_str());
            lines.push(cat("- ", bare.as_str()));
            i = i + 1;
        }
        assert(texts(lines@) =~= comment_lines(all));
        let list = join(lines.as_slice(), "\n");
        text.append("\n\nNew comments on this issue:\n");
        text.append(list.as_str());
        pending_comments.clear();
    }
    TextRequest {
        text,
        cwd: workspace_path.to_owned(),
        permission_mode: permission_mode.to_owned(),
    }
}

/// How much of a message is kept.
pub const MESSAGE_LIMIT: usize = 512;

/// A message of at most so many characters; a longer one is cut, and three dots show
/// that.
pub open spec fn shortened(s: Seq<char>) -> Seq<char> {
    if s.len() <= MESSAGE_LIMIT {
        s
    } else {
        s.take(MESSAGE_LIMIT as int) + "..."@
    }
}

/// Cuts a message that is too long.
pub fn truncate_message(message: String) -> (r: String)
    ensures
        r@ == shortened(message@),
{
    let v = chars_of(message.as_str());
    if v.len() <= MESSAGE_LIMIT {
        return message;
    }
    let mut out = text_of(&v, 0, MESSAGE_LIMIT);
    assert(out@ =~= message@.take(MESSAGE_LIMIT as int));
    out.append("...");
    out
}

// ---------------------------------------------------------------------------
// Events of a turn
// ---------------------------------------------------------------------------

/// Something that an agent does.
#[derive(Clone, Debug)]
pub struct TurnAction {
    pub turn_id: String,
    pub kind: String,
    pub phase: String,
    pub input_summary: Option<String>,
    pub raw_input: Option<String>,
    pub has_error: bool,
}

/// A question of an agent.
#[derive(Clone, Debug)]
pub struct TurnElicitation {
    pub id: String,
    pub turn_id: Option<String>,
    pub kind: String,
}

/// A conversation with an agent.
#[derive(Clone, Debug)]
pub struct TurnConversation {
    pub id: String,
    pub remote_id: Option<String>,
    pub used_tokens: Option<u64>,
}

/// The result of a turn.
#[derive(Clone, Debug)]
pub struct TurnResult {
    pub remote_thread_id: Option<String>,
    pub turn_id: Option<String>,
    pub conversation: Option<TurnConversation>,
}

/// What the runtime reports while a turn runs.
#[derive(Clone, Debug)]
pub enum TurnRunEvent {
    Delta { text: String, turn_id: Option<String> },
    ActionObserved { action: TurnAction },
    ActionUpdated { action: TurnAction },
    ActionOutputDelta { turn_id: String },
    Elicitation { elicitation: TurnElicitation },
    PlanUpdated { turn_id: Option<String> },
    Result { result: TurnResult },
}

/// What is known of an agent's session.
#[derive(Clone, Debug)]
pub struct AngelWorkerEventState {
    pub thread_id: Option<String>,
    pub turn_id: Option<String>,
    pub session_id: Option<String>,
}

/// The issue that an agent works on, and where.
#[derive(Clone, Debug)]
pub struct AngelEventContext {
    pub issue_id: String,
    pub issue_identifier: String,
    pub workspace_path: String,
}

/// What is left to do after an event: nothing, or a question is to be answered.
#[derive(Clone, Debug)]
pub enum ProjectedAngelEvent {
    Handled,
    ResolveElicitation(String),
}

/// The model of what is known of a session.
pub ghost struct SessionView {
    pub thread_id: Option<Seq<char>>,
    pub turn_id: Option<Seq<char>>,
    pub session_id: Option<Seq<char>>,
}

/// The model of a report: news of the session, or a command that was run.
pub ghost enum Report {
    Session {
        event: Seq<char>,
        session: SessionView,
        message: Option<Seq<char>>,
        usage: Option<UsageUpdate>,
        turn_count: u32,
    },
    Command(Seq<char>),
}

impl AngelWorkerEventState {
    /// The model of what is known of the session.
    pub open spec fn view(&self) -> SessionView {
        SessionView {
            thread_id: opt_text(self.thread_id),
            turn_id: opt_text(self.turn_id),
            session_id: opt_text(self.session_id),
        }
    }

    /// Nothing is known yet.
    pub fn new() -> (r: AngelWorkerEventState)
        ensures
            r@ == (SessionView { thread_id: None, turn_id: None, session_id: None }),
    {
        AngelWorkerEventState { thread_id: None, turn_id: None, session_id: None }
    }
}

/// The event that carries a report out of the worker.
pub open spec fn carries(
    event: WorkerEvent,
    report: Report,
    context: AngelEventContext,
    now: Timestamp,
) -> bool {
    match report {
        Report::Session { event: name, session, message, usage, turn_count } => match event {
            WorkerEvent::Session(u) => {
                &&& u.issue_id@ == context.issue_id@
                &&& u.issue_identifier@ == context.issue_identifier@
                &&& u.event@ == name
                &&& u.timestamp == now
                &&& opt_text(u.session_id) == session.session_id
                &&& opt_text(u.thread_id) == session.thread_id
                &&& opt_text(u.turn_id) == session.turn_id
                &&& u.agent_pid is None
                &&& opt_text(u.message) == message
                &&& u.usage == usage
                &&& u.rate_limits is None
                &&& u.turn_count == Some(turn_count)
            },
            _ => false,
        },
        Report::Command(command) => match event {
            WorkerEvent::CommandExecuted(c) => {
                &&& c.issue_id@ == context.issue_id@
                &&& c.issue_identifier@ == context.issue_identifier@
                &&& c.command@ == command
                &&& opt_text(c.cwd) == Some(context.workspace_path@)
                &&& c.duration_ms is None
                &&& c.exit_code is None
            },
            _ => false,
        },
    }
}

/// The events that carry reports out of the worker, in their order.
pub open spec fn carry_all(
    events: Seq<WorkerEvent>,
    reports: Seq<Report>,
    context: AngelEventContext,
    now: Timestamp,
) -> bool {
    events.len() == reports.len() && forall|i: int|
        0 <= i < events.len() ==> carries(#[trigger] events[i], reports[i], context, now)
}

/// News of the session without message and usage.
pub open spec fn plain_report(name: Seq<char>, session: SessionView, turn: u32) -> Report {
    Report::Session { event: name, session, message: None, usage: None, turn_count: turn }
}

/// The session once a turn is known: nothing changes where the id of the turn is
/// empty; else the session is named by the thread, if one is known, and the turn.
pub open spec fn at_turn(s: SessionView, turn_id: Seq<char>) -> SessionView {
    if turn_id.len() == 0 {
        s
    } else {
        SessionView {
            turn_id: Some(turn_id),
            session_id: match s.thread_id {
                Some(thread_id) => Some(thread_id + "-"@ + turn_id),
                None => s.session_id,
            },
            ..s
        }
    }
}

/// The report that a turn is known.
pub open spec fn turn_reports(s: SessionView, turn_id: Seq<char>, turn: u32) -> Seq<Report> {
    if turn_id.len() == 0 {
        Seq::empty()
    } else {
        seq![plain_report("turn/started"@, at_turn(s, turn_id), turn)]
    }
}

/// The same for a turn that may be unnamed.
pub open spec fn at_opt_turn(s: SessionView, turn_id: Option<String>) -> SessionView {
    match turn_id {
        Some(id) => at_turn(s, id@),
        None => s,
    }
}

/// The same for a turn that may be unnamed.
pub open spec fn opt_turn_reports(s: SessionView, turn_id: Option<String>, turn: u32) -> Seq<Report> {
    match turn_id {
        Some(id) => turn_reports(s, id@, turn),
        None => Seq::empty(),
    }
}

/// The command that an action ran: one that is complete and without error has run
/// what its summary says, or else its input.
pub open spec fn command_of(action: TurnAction) -> Option<Seq<char>> {
    if action.kind@ == "command"@ && action.phase@ == "completed"@ && !action.has_error {
        match action.input_summary {
            Some(summary) => Some(summary@),
            None => opt_text(action.raw_input),
        }
    } else {
        None
    }
}

/// The thread that a result names.
pub open spec fn at_thread(s: SessionView, result: TurnResult) -> SessionView {
    match result.remote_thread_id {
        Some(id) => SessionView { thread_id: Some(id@), ..s },
        None => s,
    }
}

/// The thread that a conversation names.
pub open spec fn at_conversation(s: SessionView, c: Option<TurnConversation>) -> SessionView {
    match c {
        Some(c) => SessionView {
            thread_id: match c.remote_id {
                Some(id) => Some(id@),
                None => Some(c.id@),
            },
            ..s
        },
        None => s,
    }
}

/// The report of the tokens that a conversation has used.
pub open spec fn usage_reports(
    s: SessionView,
    conversation: Option<TurnConversation>,
    turn: u32,
) -> Seq<Report> {
    match conversation {
        Some(c) => match c.used_tokens {
            Some(used) => seq![
                Report::Session {
                    event: "thread/tokenUsage/updated"@,
                    session: s,
                    message: None,
                    usage: Some(
                        UsageUpdate { input_tokens: used, output_tokens: 0, total_tokens: used },
                    ),
                    turn_count: turn,
                },
            ],
            None => Seq::empty(),
        },
        None => Seq::empty(),
    }
}

/// What is known of the session after an event.
pub open spec fn session_after(s: SessionView, event: TurnRunEvent) -> SessionView {
    match event {
        TurnRunEvent::Delta { text, turn_id } => at_opt_turn(s, turn_id),
        TurnRunEvent::ActionObserved { action } => at_turn(s, action.turn_id@),
        TurnRunEvent::ActionUpdated { action } => at_turn(s, action.turn_id@),
        TurnRunEvent::ActionOutputDelta { turn_id } => at_turn(s, turn_id@),
        TurnRunEvent::Elicitation { elicitation } => at_opt_turn(s, elicitation.turn_id),
        TurnRunEvent::PlanUpdated { turn_id } => at_opt_turn(s, turn_id),
        TurnRunEvent::Result { result } => at_conversation(
            at_opt_turn(at_thread(s, result), result.turn_id),
            result.conversation,
        ),
    }
}

/// What is reported of an event.
pub open spec fn reports_of(s: SessionView, event: TurnRunEvent, turn: u32) -> Seq<Report> {
    let after = session_after(s, event);
    match event {
        TurnRunEvent::Delta { text, turn_id } => opt_turn_reports(s, turn_id, turn).push(
            Report::Session {
                event: "item/agentMessage/delta"@,
                session: after,
                message: Some(shortened(text@)),
                usage: None,
                turn_count: turn,
            },
        ),
        TurnRunEvent::ActionObserved { action } => action_reports(s, action, turn),
        TurnRunEvent::ActionUpdated { action } => action_reports(s, action, turn),
        TurnRunEvent::ActionOutputDelta { turn_id } => turn_reports(s, turn_id@, turn),
        TurnRunEvent::Elicitation { elicitation } => opt_turn_reports(
            s,
            elicitation.turn_id,
            turn,
        ),
        TurnRunEvent::PlanUpdated { turn_id } => opt_turn_reports(s, turn_id, turn),
        TurnRunEvent::Result { result } => (opt_turn_reports(
            at_thread(s, result),
            result.turn_id,
            turn,
        ) + usage_reports(after, result.conversation, turn)).push(
            plain_report("turn/completed"@, after, turn),
        ),
    }
}

/// What is reported of an action.
pub open spec fn action_reports(s: SessionView, action: TurnAction, turn: u32) -> Seq<Report> {
    match command_of(action) {
        Some(command) => turn_reports(s, action.turn_id@, turn).push(Report::Command(command)),
        None => turn_reports(s, action.turn_id@, turn),
    }
}

fn emit_projected_session_update(
    event: &str,
    message: Option<String>,
    usage: Option<UsageUpdate>,
    turn_number: u32,
    state: &AngelWorkerEventState,
    context: &AngelEventContext,
    now: Timestamp,
) -> (r: WorkerEvent)
    ensures
        carries(
            r,
            Report::Session {
                event: event@,
                session: state@,
                message: opt_text(message),
                usage,
                turn_count: turn_number,
            },
            *context,
            now,
        ),
{
    WorkerEvent::Session(
        SessionUpdate {
            issue_id: context.issue_id.clone(),
            issue_identifier: context.issue_identifier.clone(),
            event: event.to_owned(),
            timestamp: now,
            session_id: clone_opt(&state.session_id),
            thread_id: clone_opt(&state.thread_id),
            turn_id: clone_opt(&state.turn_id),
            agent_pid: None,
            message,
            usage,
            rate_limits: None,
            turn_count: Some(turn_number),
        },
    )
}

fn set_projected_turn_id(
    turn_id: &str,
    turn_number: u32,
    state: &mut AngelWorkerEventState,
    context: &AngelEventContext,
    now: Timestamp,
) -> (r: Vec<WorkerEvent>)
    ensures
        final(state)@ == at_turn(old(state)@, turn_id@),
        carry_all(r@, turn_reports(old(state)@, turn_id@, turn_number), *context, now),
{
    let mut out: Vec<WorkerEvent> = Vec::new();
    if turn_id.is_empty() {
        return out;
    }
    state.turn_id = Some(turn_id.to_owned());
    let session_id = match &state.thread_id {
        Some(thread_id) => Some(cat3(thread_id.as_str(), "-", turn_id)),
        None => None,
    };
    if session_id.is_some() {
        state.session_id = session_id;
    }
    out.push(
        emit_projected_session_update(
            "turn/started",
            None,
            None,
            turn_number,
            state,
            context,
            now,
        ),
    );
    out
}

fn set_opt_turn_id(
    turn_id: &Option<String>,
    turn_number: u32,
    state: &mut AngelWorkerEventState,
    context: &AngelEventContext,
    now: Timestamp,
) -> (r: Vec<WorkerEvent>)
    ensures
        final(state)@ == at_opt_turn(old(state)@, *turn_id),
        carry_all(r@, opt_turn_reports(old(state)@, *turn_id, turn_number), *context, now),
{
    match turn_id {
        Some(id) => set_projected_turn_id(id.as_str(), turn_number, state, context, now),
        None => Vec::new(),
    }
}

fn project_action(
    action: &TurnAction,
    turn_number: u32,
    state: &mut AngelWorkerEventState,
    context: &AngelEventContext,
    now: Timestamp,
) -> (r: Vec<WorkerEvent>)
    ensures
        final(state)@ == at_turn(old(state)@, action.turn_id@),
        carry_all(r@, action_reports(old(state)@, *action, turn_number), *context, now),
{
    let mut out = set_projected_turn_id(
        action.turn_id.as_str(),
        turn_number,
        state,
        context,
        now,
    );
    if same_text(action.kind.as_str(), "command") && same_text(action.phase.as_str(), "completed")
        && !action.has_error {
        let command = match &action.input_summary {
            Some(summary) => Some(summary.clone()),
            None => clone_opt(&action.raw_input),
        };
        if let Some(command) = command {
            out.push(
                WorkerEvent::CommandExecuted(
                    CommandExecutionEvent {
                        issue_id: context.issue_id.clone(),
                        issue_identifier: context.issue_identifier.clone(),
                        command,
                        cwd: Some(context.workspace_path.clone()),
                        duration_ms: None,
                        exit_code: None,
                    },
                ),
            );
        }
    }
    out
}

fn project_result(
    result: &TurnResult,
    turn_number: u32,
    state: &mut AngelWorkerEventState,
    context: &AngelEventContext,
    now: Timestamp,
) -> (r: Vec<WorkerEvent>)
    ensures
        final(state)@ == session_after(old(state)@, TurnRunEvent::Result { result: *result }),
        carry_all(
            r@,
            reports_of(old(state)@, TurnRunEvent::Result { result: *result }, turn_number),
            *context,
            now,
        ),
{
    if let Some(id) = &result.remote_thread_id {
        state.thread_id = Some(id.clone());
    }
    let mut out = set_opt_turn_id(&result.turn_id, turn_number, state, context, now);
    if let Some(conversation) = &result.conversation {
        state.thread_id = match &conversation.remote_id {
            Some(id) => Some(id.clone()),
            None => Some(conversation.id.clone()),
        };
        if let Some(used) = conversation.used_tokens {
            out.push(
                emit_projected_session_update(
                    "thread/tokenUsage/updated",
                    None,
                    Some(UsageUpdate { input_tokens: used, output_tokens: 0, total_tokens: used }),
                    turn_number,
                    state,
                    context,
                    now,
                ),
            );
        }
    }
    out.push(
        emit_projected_session_update(
            "turn/completed",
            None,
            None,
            turn_number,
            state,
            context,
            now,
        ),
    );
    out
}

/// Takes in an event of a turn at the instant `now`: what is known of the session is
/// renewed, the reports are given, and a question is handed on to be answered.
pub fn project_turn_event_at(
    event: TurnRunEvent,
    turn_number: u32,
    state: &mut AngelWorkerEventState,
    context: &AngelEventContext,
    now: Timestamp,
) -> (r: (ProjectedAngelEvent, Vec<WorkerEvent>))
    ensures
        final(state)@ == session_after(old(state)@, event),
        carry_all(r.1@, reports_of(old(state)@, event, turn_number), *context, now),
        match event {
            TurnRunEvent::Elicitation { elicitation } => r.0
                matches ProjectedAngelEvent::ResolveElicitation(id) && id@ == elicitation.id@,
            _ => r.0 is Handled,
        },
{
    match event {
        TurnRunEvent::Delta { text, turn_id } => {
            let mut out = set_opt_turn_id(&turn_id, turn_number, state, context, now);
            out.push(
                emit_projected_session_update(
                    "item/agentMessage/delta",
                    Some(truncate_message(text)),
                    None,
                    turn_number,
                    state,
                    context,
                    now,
                ),
            );
            (ProjectedAngelEvent::Handled, out)
        },
        TurnRunEvent::ActionObserved { action } => (
            ProjectedAngelEvent::Handled,
            project_action(&action, turn_number, state, context, now),
        ),
        TurnRunEvent::ActionUpdated { action } => (
            ProjectedAngelEvent::Handled,
            project_action(&action, turn_number, state, context, now),
        ),
        TurnRunEvent::ActionOutputDelta { turn_id } => (
            ProjectedAngelEvent::Handled,
            set_projected_turn_id(turn_id.as_str(), turn_number, state, context, now),
        ),
        TurnRunEvent::Elicitation { elicitation } => {
            let out = set_opt_turn_id(&elicitation.turn_id, turn_number, state, context, now);
            (ProjectedAngelEvent::ResolveElicitation(elicitation.id), out)
        },
        TurnRunEvent::PlanUpdated { turn_id } => (
            ProjectedAngelEvent::Handled,
            set_opt_turn_id(&turn_id, turn_number, state, context, now),
        ),
        TurnRunEvent::Result { result } => (
            ProjectedAngelEvent::Handled,
            project_result(&result, turn_number, state, context, now),
        ),
    }
}

/// Takes in an event of a turn now.
pub fn project_turn_event(
    event: TurnRunEvent,
    turn_number: u32,
    state: &mut AngelWorkerEventState,
    context: &AngelEventContext,
) -> (r: (ProjectedAngelEvent, Vec<WorkerEvent>))
    ensures
        final(state)@ == session_after(old(state)@, event),
        exists|now: Timestamp| #[trigger]
            carry_all(r.1@, reports_of(old(state)@, event, turn_number), *context, now),
        match event {
            TurnRunEvent::Elicitation { elicitation } => r.0
                matches ProjectedAngelEvent::ResolveElicitation(id) && id@ == elicitation.id@,
            _ => r.0 is Handled,
        },
{
    project_turn_event_at(event, turn_number, state, context, utc_now())
}

/// Whether an event ends the turn.
pub fn ends_turn(event: &TurnRunEvent) -> (r: bool)
    ensures
        r == (*event is Result),
{
    match event {
        TurnRunEvent::Result { result } => true,
        _ => false,
    }
}

// ---------------------------------------------------------------------------
// Waiting for a turn
// ---------------------------------------------------------------------------

/// What came first while a turn was waited for.
#[derive(Debug)]
pub enum TurnWait {
    /// The worker answered.
    Answered(Result<TurnExit, LunaError>),
    /// The worker is gone.
    Abandoned,
    /// The orchestrator changed its mind; the reason may be missing.
    StopChanged(Option<StopReason>),
    /// The orchestrator is gone.
    StopClosed,
    /// The turn took too long.
    TimeUp,
}

/// How a turn ended, and whether the agent is still to be told to cancel it.
pub fn run_turn(wait: TurnWait) -> (r: (Result<TurnExit, LunaError>, bool))
    ensures
        match wait {
            TurnWait::Answered(answer) => r.0 == answer && !r.1,
            TurnWait::Abandoned => r.0 matches Err(e) && e@ == ErrorView::Agent(
                "angel turn response channel closed"@,
            ) && !r.1,
            TurnWait::StopChanged(reason) => r.0 matches Ok(TurnExit::Stopped(why)) && why
                == match reason {
                Some(reason) => reason,
                None => StopReason::Shutdown,
            } && r.1,
            TurnWait::StopClosed => r.0 matches Ok(TurnExit::Stopped(why)) && why
                == StopReason::Shutdown && !r.1,
            TurnWait::TimeUp => r.0 matches Ok(TurnExit::TimedOut) && r.1,
        },
{
    match wait {
        TurnWait::Answered(answer) => (answer, false),
        TurnWait::Abandoned => (
            Err(LunaError::Agent("angel turn response channel closed".to_owned())),
            false,
        ),
        TurnWait::StopChanged(reason) => {
            let reason = match reason {
                Some(reason) => reason,
                None => StopReason::Shutdown,
            };
            (Ok(TurnExit::Stopped(reason)), true)
        },
        TurnWait::StopClosed => (Ok(TurnExit::Stopped(StopReason::Shutdown)), false),
        TurnWait::TimeUp => (Ok(TurnExit::TimedOut), true),
    }
}

/// The error for a failure of the runtime client.
pub fn angel_error(message: &str) -> (r: LunaError)
    ensures
        r@ == ErrorView::Agent("angel-engine client error: "@ + message@),
{
    LunaError::Agent(cat("angel-engine client error: ", message))
}

// ---------------------------------------------------------------------------
// Laws
// ---------------------------------------------------------------------------

/// A message is never reported longer than the limit and its dots, and a message
/// within the limit is reported as it is.
pub proof fn shortened_is_short(s: Seq<char>)
    ensures
        shortened(s).len() <= MESSAGE_LIMIT + 3,
        s.len() <= MESSAGE_LIMIT ==> shortened(s) == s,
        s.take(
            if s.len() <= MESSAGE_LIMIT {
                s.len() as int
            } else {
                MESSAGE_LIMIT as int
            },
        ).is_prefix_of(shortened(s)),
{
    reveal_strlit("...");
    assert(s.take(s.len() as int) =~= s);
}

/// Every event leaves the session named by the thread and the turn, as soon as it
/// names a turn while a thread is known.
pub proof fn session_is_thread_and_turn(s: SessionView, turn_id: Seq<char>)
    requires
        turn_id.len() > 0,
        s.thread_id is Some,
    ensures
        at_turn(s, turn_id).session_id == Some(s.thread_id->Some_0 + "-"@ + turn_id),
        at_turn(s, turn_id).turn_id == Some(turn_id),
        at_turn(s, turn_id).thread_id == s.thread_id,
{
}

/// A result is reported last, as the end of the turn; nothing else is reported so.
pub proof fn result_ends_the_turn(s: SessionView, event: TurnRunEvent, turn: u32)
    ensures
        event is Result ==> reports_of(s, event, turn).len() > 0 && reports_of(
            s,
            event,
            turn,
        ).last() == plain_report("turn/completed"@, session_after(s, event), turn),
        event !is Result ==> forall|i: int|
            0 <= i < reports_of(s, event, turn).len() ==> !((#[trigger] reports_of(
                s,
                event,
                turn,
            )[i]) matches Report::Session { event: name, .. } && name == "turn/completed"@),
{
    reveal_strlit("turn/completed");
    reveal_strlit("turn/started");
    reveal_strlit("item/agentMessage/delta");
    assert("turn/completed"@.len() == 14);
    assert("turn/started"@.len() == 12);
    assert("item/agentMessage/delta"@.len() == 23);
}

} // verus!
