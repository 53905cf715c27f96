//! The worker that speaks with an agent's runtime.
//!
//! The worker takes one command after the other. For a turn it asks the runtime to
//! start, takes in the events that come, answers each question that the agent asks
//! before it goes on, and polls until the result is there.
use vstd::prelude::*;

use crate::agent::angel_runtime::{
    angel_error, carries, carry_all, ends_turn, project_turn_event_at, prompt_with_comments,
    reports_of, session_after, start_request, turn_request, AngelEventContext, AngelRuntimeKind,
    AngelRuntimeLaunchConfig, AngelWorkerEventState, ProjectedAngelEvent, Report, SessionView,
    TextRequest, TurnRunEvent,
};
use crate::agent::{SessionUpdate, TurnExit, WorkerEvent};
use crate::config::{AcpRunner, RunnerConfig};
use crate::error::{ErrorView, LunaError};
use crate::text::{clone_opt, texts};
use crate::time::Timestamp;

verus! {

/// How long the worker waits for an event before it looks again.
pub const EVENT_WAIT_MS: u64 = 250;

/// What the worker is told to do.
#[derive(Debug, Clone)]
pub enum AngelCommand {
    Start,
    RunTurn { prompt: String, turn_number: u32 },
    SendComment { body: String },
    Cancel,
    Shutdown,
}

/// What the worker answers.
#[derive(Debug)]
pub enum Answer {
    Started(Result<(), LunaError>),
    Turn(Result<TurnExit, LunaError>),
    CommentTaken,
}

/// Where the worker stands. `first` says that the turn is the one that starts the
/// session; `ends` that it is over once what is at hand is taken in.
#[derive(Debug)]
pub enum WorkerPhase {
    Idle,
    Starting { first: bool, turn: u32 },
    Resolving { first: bool, turn: u32, ends: bool, rest: Vec<TurnRunEvent> },
    Polling { first: bool, turn: u32 },
    Answering,
    Cancelling,
    Closing,
    Closed,
}

/// What is to be done for the worker.
#[derive(Debug)]
pub enum WorkerAction {
    Receive,
    StartTurn(TextRequest),
    AllowForSession(String),
    Poll(u64),
    Respond(Answer),
    CancelTurn,
    CloseSession,
    Finish,
}

/// What came of it. The channel of commands may be closed, and the runtime may fail,
/// with a message.
#[derive(Debug)]
pub enum WorkerInput {
    Command(AngelCommand),
    CommandsClosed,
    Events(Vec<TurnRunEvent>),
    Polled(Option<TurnRunEvent>),
    Failed(String),
    Done,
}

/// The worker.
#[derive(Debug)]
pub struct AngelWorker {
    pub context: AngelEventContext,
    pub pending_comments: Vec<String>,
    pub event_state: AngelWorkerEventState,
    pub permission_mode: String,
    pub phase: WorkerPhase,
}

/// The model of where the worker stands.
pub ghost enum PhaseView {
    Idle,
    Starting { first: bool, turn: u32 },
    Resolving { first: bool, turn: u32, ends: bool, rest: Seq<TurnRunEvent> },
    Polling { first: bool, turn: u32 },
    Answering,
    Cancelling,
    Closing,
    Closed,
}

/// The model of the worker.
pub ghost struct WorkerView {
    pub workspace: Seq<char>,
    pub permission_mode: Seq<char>,
    pub pending: Seq<Seq<char>>,
    pub session: SessionView,
    pub phase: PhaseView,
}

/// The model of an answer.
pub ghost enum AnswerView {
    Started(Result<(), ErrorView>),
    Turn(Result<(), ErrorView>),
    CommentTaken,
}

/// The model of what is to be done.
pub ghost enum ActionView {
    Receive,
    StartTurn { text: Seq<char>, cwd: Seq<char>, permission_mode: Seq<char> },
    AllowForSession(Seq<char>),
    Poll(u64),
    Respond(AnswerView),
    CancelTurn,
    CloseSession,
    Finish,
}

impl WorkerPhase {
    /// The model of where the worker stands.
    pub open spec fn view(&self) -> PhaseView {
        match self {
            WorkerPhase::Idle => PhaseView::Idle,
            WorkerPhase::Starting { first, turn } => PhaseView::Starting {
                first: *first,
                turn: *turn,
            },
            WorkerPhase::Resolving { first, turn, ends, rest } => PhaseView::Resolving {
                first: *first,
                turn: *turn,
                ends: *ends,
                rest: rest@,
            },
            WorkerPhase::Polling { first, turn } => PhaseView::Polling {
                first: *first,
                turn: *turn,
            },
            WorkerPhase::Answering => PhaseView::Answering,
            WorkerPhase::Cancelling => PhaseView::Cancelling,
            WorkerPhase::Closing => PhaseView::Closing,
            WorkerPhase::Closed => PhaseView::Closed,
        }
    }
}

/// The view of how a turn ended: one that ends well is complete.
pub open spec fn turn_end(r: Result<TurnExit, LunaError>) -> Result<(), ErrorView> {
    match r {
        Ok(_) => Ok(()),
        Err(e) => Err(e@),
    }
}

impl Answer {
    /// The model of the answer.
    pub open spec fn view(&self) -> AnswerView {
        match self {
            Answer::Started(r) => AnswerView::Started(
                match r {
                    Ok(_) => Ok(()),
                    Err(e) => Err(e@),
                },
            ),
            Answer::Turn(r) => AnswerView::Turn(
                match r {
                    Ok(_) => Ok(()),
                    Err(e) => Err(e@),
                },
            ),
            Answer::CommentTaken => AnswerView::CommentTaken,
        }
    }
}

impl WorkerAction {
    /// The model of what is to be done.
    pub open spec fn view(&self) -> ActionView {
        match self {
            WorkerAction::Receive => ActionView::Receive,
            WorkerAction::StartTurn(request) => ActionView::StartTurn {
                text: request.text@,
                cwd: request.cwd@,
                permission_mode: request.permission_mode@,
            },
            WorkerAction::AllowForSession(id) => ActionView::AllowForSession(id@),
            WorkerAction::Poll(ms) => ActionView::Poll(*ms),
            WorkerAction::Respond(answer) => ActionView::Respond(answer@),
            WorkerAction::CancelTurn => ActionView::CancelTurn,
            WorkerAction::CloseSession => ActionView::CloseSession,
            WorkerAction::Finish => ActionView::Finish,
        }
    }

    /// That a turn is reported as complete, if it is reported to have ended well.
    pub open spec fn complete(&self) -> bool {
        self matches WorkerAction::Respond(Answer::Turn(Ok(exit))) ==> exit is Completed
    }
}

impl AngelWorker {
    /// The model of the worker.
    pub open spec fn view(&self) -> WorkerView {
        WorkerView {
            workspace: self.context.workspace_path@,
            permission_mode: self.permission_mode@,
            pending: texts(self.pending_comments@),
            session: self.event_state@,
            phase: self.phase@,
        }
    }
}

// ---------------------------------------------------------------------------
// Events
// ---------------------------------------------------------------------------

/// What is left of events once they are taken in up to the first question: the
/// session, the reports, and the question with the events behind it.
pub ghost struct Taken {
    pub session: SessionView,
    pub reports: Seq<Report>,
    pub question: Option<(Seq<char>, Seq<TurnRunEvent>)>,
}

/// Takes events in, one after the other, up to the first question.
pub open spec fn taken(s: SessionView, events: Seq<TurnRunEvent>, turn: u32) -> Taken
    decreases events.len(),
{
    if events.len() == 0 {
        Taken { session: s, reports: Seq::empty(), question: None }
    } else {
        let after = session_after(s, events[0]);
        let reports = reports_of(s, events[0], turn);
        match events[0] {
            TurnRunEvent::Elicitation { elicitation } => Taken {
                session: after,
                reports,
                question: Some((elicitation.id@, events.drop_first())),
            },
            _ => {
                let rest = taken(after, events.drop_first(), turn);
                Taken { reports: reports + rest.reports, ..rest }
            },
        }
    }
}

proof fn carried_together(
    a: Seq<WorkerEvent>,
    x: Seq<Report>,
    b: Seq<WorkerEvent>,
    y: Seq<Report>,
    context: AngelEventContext,
    now: Timestamp,
)
    requires
        carry_all(a, x, context, now),
        carry_all(b, y, context, now),
    ensures
        carry_all(a + b, x + y, context, now),
{
    assert forall|i: int| 0 <= i < (a + b).len() implies carries(
        #[trigger] (a + b)[i],
        (x + y)[i],
        context,
        now,
    ) by {
        if i < a.len() {
            assert((a + b)[i] == a[i]);
        } else {
            assert((a + b)[i] == b[i - a.len()]);
        }
    }
}

/// What follows once events are taken in: the question is answered, or the turn goes
/// on or ends.
pub open spec fn following(w: WorkerView, t: Taken, first: bool, turn: u32, ends: bool) -> (
    WorkerView,
    ActionView,
) {
    let w = WorkerView { session: t.session, ..w };
    match t.question {
        Some((id, rest)) => (
            WorkerView { phase: PhaseView::Resolving { first, turn, ends, rest }, ..w },
            ActionView::AllowForSession(id),
        ),
        None => if ends {
            answered(w, first, Ok(()))
        } else {
            (
                WorkerView { phase: PhaseView::Polling { first, turn }, ..w },
                ActionView::Poll(EVENT_WAIT_MS),
            )
        },
    }
}

/// A turn that has ended is answered.
pub open spec fn answered(w: WorkerView, first: bool, end: Result<(), ErrorView>) -> (
    WorkerView,
    ActionView,
) {
    (
        WorkerView { phase: PhaseView::Answering, ..w },
        ActionView::Respond(
            if first {
                AnswerView::Started(end)
            } else {
                AnswerView::Turn(end)
            },
        ),
    )
}

/// That the runtime failed.
pub open spec fn runtime_failure(message: Seq<char>) -> ErrorView {
    ErrorView::Agent("angel-engine client error: "@ + message)
}

/// The events that the worker is given at a step, with the turn that they belong to,
/// and whether the turn ends once they are taken in.
pub open spec fn given(phase: PhaseView, input: WorkerInput) -> Option<
    (Seq<TurnRunEvent>, bool, u32, bool),
> {
    match (phase, input) {
        (PhaseView::Starting { first, turn }, WorkerInput::Events(events)) => Some(
            (events@, first, turn, false),
        ),
        (PhaseView::Resolving { first, turn, ends, rest }, WorkerInput::Events(events)) => Some(
            (events@ + rest, first, turn, ends),
        ),
        (PhaseView::Polling { first, turn }, WorkerInput::Polled(Some(event))) => Some(
            (seq![event], first, turn, event is Result),
        ),
        _ => None,
    }
}

/// What is reported at a step.
pub open spec fn step_reports(w: WorkerView, input: WorkerInput) -> Seq<Report> {
    match given(w.phase, input) {
        Some((events, first, turn, ends)) => taken(w.session, events, turn).reports,
        None => Seq::empty(),
    }
}

/// What the worker does with a command.
pub open spec fn commanded(w: WorkerView, command: AngelCommand) -> (WorkerView, ActionView) {
    match command {
        AngelCommand::Start => (
            WorkerView { phase: PhaseView::Starting { first: true, turn: 0 }, ..w },
            ActionView::StartTurn {
                text: "Initialize this Luna workspace. Do not make changes yet."@,
                cwd: w.workspace,
                permission_mode: w.permission_mode,
            },
        ),
        AngelCommand::RunTurn { prompt, turn_number } => (
            WorkerView {
                pending: Seq::empty(),
                phase: PhaseView::Starting { first: false, turn: turn_number },
                ..w
            },
            ActionView::StartTurn {
                text: prompt_with_comments(prompt@, w.pending),
                cwd: w.workspace,
                permission_mode: w.permission_mode,
            },
        ),
        AngelCommand::SendComment { body } => (
            WorkerView { pending: w.pending.push(body@), phase: PhaseView::Answering, ..w },
            ActionView::Respond(AnswerView::CommentTaken),
        ),
        AngelCommand::Cancel => (
            WorkerView { phase: PhaseView::Cancelling, ..w },
            ActionView::CancelTurn,
        ),
        AngelCommand::Shutdown => (
            WorkerView { phase: PhaseView::Closing, ..w },
            ActionView::CloseSession,
        ),
    }
}

/// The worker after a step, and what it wants done.
pub open spec fn worker_step(w: WorkerView, input: WorkerInput) -> (WorkerView, ActionView) {
    match given(w.phase, input) {
        Some((events, first, turn, ends)) => following(
            w,
            taken(w.session, events, turn),
            first,
            turn,
            ends,
        ),
        None => match (w.phase, input) {
            (PhaseView::Idle, WorkerInput::Command(command)) => commanded(w, command),
            (PhaseView::Idle, WorkerInput::CommandsClosed) => (
                WorkerView { phase: PhaseView::Closing, ..w },
                ActionView::CloseSession,
            ),
            (PhaseView::Starting { first, turn }, WorkerInput::Failed(m)) => answered(
                w,
                first,
                Err(runtime_failure(m@)),
            ),
            (PhaseView::Resolving { first, turn, ends, rest }, WorkerInput::Failed(m)) => answered(
                w,
                first,
                Err(runtime_failure(m@)),
            ),
            (PhaseView::Polling { first, turn }, WorkerInput::Failed(m)) => answered(
                w,
                first,
                Err(runtime_failure(m@)),
            ),
            (PhaseView::Polling { first, turn }, WorkerInput::Polled(None)) => (
                w,
                ActionView::Poll(EVENT_WAIT_MS),
            ),
            (PhaseView::Answering, WorkerInput::Done) => (
                WorkerView { phase: PhaseView::Idle, ..w },
                ActionView::Receive,
            ),
            (PhaseView::Cancelling, WorkerInput::Done) => (
                WorkerView { phase: PhaseView::Idle, ..w },
                ActionView::Receive,
            ),
            (PhaseView::Closing, WorkerInput::Done) => (
                WorkerView { phase: PhaseView::Closed, ..w },
                ActionView::Finish,
            ),
            _ => (w, ActionView::Receive),
        },
    }
}

/// Whether the worker waited for this: what it asked for last is what it is told of.
pub open spec fn fits(phase: PhaseView, input: WorkerInput) -> bool {
    match phase {
        PhaseView::Idle => input is Command || input is CommandsClosed,
        PhaseView::Starting { .. } => input is Events || input is Failed,
        PhaseView::Resolving { .. } => input is Events || input is Failed,
        PhaseView::Polling { .. } => input is Polled || input is Failed,
        PhaseView::Answering => input is Done,
        PhaseView::Cancelling => input is Done,
        PhaseView::Closing => input is Done,
        PhaseView::Closed => false,
    }
}

impl AngelWorker {
    /// A worker that waits for its first command.
    pub fn begin(context: AngelEventContext, permission_mode: String) -> (r: (
        AngelWorker,
        WorkerAction,
    ))
        ensures
            r.0@ == (WorkerView {
                workspace: context.workspace_path@,
                permission_mode: permission_mode@,
                pending: Seq::empty(),
                session: SessionView { thread_id: None, turn_id: None, session_id: None },
                phase: PhaseView::Idle,
            }),
            r.0.context == context,
            r.1@ == ActionView::Receive,
    {
        let worker = AngelWorker {
            context,
            pending_comments: Vec::new(),
            event_state: AngelWorkerEventState::new(),
            permission_mode,
            phase: WorkerPhase::Idle,
        };
        assert(texts(worker.pending_comments@) =~= Seq::<Seq<char>>::empty());
        (worker, WorkerAction::Receive)
    }

    fn answer(&mut self, first: bool, end: Result<TurnExit, LunaError>) -> (r: WorkerAction)
        requires
            end matches Ok(exit) ==> exit is Completed,
        ensures
            (final(self)@, r@) == answered(old(self)@, first, turn_end(end)),
            final(self).context == old(self).context,
            r.complete(),
    {
        self.phase = WorkerPhase::Answering;
        if first {
            WorkerAction::Respond(
                Answer::Started(
                    match end {
                        Ok(_) => Ok(()),
                        Err(e) => Err(e),
                    },
                ),
            )
        } else {
            WorkerAction::Respond(Answer::Turn(end))
        }
    }

    fn handle_turn_events(
        &mut self,
        events: Vec<TurnRunEvent>,
        first: bool,
        turn: u32,
        ends: bool,
        now: Timestamp,
    ) -> (r: (WorkerAction, Vec<WorkerEvent>))
        ensures
            (final(self)@, r.0@) == following(
                old(self)@,
                taken(old(self)@.session, events@, turn),
                first,
                turn,
                ends,
            ),
            carry_all(
                r.1@,
                taken(old(self)@.session, events@, turn).reports,
                old(self).context,
                now,
            ),
            final(self).context == old(self).context,
            r.0.complete(),
    {
        let ghost start = self@;
        let ghost all = taken(start.session, events@, turn);
        let ghost context = self.context;
        let ghost mut told: Seq<Report> = Seq::empty();
        let mut out: Vec<WorkerEvent> = Vec::new();
        let mut rest = events;
        assert(told + taken(self@.session, rest@, turn).reports =~= all.reports);
        while rest.len() > 0
            invariant
                self.context == context,
                self@ == (WorkerView { session: self@.session, ..start }),
                carry_all(out@, told, context, now),
                told + taken(self@.session, rest@, turn).reports == all.reports,
                taken(self@.session, rest@, turn).session == all.session,
                taken(self@.session, rest@, turn).question == all.question,
                all == taken(start.session, events@, turn),
                start == old(self)@,
                context == old(self).context,
            decreases rest@.len(),
        {
            let ghost was = rest@;
            let ghost before = self@.session;
            let event = rest.remove(0);
            assert(rest@ =~= was.drop_first());
            let ghost reports = reports_of(before, event, turn);
            let (projected, mut events) = project_turn_event_at(
                event,
                turn,
                &mut self.event_state,
                &self.context,
                now,
            );
            let ghost had = out@;
            let ghost more = events@;
            out.append(&mut events);
            proof {
                carried_together(had, told, more, reports, context, now);
                assert(out@ =~= had + more);
            }
            match projected {
                ProjectedAngelEvent::ResolveElicitation(id) => {
                    assert(all.reports == told + reports);
                    self.phase = WorkerPhase::Resolving { first, turn, ends, rest };
                    return (WorkerAction::AllowForSession(id), out);
                },
                ProjectedAngelEvent::Handled => {},
            }
            proof {
                let next = taken(self@.session, rest@, turn).reports;
                assert(told + (reports + next) =~= told + reports + next);
                told = told + reports;
            }
        }
        assert(told + Seq::<Report>::empty() =~= told);
        if ends {
            (self.answer(first, Ok(TurnExit::Completed)), out)
        } else {
            self.phase = WorkerPhase::Polling { first, turn };
            (WorkerAction::Poll(EVENT_WAIT_MS), out)
        }
    }

    fn obey(&mut self, command: AngelCommand) -> (r: WorkerAction)
        ensures
            (final(self)@, r@) == commanded(old(self)@, command),
            final(self).context == old(self).context,
            r.complete(),
    {
        let ghost before = self@;
        match command {
            AngelCommand::Start => {
                self.phase = WorkerPhase::Starting { first: true, turn: 0 };
                WorkerAction::StartTurn(
                    start_request(
                        self.context.workspace_path.as_str(),
                        self.permission_mode.as_str(),
                    ),
                )
            },
            AngelCommand::RunTurn { prompt, turn_number } => {
                let request = turn_request(
                    prompt.as_str(),
                    &mut self.pending_comments,
                    self.context.workspace_path.as_str(),
                    self.permission_mode.as_str(),
                );
                self.phase = WorkerPhase::Starting { first: false, turn: turn_number };
                assert(texts(self.pending_comments@) =~= Seq::<Seq<char>>::empty());
                WorkerAction::StartTurn(request)
            },
            AngelCommand::SendComment { body } => {
                let ghost text = body@;
                self.pending_comments.push(body);
                assert(texts(self.pending_comments@) =~= before.pending.push(text));
                self.phase = WorkerPhase::Answering;
                WorkerAction::Respond(Answer::CommentTaken)
            },
            AngelCommand::Cancel => {
                self.phase = WorkerPhase::Cancelling;
                WorkerAction::CancelTurn
            },
            AngelCommand::Shutdown => {
                self.phase = WorkerPhase::Closing;
                WorkerAction::CloseSession
            },
        }
    }

    fn fail(&mut self, first: bool, message: &str) -> (r: WorkerAction)
        ensures
            (final(self)@, r@) == answered(old(self)@, first, Err(runtime_failure(message@))),
            final(self).context == old(self).context,
            r.complete(),
    {
        self.answer(first, Err(angel_error(message)))
    }

    /// Takes in what came of the last action at the instant `now`: says what is to be
    /// done next, and what is to be reported.
    #[verifier::spinoff_prover]
    pub fn step(&mut self, input: WorkerInput, now: Timestamp) -> (r: (
        WorkerAction,
        Vec<WorkerEvent>,
    ))
        requires
            fits(old(self)@.phase, input),
        ensures
            (final(self)@, r.0@) == worker_step(old(self)@, input),
            carry_all(r.1@, step_reports(old(self)@, input), old(self).context, now),
            final(self).context == old(self).context,
            r.0.complete(),
    {
        let mut phase = WorkerPhase::Idle;
        std::mem::swap(&mut phase, &mut self.phase);
        match phase {
            WorkerPhase::Idle => match input {
                WorkerInput::Command(command) => (self.obey(command), Vec::new()),
                _ => {
                    self.phase = WorkerPhase::Closing;
                    (WorkerAction::CloseSession, Vec::new())
                },
            },
            WorkerPhase::Starting { first, turn } => match input {
                WorkerInput::Events(events) => self.handle_turn_events(
                    events,
                    first,
                    turn,
                    false,
                    now,
                ),
                WorkerInput::Failed(message) => (self.fail(first, message.as_str()), Vec::new()),
                _ => (WorkerAction::Receive, Vec::new()),
            },
            WorkerPhase::Resolving { first, turn, ends, rest } => match input {
                WorkerInput::Events(events) => {
                    let ghost all = events@ + rest@;
                    let mut events = events;
                    let mut rest = rest;
                    events.append(&mut rest);
                    assert(events@ =~= all);
                    self.handle_turn_events(events, first, turn, ends, now)
                },
                WorkerInput::Failed(message) => (self.fail(first, message.as_str()), Vec::new()),
                _ => (WorkerAction::Receive, Vec::new()),
            },
            WorkerPhase::Polling { first, turn } => match input {
                WorkerInput::Polled(Some(event)) => {
                    let ends = ends_turn(&event);
                    let mut events: Vec<TurnRunEvent> = Vec::new();
                    let ghost all = seq![event];
                    events.push(event);
                    assert(events@ =~= all);
                    self.handle_turn_events(events, first, turn, ends, now)
                },
                WorkerInput::Failed(message) => (self.fail(first, message.as_str()), Vec::new()),
                _ => {
                    self.phase = WorkerPhase::Polling { first, turn };
                    (WorkerAction::Poll(EVENT_WAIT_MS), Vec::new())
                },
            },
            WorkerPhase::Answering => (WorkerAction::Receive, Vec::new()),
            WorkerPhase::Cancelling => (WorkerAction::Receive, Vec::new()),
            WorkerPhase::Closing => {
                self.phase = WorkerPhase::Closed;
                (WorkerAction::Finish, Vec::new())
            },
            WorkerPhase::Closed => (WorkerAction::Receive, Vec::new()),
        }
    }
}

// ---------------------------------------------------------------------------
// Sessions
// ---------------------------------------------------------------------------

/// What an agent is spoken with through.
#[derive(Debug)]
pub enum SessionPlan {
    Angel(AngelRuntimeLaunchConfig),
    Acp(AcpRunner),
}

/// What the agent of a runner is spoken with through.
pub fn build_agent_session(config: &RunnerConfig) -> (r: SessionPlan)
    ensures
        match *config {
            RunnerConfig::Codex(c) => r matches SessionPlan::Angel(launch) && launch.kind
                == AngelRuntimeKind::Codex && launch.command@
                == c.command@ && texts(launch.args@) == texts(c.args@) && launch.turn_timeout_ms
                == c.turn_timeout_ms && launch.default_reasoning_effort is None
                && launch.default_permission_mode@ == "never"@,
            RunnerConfig::Opencode(c) => r matches SessionPlan::Angel(launch) && launch.kind
                == AngelRuntimeKind::Opencode && launch.command@
                == c.command@ && texts(launch.args@) == texts(c.args@) && launch.turn_timeout_ms
                == c.turn_timeout_ms && launch.default_reasoning_effort is None
                && launch.default_permission_mode@ == "bypassPermissions"@,
            RunnerConfig::Acp(c) => r == SessionPlan::Acp(c),
        },
{
    match config {
        RunnerConfig::Codex(c) => SessionPlan::Angel(
            AngelRuntimeLaunchConfig::codex(c),
        ),
        RunnerConfig::Opencode(c) => SessionPlan::Angel(
            AngelRuntimeLaunchConfig::opencode(c),
        ),
        RunnerConfig::Acp(c) => SessionPlan::Acp(
            AcpRunner {
                command: c.command.clone(),
                turn_timeout_ms: c.turn_timeout_ms,
                read_timeout_ms: c.read_timeout_ms,
                stall_timeout_ms: c.stall_timeout_ms,
            },
        ),
    }
}

/// What is asked of the worker by the session.
#[derive(Clone, Copy, Debug, PartialEq, Eq, Structural)]
pub enum SessionCall {
    Start,
    Turn,
    Comment,
}

/// The error for a worker that is gone: it can no longer be asked, or it did not
/// answer the call.
pub fn channel_closed(asked: Option<SessionCall>) -> (r: LunaError)
    ensures
        r@ == ErrorView::Agent(
            match asked {
                None => "angel worker channel closed"@,
                Some(SessionCall::Start) => "angel start response channel closed"@,
                Some(SessionCall::Turn) => "angel turn response channel closed"@,
                Some(SessionCall::Comment) => "angel comment response channel closed"@,
            },
        ),
{
    let message = match asked {
        None => "angel worker channel closed",
        Some(SessionCall::Start) => "angel start response channel closed",
        Some(SessionCall::Turn) => "angel turn response channel closed",
        Some(SessionCall::Comment) => "angel comment response channel closed",
    };
    LunaError::Agent(message.to_owned())
}

/// The report that a session has started, under the ids that it has by then.
pub fn session_started(
    session: &AngelWorkerEventState,
    context: &AngelEventContext,
    now: Timestamp,
) -> (r: WorkerEvent)
    ensures
        carries(
            r,
            Report::Session {
                event: "session_started"@,
                session: session@,
                message: None,
                usage: None,
                turn_count: 0,
            },
            *context,
            now,
        ),
{
    WorkerEvent::Session(
        SessionUpdate {
            issue_id: context.issue_id.clone(),
            issue_identifier: context.issue_identifier.clone(),
            event: "session_started".to_owned(),
            timestamp: now,
            session_id: clone_opt(&session.session_id),
            thread_id: clone_opt(&session.thread_id),
            turn_id: clone_opt(&session.turn_id),
            agent_pid: None,
            message: None,
            usage: None,
            rate_limits: None,
            turn_count: Some(0),
        },
    )
}

// ---------------------------------------------------------------------------
// Laws
// ---------------------------------------------------------------------------

/// Whether a turn runs.
pub open spec fn in_turn(phase: PhaseView) -> bool {
    phase is Starting || phase is Resolving || phase is Polling
}

/// A turn that runs goes on running or is answered; no command is taken in between.
pub proof fn turn_is_answered_before_the_next_command(w: WorkerView, input: WorkerInput)
    requires
        in_turn(w.phase),
        fits(w.phase, input),
    ensures
        in_turn(worker_step(w, input).0.phase) || (worker_step(w, input).0.phase is Answering
            && worker_step(w, input).1 is Respond),
        !(worker_step(w, input).1 is Receive),
{
}

/// A turn ends well only with a result that was polled and once every question is
/// answered.
pub proof fn turn_ends_with_its_result(w: WorkerView, input: WorkerInput)
    requires
        fits(w.phase, input),
    ensures
        ({
            let action = worker_step(w, input).1;
            action == ActionView::Respond(AnswerView::Turn(Ok(()))) || action
                == ActionView::Respond(AnswerView::Started(Ok(())))
        }) ==> match w.phase {
            PhaseView::Polling { .. } => input matches WorkerInput::Polled(Some(event))
                && event is Result,
            PhaseView::Resolving { ends, .. } => ends,
            _ => false,
        },
        worker_step(w, input).0.phase matches PhaseView::Resolving { ends, .. } ==> ends ==> (
        w.phase matches PhaseView::Resolving { ends: before, .. } && before),
{
    match given(w.phase, input) {
        Some((events, first, turn, ends)) => {
            if w.phase is Polling {
                reveal_with_fuel(taken, 2);
            }
        },
        None => {},
    }
}

/// A question is answered before anything behind it is taken in, and what the answer
/// brings comes before what was there already.
pub proof fn questions_are_answered_at_once(
    s: SessionView,
    before: Seq<TurnRunEvent>,
    question: TurnRunEvent,
    behind: Seq<TurnRunEvent>,
    turn: u32,
)
    requires
        question is Elicitation,
        forall|i: int| 0 <= i < before.len() ==> !((#[trigger] before[i]) is Elicitation),
    ensures
        taken(s, before + seq![question] + behind, turn).question == Some(
            (question->elicitation.id@, behind),
        ),
    decreases before.len(),
{
    let all = before + seq![question] + behind;
    if before.len() == 0 {
        assert(all[0] == question);
        assert(all.drop_first() =~= behind);
    } else {
        assert(all[0] == before[0]);
        let rest = before.drop_first();
        assert(all.drop_first() =~= rest + seq![question] + behind);
        assert forall|i: int| 0 <= i < rest.len() implies !((#[trigger] rest[i]) is Elicitation) by {
            assert(rest[i] == before[i + 1]);
        }
        questions_are_answered_at_once(session_after(s, before[0]), rest, question, behind, turn);
    }
}

/// A comment waits for the next turn, is shown in it behind those that came before,
/// and waits no more.
pub proof fn comment_is_shown_in_the_next_turn(
    w: WorkerView,
    body: String,
    prompt: String,
    turn_number: u32,
)
    requires
        w.phase is Idle,
    ensures
        ({
            let noted = worker_step(
                w,
                WorkerInput::Command(AngelCommand::SendComment { body }),
            ).0;
            let (after, action) = commanded(noted, AngelCommand::RunTurn { prompt, turn_number });
            &&& after.pending == Seq::<Seq<char>>::empty()
            &&& action matches ActionView::StartTurn { text, .. } && text == prompt_with_comments(
                prompt@,
                w.pending.push(body@),
            )
        }),
{
}

} // verus!
