//! One attempt at an issue.
//!
//! An attempt alternates outside work (tracker, workspace, agent session) with
//! decisions. `Attempt` holds the decisions: it names the next piece of outside
//! work, and is told how that went.
use vstd::prelude::*;

use crate::agent::{
    map_stop_reason, outcome_of_stop, OutcomeView, StopReason, TurnExit, WorkerOutcome,
};
use crate::config::{is_listed, listed};
use crate::error::{ErrorView, LunaError};
use crate::model::{
    clone_comment, comment_views, issue_views, Comment, CommentView, Issue, IssueView,
};
use crate::table::TextSet;
use crate::text::{cat, texts};

verus! {

/// The outside work that an attempt waits for.
#[derive(Clone, Copy, Debug, PartialEq, Eq, Structural)]
pub enum Phase {
    Tracker,
    Activity,
    Prepare,
    BeforeRun,
    StopCheck,
    Render,
    Build,
    Start,
    Deliver,
    Fetch,
    Turn,
    Refresh,
    Shutdown,
    AfterRun,
    Finished,
}

/// The outside work that is to be done next.
#[derive(Debug)]
pub enum Action {
    /// Connect to the tracker.
    ConnectTracker,
    /// Record an activity of this kind on the issue; a failure does not matter.
    RecordActivity { kind: String, title: String, body: String },
    /// Prepare the workspace of the issue with this identifier.
    PrepareWorkspace(String),
    /// Run the hook before the run.
    RunBeforeHook,
    /// Look whether the attempt was told to stop.
    CheckStop,
    /// Render the prompt of the issue.
    RenderPrompt,
    /// Build a session of the agent.
    BuildSession,
    /// Start the session.
    StartSession,
    /// Hand the comments that have arrived to the session; a failure does not matter.
    DeliverComments,
    /// Fetch the comments on the issue.
    FetchComments,
    /// Run the first turn with this prompt.
    RunFirstTurn(String),
    /// Run a later turn, with a prompt that names the turn, the limit and the new
    /// comments.
    RunNextTurn { turn_number: u32, max_turns: u32, comments: Vec<Comment> },
    /// Fetch the issue with this id again.
    RefreshIssue(String),
    /// Shut the session down.
    ShutDownSession,
    /// Run the hook after the run; a failure does not matter.
    RunAfterHook,
    /// The attempt has ended like this.
    Finish(Result<WorkerOutcome, LunaError>),
}

/// How the outside work went.
#[derive(Debug)]
pub enum Event {
    Done,
    Failed(LunaError),
    Stop(Option<StopReason>),
    Prompt(String),
    Comments(Vec<Comment>),
    Turn(TurnExit),
    Issues(Vec<Issue>),
}

/// The model of an action.
pub enum ActionView {
    ConnectTracker,
    RecordActivity { kind: Seq<char>, title: Seq<char>, body: Seq<char> },
    PrepareWorkspace(Seq<char>),
    RunBeforeHook,
    CheckStop,
    RenderPrompt,
    BuildSession,
    StartSession,
    DeliverComments,
    FetchComments,
    RunFirstTurn(Seq<char>),
    RunNextTurn { turn_number: u32, max_turns: u32, comments: Seq<CommentView> },
    RefreshIssue(Seq<char>),
    ShutDownSession,
    RunAfterHook,
    Finish(Result<OutcomeView, ErrorView>),
}

/// The model of the end of a turn.
pub enum TurnView {
    Completed,
    Failed(Seq<char>),
    TimedOut,
    Stopped(StopReason),
}

/// The model of an event.
pub enum EventView {
    Done,
    Failed(ErrorView),
    Stop(Option<StopReason>),
    Prompt(Seq<char>),
    Comments(Seq<CommentView>),
    Turn(TurnView),
    Issues(Seq<IssueView>),
}

/// The model of the result of an attempt.
pub open spec fn result_view(r: Result<WorkerOutcome, LunaError>) -> Result<
    OutcomeView,
    ErrorView,
> {
    match r {
        Ok(outcome) => Ok(outcome@),
        Err(e) => Err(e@),
    }
}

impl View for TurnExit {
    type V = TurnView;

    open spec fn view(&self) -> TurnView {
        match self {
            TurnExit::Completed => TurnView::Completed,
            TurnExit::Failed(reason) => TurnView::Failed(reason@),
            TurnExit::TimedOut => TurnView::TimedOut,
            TurnExit::Stopped(reason) => TurnView::Stopped(*reason),
        }
    }
}

impl View for Action {
    type V = ActionView;

    open spec fn view(&self) -> ActionView {
        match self {
            Action::ConnectTracker => ActionView::ConnectTracker,
            Action::RecordActivity { kind, title, body } => ActionView::RecordActivity {
                kind: kind@,
                title: title@,
                body: body@,
            },
            Action::PrepareWorkspace(identifier) => ActionView::PrepareWorkspace(identifier@),
            Action::RunBeforeHook => ActionView::RunBeforeHook,
            Action::CheckStop => ActionView::CheckStop,
            Action::RenderPrompt => ActionView::RenderPrompt,
            Action::BuildSession => ActionView::BuildSession,
            Action::StartSession => ActionView::StartSession,
            Action::DeliverComments => ActionView::DeliverComments,
            Action::FetchComments => ActionView::FetchComments,
            Action::RunFirstTurn(prompt) => ActionView::RunFirstTurn(prompt@),
            Action::RunNextTurn { turn_number, max_turns, comments } => ActionView::RunNextTurn {
                turn_number: *turn_number,
                max_turns: *max_turns,
                comments: comment_views(comments@),
            },
            Action::RefreshIssue(id) => ActionView::RefreshIssue(id@),
            Action::ShutDownSession => ActionView::ShutDownSession,
            Action::RunAfterHook => ActionView::RunAfterHook,
            Action::Finish(result) => ActionView::Finish(result_view(*result)),
        }
    }
}

impl View for Event {
    type V = EventView;

    open spec fn view(&self) -> EventView {
        match self {
            Event::Done => EventView::Done,
            Event::Failed(e) => EventView::Failed(e@),
            Event::Stop(reason) => EventView::Stop(*reason),
            Event::Prompt(prompt) => EventView::Prompt(prompt@),
            Event::Comments(comments) => EventView::Comments(comment_views(comments@)),
            Event::Turn(exit) => EventView::Turn(exit@),
            Event::Issues(issues) => EventView::Issues(issue_views(issues@)),
        }
    }
}

/// The model of an attempt.
#[verifier::ext_equal]
pub ghost struct AttemptView {
    pub issue: IssueView,
    pub active_states: Seq<Seq<char>>,
    pub max_turns: u32,
    pub phase: Phase,
    pub prompt: Seq<char>,
    pub turn_number: u32,
    pub seen: Set<Seq<char>>,
    /// How the attempt will end, once that is settled.
    pub result: Result<OutcomeView, ErrorView>,
    /// A session was built and is not shut down yet.
    pub session_open: bool,
    /// The hook after the run is owed.
    pub after_run_due: bool,
}

/// Which events answer the work of a phase.
pub open spec fn answers(phase: Phase, event: EventView) -> bool {
    match phase {
        Phase::Tracker => event is Done || event is Failed,
        Phase::Activity => event is Done || event is Failed,
        Phase::Prepare => event is Done || event is Failed,
        Phase::BeforeRun => event is Done || event is Failed,
        Phase::StopCheck => event is Stop,
        Phase::Render => event is Prompt || event is Failed,
        Phase::Build => event is Done || event is Failed,
        Phase::Start => event is Done || event is Failed,
        Phase::Deliver => event is Done,
        Phase::Fetch => event is Comments || event is Failed,
        Phase::Turn => event is Turn || event is Failed,
        Phase::Refresh => event is Issues || event is Failed,
        Phase::Shutdown => event is Done,
        Phase::AfterRun => event is Done,
        Phase::Finished => false,
    }
}

/// The comments whose ids are not in `seen`.
pub open spec fn unseen(comments: Seq<CommentView>, seen: Set<Seq<char>>) -> Seq<CommentView>
    decreases comments.len(),
{
    if comments.len() == 0 {
        Seq::empty()
    } else {
        let rest = unseen(comments.drop_last(), seen);
        if seen.contains(comments.last().id) {
            rest
        } else {
            rest.push(comments.last())
        }
    }
}

/// `seen` with the ids of `comments`.
pub open spec fn with_ids(seen: Set<Seq<char>>, comments: Seq<CommentView>) -> Set<Seq<char>>
    decreases comments.len(),
{
    if comments.len() == 0 {
        seen
    } else {
        with_ids(seen, comments.drop_last()).insert(comments.last().id)
    }
}

impl AttemptView {
    /// The attempt, waiting for the work of `phase`.
    pub open spec fn to(self, phase: Phase) -> AttemptView {
        AttemptView { phase, ..self }
    }

    /// The attempt ends with `result` before anything needs to be put away.
    pub open spec fn ends(self, result: Result<OutcomeView, ErrorView>) -> (
        AttemptView,
        ActionView,
    ) {
        (AttemptView { phase: Phase::Finished, result, ..self }, ActionView::Finish(result))
    }

    /// The attempt will end with `result`, once the session is shut down where there
    /// is one and the hook after the run has run.
    pub open spec fn winds_up(self, result: Result<OutcomeView, ErrorView>) -> (
        AttemptView,
        ActionView,
    ) {
        let v = AttemptView { result, ..self };
        if self.session_open {
            (v.to(Phase::Shutdown), ActionView::ShutDownSession)
        } else {
            (v.to(Phase::AfterRun), ActionView::RunAfterHook)
        }
    }

    /// The next turn, with the comments that are new.
    pub open spec fn turn_action(self, comments: Seq<CommentView>) -> ActionView {
        if self.turn_number == 1 {
            ActionView::RunFirstTurn(self.prompt)
        } else {
            ActionView::RunNextTurn {
                turn_number: self.turn_number,
                max_turns: self.max_turns,
                comments,
            }
        }
    }

    /// What the attempt does when it learns how the work of its phase went.
    pub open spec fn step(self, event: EventView) -> (AttemptView, ActionView) {
        match (self.phase, event) {
            (Phase::Tracker, EventView::Failed(e)) => self.ends(Err(e)),
            (Phase::Tracker, _) => (
                self.to(Phase::Activity),
                ActionView::RecordActivity {
                    kind: "agent_started"@,
                    title: "Agent started on "@ + self.issue.identifier,
                    body: "Working on: "@ + self.issue.title,
                },
            ),
            (Phase::Activity, _) => (
                self.to(Phase::Prepare),
                ActionView::PrepareWorkspace(self.issue.identifier),
            ),
            (Phase::Prepare, EventView::Failed(e)) => self.ends(Err(e)),
            (Phase::Prepare, _) => (self.to(Phase::BeforeRun), ActionView::RunBeforeHook),
            (Phase::BeforeRun, EventView::Failed(e)) => self.ends(Err(e)),
            (Phase::BeforeRun, _) => (
                AttemptView { phase: Phase::StopCheck, after_run_due: true, ..self },
                ActionView::CheckStop,
            ),
            (Phase::StopCheck, EventView::Stop(Some(reason))) => self.winds_up(
                Ok(outcome_of_stop(Some(reason))),
            ),
            (Phase::StopCheck, _) => (self.to(Phase::Render), ActionView::RenderPrompt),
            (Phase::Render, EventView::Prompt(prompt)) => (
                AttemptView { phase: Phase::Build, prompt, ..self },
                ActionView::BuildSession,
            ),
            (Phase::Render, EventView::Failed(e)) => self.winds_up(Err(e)),
            (Phase::Build, EventView::Failed(e)) => self.winds_up(Err(e)),
            (Phase::Build, _) => (
                AttemptView { phase: Phase::Start, session_open: true, ..self },
                ActionView::StartSession,
            ),
            (Phase::Start, EventView::Failed(e)) => self.winds_up(Err(e)),
            (Phase::Start, _) => (self.to(Phase::Deliver), ActionView::DeliverComments),
            (Phase::Deliver, _) => (self.to(Phase::Fetch), ActionView::FetchComments),
            (Phase::Fetch, EventView::Comments(comments)) => {
                let new = unseen(comments, self.seen);
                (
                    AttemptView { phase: Phase::Turn, seen: with_ids(self.seen, new), ..self },
                    self.turn_action(new),
                )
            },
            (Phase::Fetch, _) => (self.to(Phase::Turn), self.turn_action(Seq::empty())),
            (Phase::Turn, EventView::Turn(TurnView::Completed)) => (
                self.to(Phase::Refresh),
                ActionView::RefreshIssue(self.issue.id),
            ),
            (Phase::Turn, EventView::Turn(TurnView::Failed(reason))) => self.winds_up(
                Ok(OutcomeView::Failed(reason)),
            ),
            (Phase::Turn, EventView::Turn(TurnView::TimedOut)) => self.winds_up(
                Ok(OutcomeView::TimedOut),
            ),
            (Phase::Turn, EventView::Turn(TurnView::Stopped(reason))) => self.winds_up(
                Ok(outcome_of_stop(Some(reason))),
            ),
            (Phase::Turn, EventView::Failed(e)) => self.winds_up(Err(e)),
            (Phase::Refresh, EventView::Issues(issues)) => {
                if issues.len() == 0 {
                    self.winds_up(
                        Err(
                            ErrorView::Tracker(
                                "issue state refresh error: issue missing after turn"@,
                            ),
                        ),
                    )
                } else {
                    let v = AttemptView { issue: issues[0], ..self };
                    if !listed(self.active_states, issues[0].state) || self.turn_number
                        >= self.max_turns {
                        v.winds_up(Ok(OutcomeView::Normal))
                    } else {
                        (
                            AttemptView {
                                turn_number: (self.turn_number + 1) as u32,
                                phase: Phase::Deliver,
                                ..v
                            },
                            ActionView::DeliverComments,
                        )
                    }
                }
            },
            (Phase::Refresh, EventView::Failed(e)) => self.winds_up(Err(e)),
            (Phase::Shutdown, _) => (
                AttemptView { phase: Phase::AfterRun, session_open: false, ..self },
                ActionView::RunAfterHook,
            ),
            (Phase::AfterRun, _) => (
                AttemptView { phase: Phase::Finished, after_run_due: false, ..self },
                ActionView::Finish(self.result),
            ),
            _ => (self, ActionView::CheckStop),
        }
    }

    /// A session is open, and the hook after the run is owed, just where the phase
    /// says so. A later turn is never past the limit.
    pub open spec fn wf(self) -> bool {
        &&& self.session_open == (self.phase == Phase::Start || self.phase == Phase::Deliver
            || self.phase == Phase::Fetch || self.phase == Phase::Turn || self.phase
            == Phase::Refresh || self.phase == Phase::Shutdown)
        &&& self.after_run_due == (self.session_open || self.phase == Phase::StopCheck
            || self.phase == Phase::Render || self.phase == Phase::Build || self.phase
            == Phase::AfterRun)
        &&& 1 <= self.turn_number
        &&& self.turn_number == 1 || self.turn_number <= self.max_turns
    }

    /// How many steps the attempt can still take.
    pub open spec fn steps_left(self) -> nat {
        let turns = if self.max_turns > self.turn_number {
            (self.max_turns - self.turn_number) as nat
        } else {
            0
        };
        turns * 4 + match self.phase {
            Phase::Tracker => 14,
            Phase::Activity => 13,
            Phase::Prepare => 12,
            Phase::BeforeRun => 11,
            Phase::StopCheck => 10,
            Phase::Render => 9,
            Phase::Build => 8,
            Phase::Start => 7,
            Phase::Deliver => 6,
            Phase::Fetch => 5,
            Phase::Turn => 4,
            Phase::Refresh => 3,
            Phase::Shutdown => 2,
            Phase::AfterRun => 1,
            Phase::Finished => 0nat,
        }
    }
}

/// One attempt at an issue.
#[derive(Debug)]
pub struct Attempt {
    pub issue: Issue,
    pub active_states: Vec<String>,
    pub max_turns: u32,
    pub phase: Phase,
    pub prompt: String,
    pub turn_number: u32,
    pub seen: TextSet,
    pub result: Result<WorkerOutcome, LunaError>,
    pub session_open: bool,
    pub after_run_due: bool,
}

fn unseen_comments(comments: &Vec<Comment>, seen: &TextSet) -> (r: Vec<Comment>)
    ensures
        comment_views(r@) == unseen(comment_views(comments@), seen@),
{
    let mut out: Vec<Comment> = Vec::new();
    let mut i: usize = 0;
    let ghost all = comment_views(comments@);
    assert(comment_views(out@) =~= Seq::<CommentView>::empty());
    while i < comments.len()
        invariant
            i <= comments@.len(),
            all == comment_views(comments@),
            comment_views(out@) == unseen(all.take(i as int), seen@),
        decreases comments@.len() - i,
    {
        let ghost before = comment_views(out@);
        assert(all.take(i + 1).drop_last() =~= all.take(i as int));
        if !seen.contains(comments[i].id.as_str()) {
            out.push(clone_comment(&comments[i]));
            assert(comment_views(out@) =~= before.push(all[i as int]));
        }
        i = i + 1;
    }
    assert(all.take(i as int) =~= all);
    out
}

fn note_ids(seen: &mut TextSet, comments: &Vec<Comment>)
    requires
        old(seen).wf(),
    ensures
        final(seen).wf(),
        final(seen)@ == with_ids(old(seen)@, comment_views(comments@)),
{
    let ghost all = comment_views(comments@);
    let ghost before = seen@;
    let mut i: usize = 0;
    while i < comments.len()
        invariant
            i <= comments@.len(),
            all == comment_views(comments@),
            seen.wf(),
            seen@ == with_ids(before, all.take(i as int)),
        decreases comments@.len() - i,
    {
        assert(all.take(i + 1).drop_last() =~= all.take(i as int));
        let _ = seen.insert(comments[i].id.clone());
        i = i + 1;
    }
    assert(all.take(i as int) =~= all);
}

impl Attempt {
    /// The model of the attempt.
    pub open spec fn view(&self) -> AttemptView {
        AttemptView {
            issue: self.issue@,
            active_states: texts(self.active_states@),
            max_turns: self.max_turns,
            phase: self.phase,
            prompt: self.prompt@,
            turn_number: self.turn_number,
            seen: self.seen@,
            result: result_view(self.result),
            session_open: self.session_open,
            after_run_due: self.after_run_due,
        }
    }

    /// The parts of the attempt are in order.
    pub open spec fn wf(&self) -> bool {
        self.seen.wf() && self@.wf()
    }

    /// A fresh attempt. Its first work is to connect to the tracker.
    pub fn begin(issue: Issue, active_states: Vec<String>, max_turns: u32) -> (r: (Attempt, Action))
        ensures
            r.0.wf(),
            r.0@ == (AttemptView {
                issue: issue@,
                active_states: texts(active_states@),
                max_turns,
                phase: Phase::Tracker,
                prompt: Seq::empty(),
                turn_number: 1,
                seen: Set::empty(),
                result: Ok(OutcomeView::Normal),
                session_open: false,
                after_run_due: false,
            }),
            r.1@ == ActionView::ConnectTracker,
    {
        let attempt = Attempt {
            issue,
            active_states,
            max_turns,
            phase: Phase::Tracker,
            prompt: String::new(),
            turn_number: 1,
            seen: TextSet::new(),
            result: Ok(WorkerOutcome::Normal),
            session_open: false,
            after_run_due: false,
        };
        (attempt, Action::ConnectTracker)
    }

    fn end(&mut self, e: LunaError) -> (r: Action)
        ensures
            (final(self)@, r@) == old(self)@.ends(Err(e@)),
            final(self).seen == old(self).seen,
    {
        let message = e;
        self.phase = Phase::Finished;
        let copy = copy_error(&message);
        self.result = Err(message);
        Action::Finish(Err(copy))
    }

    fn wind_up(&mut self, result: Result<WorkerOutcome, LunaError>) -> (r: Action)
        ensures
            (final(self)@, r@) == old(self)@.winds_up(result_view(result)),
            final(self).seen == old(self).seen,
    {
        self.result = result;
        if self.session_open {
            self.phase = Phase::Shutdown;
            Action::ShutDownSession
        } else {
            self.phase = Phase::AfterRun;
            Action::RunAfterHook
        }
    }

    fn turn(&mut self, comments: Vec<Comment>) -> (r: Action)
        ensures
            final(self)@ == old(self)@.to(Phase::Turn),
            final(self).seen == old(self).seen,
            r@ == old(self)@.turn_action(comment_views(comments@)),
    {
        self.phase = Phase::Turn;
        if self.turn_number == 1 {
            Action::RunFirstTurn(self.prompt.clone())
        } else {
            Action::RunNextTurn {
                turn_number: self.turn_number,
                max_turns: self.max_turns,
                comments,
            }
        }
    }

    fn take_result(&mut self) -> (r: Action)
        ensures
            final(self)@ == (AttemptView {
                phase: Phase::Finished,
                after_run_due: false,
                ..old(self)@
            }),
            final(self).seen == old(self).seen,
            r@ == ActionView::Finish(old(self)@.result),
    {
        self.phase = Phase::Finished;
        self.after_run_due = false;
        let copy = match &self.result {
            Ok(outcome) => Ok(copy_outcome(outcome)),
            Err(e) => Err(copy_error(e)),
        };
        Action::Finish(copy)
    }

    /// Tells the attempt how the work of its phase went, and gives the next work. A
    /// finished attempt has shut its session down and run the hook after the run,
    /// wherever they were owed; every attempt ends after a bounded number of steps.
    #[verifier::spinoff_prover]
    pub fn step(&mut self, event: Event) -> (r: Action)
        requires
            old(self).wf(),
            answers(old(self)@.phase, event@),
        ensures
            final(self).wf(),
            (final(self)@, r@) == old(self)@.step(event@),
    {
        match self.phase {
            Phase::Tracker | Phase::Activity | Phase::Prepare | Phase::BeforeRun => {
                self.step_to_workspace(event)
            },
            Phase::StopCheck | Phase::Render | Phase::Build => self.step_to_session(event),
            Phase::Start | Phase::Deliver | Phase::Fetch => self.step_to_turn(event),
            Phase::Turn | Phase::Refresh => self.step_after_turn(event),
            Phase::Shutdown => {
                self.phase = Phase::AfterRun;
                self.session_open = false;
                Action::RunAfterHook
            },
            Phase::AfterRun => self.take_result(),
            Phase::Finished => Action::CheckStop,
        }
    }

    #[verifier::spinoff_prover]
    fn step_to_workspace(&mut self, event: Event) -> (r: Action)
        requires
            old(self).wf(),
            answers(old(self)@.phase, event@),
            old(self)@.phase == Phase::Tracker || old(self)@.phase == Phase::Activity || old(self)@.phase == Phase::Prepare || old(self)@.phase == Phase::BeforeRun,
        ensures
            final(self).wf(),
            (final(self)@, r@) == old(self)@.step(event@),
    {
        match self.phase {
            Phase::Tracker => match event {
                Event::Failed(e) => self.end(e),
                _ => {
                    self.phase = Phase::Activity;
                    Action::RecordActivity {
                        kind: "agent_started".to_owned(),
                        title: cat("Agent started on ", self.issue.identifier.as_str()),
                        body: cat("Working on: ", self.issue.title.as_str()),
                    }
                },
            },
            Phase::Activity => {
                self.phase = Phase::Prepare;
                Action::PrepareWorkspace(self.issue.identifier.clone())
            },
            Phase::Prepare => match event {
                Event::Failed(e) => self.end(e),
                _ => {
                    self.phase = Phase::BeforeRun;
                    Action::RunBeforeHook
                },
            },
            Phase::BeforeRun => match event {
                Event::Failed(e) => self.end(e),
                _ => {
                    self.phase = Phase::StopCheck;
                    self.after_run_due = true;
                    Action::CheckStop
                },
            },
            _ => Action::CheckStop,
        }
    }

    #[verifier::spinoff_prover]
    fn step_to_session(&mut self, event: Event) -> (r: Action)
        requires
            old(self).wf(),
            answers(old(self)@.phase, event@),
            old(self)@.phase == Phase::StopCheck || old(self)@.phase == Phase::Render || old(self)@.phase == Phase::Build,
        ensures
            final(self).wf(),
            (final(self)@, r@) == old(self)@.step(event@),
    {
        match self.phase {
            Phase::StopCheck => match event {
                Event::Stop(Some(reason)) => self.wind_up(Ok(map_stop_reason(Some(reason)))),
                _ => {
                    self.phase = Phase::Render;
                    Action::RenderPrompt
                },
            },
            Phase::Render => match event {
                Event::Prompt(prompt) => {
                    self.phase = Phase::Build;
                    self.prompt = prompt;
                    Action::BuildSession
                },
                Event::Failed(e) => self.wind_up(Err(e)),
                _ => Action::CheckStop,
            },
            Phase::Build => match event {
                Event::Failed(e) => self.wind_up(Err(e)),
                _ => {
                    self.phase = Phase::Start;
                    self.session_open = true;
                    Action::StartSession
                },
            },
            _ => Action::CheckStop,
        }
    }

    #[verifier::spinoff_prover]
    fn step_to_turn(&mut self, event: Event) -> (r: Action)
        requires
            old(self).wf(),
            answers(old(self)@.phase, event@),
            old(self)@.phase == Phase::Start || old(self)@.phase == Phase::Deliver || old(self)@.phase == Phase::Fetch,
        ensures
            final(self).wf(),
            (final(self)@, r@) == old(self)@.step(event@),
    {
        match self.phase {
            Phase::Start => match event {
                Event::Failed(e) => self.wind_up(Err(e)),
                _ => {
                    self.phase = Phase::Deliver;
                    Action::DeliverComments
                },
            },
            Phase::Deliver => {
                self.phase = Phase::Fetch;
                Action::FetchComments
            },
            Phase::Fetch => match event {
                Event::Comments(comments) => {
                    let new = unseen_comments(&comments, &self.seen);
                    note_ids(&mut self.seen, &new);
                    self.turn(new)
                },
                _ => {
                    let none: Vec<Comment> = Vec::new();
                    assert(comment_views(none@) =~= Seq::<CommentView>::empty());
                    self.turn(none)
                },
            },
            _ => Action::CheckStop,
        }
    }

    #[verifier::spinoff_prover]
    fn step_after_turn(&mut self, event: Event) -> (r: Action)
        requires
            old(self).wf(),
            answers(old(self)@.phase, event@),
            old(self)@.phase == Phase::Turn || old(self)@.phase == Phase::Refresh,
        ensures
            final(self).wf(),
            (final(self)@, r@) == old(self)@.step(event@),
    {
        match self.phase {
            Phase::Turn => match event {
                Event::Turn(TurnExit::Completed) => {
                    self.phase = Phase::Refresh;
                    Action::RefreshIssue(self.issue.id.clone())
                },
                Event::Turn(TurnExit::Failed(reason)) => self.wind_up(
                    Ok(WorkerOutcome::Failed(reason)),
                ),
                Event::Turn(TurnExit::TimedOut) => self.wind_up(Ok(WorkerOutcome::TimedOut)),
                Event::Turn(TurnExit::Stopped(reason)) => self.wind_up(
                    Ok(map_stop_reason(Some(reason))),
                ),
                Event::Failed(e) => self.wind_up(Err(e)),
                _ => Action::CheckStop,
            },
            Phase::Refresh => match event {
                Event::Issues(issues) => self.refreshed(issues),
                Event::Failed(e) => self.wind_up(Err(e)),
                _ => Action::CheckStop,
            },
            _ => Action::CheckStop,
        }
    }

    fn refreshed(&mut self, issues: Vec<Issue>) -> (r: Action)
        requires
            old(self).wf(),
            old(self)@.phase == Phase::Refresh,
        ensures
            final(self).wf(),
            (final(self)@, r@) == old(self)@.step(EventView::Issues(issue_views(issues@))),
    {
        let ghost before = self@;
        let mut issues = issues;
        let ghost all = issue_views(issues@);
        if issues.len() == 0 {
            return self.wind_up(
                Err(
                    LunaError::Tracker(
                        "issue state refresh error: issue missing after turn".to_owned(),
                    ),
                ),
            );
        }
        let issue = issues.remove(0);
        assert(issue@ == all[0]);
        self.issue = issue;
        assert(self@ =~= AttemptView { issue: all[0], ..before });
        if !is_listed(self.active_states.as_slice(), self.issue.state.as_str()) || self.turn_number
            >= self.max_turns {
            return self.wind_up(Ok(WorkerOutcome::Normal));
        }
        self.turn_number = self.turn_number + 1;
        self.phase = Phase::Deliver;
        Action::DeliverComments
    }
}

fn copy_error(e: &LunaError) -> (r: LunaError)
    ensures
        r@ == e@,
{
    match e {
        LunaError::InvalidConfig(m) => LunaError::InvalidConfig(m.clone()),
        LunaError::Tracker(m) => LunaError::Tracker(m.clone()),
        LunaError::Agent(m) => LunaError::Agent(m.clone()),
        LunaError::Workspace(m) => LunaError::Workspace(m.clone()),
        LunaError::Json(m) => LunaError::Json(m.clone()),
        LunaError::Io(m) => LunaError::Io(m.clone()),
    }
}

fn copy_outcome(o: &WorkerOutcome) -> (r: WorkerOutcome)
    ensures
        r@ == o@,
{
    match o {
        WorkerOutcome::Normal => WorkerOutcome::Normal,
        WorkerOutcome::Failed(reason) => WorkerOutcome::Failed(reason.clone()),
        WorkerOutcome::TimedOut => WorkerOutcome::TimedOut,
        WorkerOutcome::Stalled => WorkerOutcome::Stalled,
        WorkerOutcome::CanceledByReconciliation => WorkerOutcome::CanceledByReconciliation,
    }
}

// ---------------------------------------------------------------------------
// Laws
// ---------------------------------------------------------------------------

/// Every step leaves the attempt in order.
pub proof fn step_keeps_order(v: AttemptView, event: EventView)
    requires
        v.wf(),
        answers(v.phase, event),
    ensures
        v.step(event).0.wf(),
{
}

/// An attempt that finishes leaves no session open and owes no hook, and it
/// finishes in no other way.
pub proof fn finish_leaves_nothing_open(v: AttemptView, event: EventView)
    requires
        v.wf(),
        answers(v.phase, event),
    ensures
        (v.step(event).1 is Finish) == (v.step(event).0.phase == Phase::Finished),
        v.step(event).1 is Finish ==> !v.step(event).0.session_open && !v.step(
            event,
        ).0.after_run_due,
{
}

/// Once the hook before the run has succeeded, the attempt finishes only after the
/// hook after the run; and a session that was built is shut down before that hook.
pub proof fn owed_work_is_done_before_the_end(v: AttemptView, event: EventView)
    requires
        v.wf(),
        answers(v.phase, event),
    ensures
        v.after_run_due && v.step(event).1 is Finish ==> v.phase == Phase::AfterRun,
        v.session_open && !v.step(event).0.session_open ==> v.phase == Phase::Shutdown && v.step(
            event,
        ).1 is RunAfterHook,
        v.session_open ==> !(v.step(event).1 is Finish),
{
}

/// Every attempt comes to its end: each step leaves fewer steps to take.
pub proof fn attempt_comes_to_its_end(v: AttemptView, event: EventView)
    requires
        v.wf(),
        answers(v.phase, event),
    ensures
        v.step(event).0.steps_left() < v.steps_left(),
        v.steps_left() == 0 ==> v.phase == Phase::Finished,
{
}

/// A turn is the first one, or it is within the limit of turns.
pub proof fn turns_stay_within_limit(v: AttemptView, event: EventView)
    requires
        v.wf(),
        answers(v.phase, event),
    ensures
        v.step(event).1 is RunFirstTurn ==> v.step(event).0.turn_number == 1,
        v.step(event).1 matches ActionView::RunNextTurn { turn_number, max_turns, comments } ==> 2
            <= turn_number <= max_turns && max_turns == v.max_turns,
{
}

/// An attempt that is told to stop before its session is built never builds one.
pub proof fn stopped_attempt_builds_no_session(v: AttemptView, reason: StopReason)
    requires
        v.wf(),
        v.phase == Phase::StopCheck,
    ensures
        v.step(EventView::Stop(Some(reason))).0.phase == Phase::AfterRun,
        v.step(EventView::Stop(Some(reason))).1 is RunAfterHook,
        v.step(EventView::Stop(Some(reason))).0.step(EventView::Done).1 == ActionView::Finish(
            Ok(outcome_of_stop(Some(reason))),
        ),
{
}

proof fn unseen_is_unseen(comments: Seq<CommentView>, seen: Set<Seq<char>>)
    ensures
        forall|i: int|
            0 <= i < unseen(comments, seen).len() ==> !seen.contains(
                (#[trigger] unseen(comments, seen)[i]).id,
            ),
    decreases comments.len(),
{
    if comments.len() > 0 {
        unseen_is_unseen(comments.drop_last(), seen);
        let rest = unseen(comments.drop_last(), seen);
        assert forall|i: int| 0 <= i < unseen(comments, seen).len() implies !seen.contains(
            (#[trigger] unseen(comments, seen)[i]).id,
        ) by {
            if i < rest.len() {
                assert(unseen(comments, seen)[i] == rest[i]);
            }
        }
    }
}

proof fn with_ids_grows(seen: Set<Seq<char>>, comments: Seq<CommentView>)
    ensures
        seen.subset_of(with_ids(seen, comments)),
        forall|i: int|
            0 <= i < comments.len() ==> with_ids(seen, comments).contains(
                (#[trigger] comments[i]).id,
            ),
    decreases comments.len(),
{
    if comments.len() > 0 {
        with_ids_grows(seen, comments.drop_last());
        assert forall|i: int| 0 <= i < comments.len() implies with_ids(seen, comments).contains(
            (#[trigger] comments[i]).id,
        ) by {
            if i < comments.len() - 1 {
                assert(comments[i] == comments.drop_last()[i]);
            }
        }
    }
}

/// A comment that was shown in one turn is not shown in a later one: what a turn
/// shows was not seen before, and from then on it is.
pub proof fn comments_are_shown_in_one_turn(v: AttemptView, event: EventView)
    requires
        v.wf(),
        answers(v.phase, event),
    ensures
        v.seen.subset_of(v.step(event).0.seen),
        v.step(event).1 matches ActionView::RunNextTurn { turn_number, max_turns, comments } ==> (
        forall|i: int|
            0 <= i < comments.len() ==> !v.seen.contains((#[trigger] comments[i]).id) && v.step(
                event,
            ).0.seen.contains(comments[i].id)),
{
    if v.phase == Phase::Fetch && event is Comments {
        let new = unseen(event->Comments_0, v.seen);
        unseen_is_unseen(event->Comments_0, v.seen);
        with_ids_grows(v.seen, new);
    }
}

} // verus!
