//! Agents: their commands, their events and their attempts.
use vstd::prelude::*;

use crate::error::LunaError;
use crate::text::opt_text;
use crate::time::Timestamp;

pub mod angel_runtime;
pub mod attempt;
pub mod attempt_laws;
pub mod command_line;
pub mod event_laws;
pub mod worker;
pub mod worker_laws;

verus! {

/// Why a running agent is told to stop.
#[derive(Clone, Copy, Debug, PartialEq, Eq, Structural)]
pub enum StopReason {
    NonActive,
    Terminal,
    Stalled,
    Shutdown,
}

/// The tokens that one agent has used so far.
#[derive(Clone, Copy, Debug, PartialEq, Eq, Structural)]
pub struct UsageUpdate {
    pub input_tokens: u64,
    pub output_tokens: u64,
    pub total_tokens: u64,
}

/// News of an agent's session. The rate limits are a JSON text.
#[derive(Clone, Debug)]
pub struct SessionUpdate {
    pub issue_id: String,
    pub issue_identifier: String,
    pub event: String,
    pub timestamp: Timestamp,
    pub session_id: Option<String>,
    pub thread_id: Option<String>,
    pub turn_id: Option<String>,
    pub agent_pid: Option<u32>,
    pub message: Option<String>,
    pub usage: Option<UsageUpdate>,
    pub rate_limits: Option<String>,
    pub turn_count: Option<u32>,
}

/// How an attempt at an issue ended.
#[derive(Clone, Debug)]
pub enum WorkerOutcome {
    Normal,
    Failed(String),
    TimedOut,
    Stalled,
    CanceledByReconciliation,
}

/// The end of an attempt at an issue.
#[derive(Clone, Debug)]
pub struct WorkerExit {
    pub issue_id: String,
    pub issue_identifier: String,
    pub outcome: WorkerOutcome,
    pub error: Option<String>,
}

/// A shell command that an agent ran.
#[derive(Clone, Debug)]
pub struct CommandExecutionEvent {
    pub issue_id: String,
    pub issue_identifier: String,
    pub command: String,
    pub cwd: Option<String>,
    pub duration_ms: Option<i64>,
    pub exit_code: Option<i64>,
}

/// What workers report.
#[derive(Clone, Debug)]
pub enum WorkerEvent {
    Session(SessionUpdate),
    Exited(WorkerExit),
    RetryDue(String),
    CommandExecuted(CommandExecutionEvent),
}

/// How a turn of an agent ended.
#[derive(Clone, Debug)]
pub enum TurnExit {
    Completed,
    Failed(String),
    TimedOut,
    Stopped(StopReason),
}

/// The model of an outcome.
pub enum OutcomeView {
    Normal,
    Failed(Seq<char>),
    TimedOut,
    Stalled,
    CanceledByReconciliation,
}

impl View for WorkerOutcome {
    type V = OutcomeView;

    open spec fn view(&self) -> OutcomeView {
        match self {
            WorkerOutcome::Normal => OutcomeView::Normal,
            WorkerOutcome::Failed(reason) => OutcomeView::Failed(reason@),
            WorkerOutcome::TimedOut => OutcomeView::TimedOut,
            WorkerOutcome::Stalled => OutcomeView::Stalled,
            WorkerOutcome::CanceledByReconciliation => OutcomeView::CanceledByReconciliation,
        }
    }
}

/// The outcome of an attempt that was told to stop: one that had stalled is tried
/// again, any other was called off.
pub open spec fn outcome_of_stop(reason: Option<StopReason>) -> OutcomeView {
    if reason == Some(StopReason::Stalled) {
        OutcomeView::Stalled
    } else {
        OutcomeView::CanceledByReconciliation
    }
}

/// The outcome of an attempt that was told to stop.
pub fn map_stop_reason(reason: Option<StopReason>) -> (r: WorkerOutcome)
    ensures
        r@ == outcome_of_stop(reason),
{
    match reason {
        Some(StopReason::Stalled) => WorkerOutcome::Stalled,
        _ => WorkerOutcome::CanceledByReconciliation,
    }
}

/// The words for an outcome; a normal one needs none.
pub open spec fn outcome_reason(outcome: OutcomeView) -> Option<Seq<char>> {
    match outcome {
        OutcomeView::Normal => None,
        OutcomeView::Failed(reason) => Some(reason),
        OutcomeView::TimedOut => Some("turn_timeout"@),
        OutcomeView::Stalled => Some("stalled"@),
        OutcomeView::CanceledByReconciliation => Some("canceled_by_reconciliation"@),
    }
}

/// The end of an attempt, as it is reported: an error is a failure for that reason.
pub fn exit_report(
    issue_id: String,
    issue_identifier: String,
    result: Result<WorkerOutcome, LunaError>,
) -> (r: WorkerExit)
    ensures
        r.issue_id == issue_id,
        r.issue_identifier == issue_identifier,
        r.outcome@ == match result {
            Ok(outcome) => outcome@,
            Err(e) => OutcomeView::Failed(e@.message()),
        },
        opt_text(r.error) == outcome_reason(r.outcome@),
{
    match result {
        Ok(outcome) => {
            let error = match &outcome {
                WorkerOutcome::Normal => None,
                WorkerOutcome::Failed(reason) => Some(reason.clone()),
                WorkerOutcome::TimedOut => Some("turn_timeout".to_owned()),
                WorkerOutcome::Stalled => Some("stalled".to_owned()),
                WorkerOutcome::CanceledByReconciliation => Some(
                    "canceled_by_reconciliation".to_owned(),
                ),
            };
            WorkerExit { issue_id, issue_identifier, outcome, error }
        },
        Err(e) => WorkerExit {
            issue_id,
            issue_identifier,
            outcome: WorkerOutcome::Failed(e.message()),
            error: Some(e.message()),
        },
    }
}

/// An attempt that stalled is told apart from one that was called off for another reason or
/// for none; and every outcome but a normal one has its words.
pub proof fn outcomes_are_told_apart(reason: Option<StopReason>, why: Seq<char>)
    ensures
        outcome_of_stop(Some(StopReason::Stalled)) is Stalled,
        reason != Some(StopReason::Stalled) ==> outcome_of_stop(reason)
            is CanceledByReconciliation,
        outcome_reason(OutcomeView::Normal) is None,
        outcome_reason(OutcomeView::Failed(why)) == Some(why),
        outcome_reason(OutcomeView::TimedOut) == Some("turn_timeout"@),
        outcome_reason(OutcomeView::Stalled) == Some("stalled"@),
        outcome_reason(OutcomeView::CanceledByReconciliation) == Some(
            "canceled_by_reconciliation"@,
        ),
{
}

} // verus!
