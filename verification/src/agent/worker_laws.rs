//! What an agent's worker does with what it is told.
use vstd::prelude::*;

use crate::agent::angel_runtime::{
    prompt_with_comments, reports_of, session_after, Report, SessionView, TurnRunEvent,
};
use crate::agent::worker::{
    step_reports, taken, worker_step, ActionView, AngelCommand, AnswerView, PhaseView, WorkerInput,
    WorkerView,
};
use crate::error::ErrorView;

verus! {

/// What a command is to come to: everything but what it is about stays as it is.
pub open spec fn keeps_the_rest(before: WorkerView, after: WorkerView) -> bool {
    &&& after.workspace == before.workspace
    &&& after.permission_mode == before.permission_mode
}

/// The first command sets the workspace up: a turn in it that is told to change nothing.
pub proof fn start_prepares_the_workspace(w: WorkerView)
    requires
        w.phase is Idle,
    ensures
        ({
            let (after, action) = worker_step(w, WorkerInput::Command(AngelCommand::Start));
            &&& action == (ActionView::StartTurn {
                text: "Initialize this Luna workspace. Do not make changes yet."@,
                cwd: w.workspace,
                permission_mode: w.permission_mode,
            })
            &&& after.phase == (PhaseView::Starting { first: true, turn: 0 })
            &&& after.pending == w.pending
            &&& after.session == w.session
            &&& keeps_the_rest(w, after)
        }),
{
}

/// A turn is started with its prompt in the workspace, the comments that waited behind
/// the prompt; they wait no more.
pub proof fn turn_is_started_with_its_prompt(w: WorkerView, prompt: String, turn_number: u32)
    requires
        w.phase is Idle,
    ensures
        ({
            let (after, action) = worker_step(
                w,
                WorkerInput::Command(AngelCommand::RunTurn { prompt, turn_number }),
            );
            &&& action == (ActionView::StartTurn {
                text: prompt_with_comments(prompt@, w.pending),
                cwd: w.workspace,
                permission_mode: w.permission_mode,
            })
            &&& after.phase == (PhaseView::Starting { first: false, turn: turn_number })
            &&& after.pending.len() == 0
            &&& after.session == w.session
            &&& keeps_the_rest(w, after)
        }),
{
}

/// A comment is kept behind those that wait and acknowledged; a command to stop stops
/// the turn; and the end of the commands, or a command to end, closes the session.
pub proof fn other_commands_are_carried_out(w: WorkerView, body: String)
    requires
        w.phase is Idle,
    ensures
        ({
            let (after, action) = worker_step(
                w,
                WorkerInput::Command(AngelCommand::SendComment { body }),
            );
            &&& after == (WorkerView {
                pending: w.pending.push(body@),
                phase: PhaseView::Answering,
                ..w
            })
            &&& action == ActionView::Respond(AnswerView::CommentTaken)
        }),
        worker_step(w, WorkerInput::Command(AngelCommand::Cancel)) == (
            WorkerView { phase: PhaseView::Cancelling, ..w },
            ActionView::CancelTurn,
        ),
        worker_step(w, WorkerInput::Command(AngelCommand::Shutdown)) == (
            WorkerView { phase: PhaseView::Closing, ..w },
            ActionView::CloseSession,
        ),
        worker_step(w, WorkerInput::CommandsClosed) == (
            WorkerView { phase: PhaseView::Closing, ..w },
            ActionView::CloseSession,
        ),
{
}

/// Once an answer is given or a turn stopped, the next command is waited for; once the
/// session is closed, there is nothing more to do.
pub proof fn worker_waits_for_the_next_command(w: WorkerView)
    ensures
        w.phase is Answering || w.phase is Cancelling ==> worker_step(w, WorkerInput::Done) == (
            WorkerView { phase: PhaseView::Idle, ..w },
            ActionView::Receive,
        ),
        w.phase is Closing ==> worker_step(w, WorkerInput::Done) == (
            WorkerView { phase: PhaseView::Closed, ..w },
            ActionView::Finish,
        ),
{
}

/// Events are taken in one after the other: an event that asks nothing is reported and
/// changes the session, and what is behind it follows. A question ends it.
pub proof fn events_are_taken_in_turn(
    s: SessionView,
    event: TurnRunEvent,
    behind: Seq<TurnRunEvent>,
    turn: u32,
)
    ensures
        ({
            let none = taken(s, Seq::empty(), turn);
            none.session == s && none.reports.len() == 0 && none.question is None
        }),
        ({
            let t = taken(s, seq![event] + behind, turn);
            let rest = taken(session_after(s, event), behind, turn);
            &&& !(event is Elicitation) ==> t.session == rest.session && t.question
                == rest.question && t.reports == reports_of(s, event, turn) + rest.reports
            &&& event is Elicitation ==> t.session == session_after(s, event) && t.question
                == Some((event->elicitation.id@, behind)) && t.reports == reports_of(s, event, turn)
        }),
{
    let all = seq![event] + behind;
    assert(all[0] == event);
    assert(all.drop_first() =~= behind);
}

/// An event that a turn is polled for is reported. A question in it is allowed for the
/// session; a result ends the turn; and after anything else the next event is polled
/// for.
pub proof fn polled_event_is_reported_and_acted_on(
    w: WorkerView,
    first: bool,
    turn: u32,
    event: TurnRunEvent,
)
    requires
        w.phase == (PhaseView::Polling { first, turn }),
    ensures
        ({
            let input = WorkerInput::Polled(Some(event));
            let (after, action) = worker_step(w, input);
            &&& step_reports(w, input) == reports_of(w.session, event, turn)
            &&& after.session == session_after(w.session, event)
            &&& after.pending == w.pending
            &&& keeps_the_rest(w, after)
            &&& event is Elicitation ==> action == ActionView::AllowForSession(
                event->elicitation.id@,
            ) && after.phase == (PhaseView::Resolving { first, turn, ends: false, rest: Seq::empty() })
            &&& event is Result ==> after.phase is Answering && action == ActionView::Respond(
                if first {
                    AnswerView::Started(Ok(()))
                } else {
                    AnswerView::Turn(Ok(()))
                },
            )
            &&& !(event is Elicitation) && !(event is Result) ==> action == ActionView::Poll(250)
                && after.phase == w.phase
        }),
{
    let none = Seq::<TurnRunEvent>::empty();
    events_are_taken_in_turn(w.session, event, none, turn);
    assert(seq![event] + none =~= seq![event]);
    assert(reports_of(w.session, event, turn) + Seq::<Report>::empty() =~= reports_of(
        w.session,
        event,
        turn,
    ));
    assert(taken(session_after(w.session, event), none, turn).reports =~= Seq::empty());
}

/// A turn that nothing is heard of is polled again, and nothing is reported of it.
pub proof fn silent_turn_is_polled_again(w: WorkerView)
    requires
        w.phase is Polling,
    ensures
        worker_step(w, WorkerInput::Polled(None)) == (w, ActionView::Poll(250)),
        step_reports(w, WorkerInput::Polled(None)).len() == 0,
{
}

/// What the start of a turn or the answer to a question brings is taken in before what
/// was there already. The next question is allowed; where there is none, the turn is
/// polled, or is answered where it had ended.
pub proof fn events_lead_to_the_next_step(
    w: WorkerView,
    events: Vec<TurnRunEvent>,
    rest: Seq<TurnRunEvent>,
    first: bool,
    turn: u32,
    ends: bool,
)
    requires
        w.phase == (PhaseView::Resolving { first, turn, ends, rest }) || (w.phase == (
        PhaseView::Starting { first, turn }) && rest.len() == 0 && !ends),
    ensures
        ({
            let input = WorkerInput::Events(events);
            let (after, action) = worker_step(w, input);
            let t = taken(w.session, events@ + rest, turn);
            &&& step_reports(w, input) == t.reports
            &&& after.session == t.session
            &&& after.pending == w.pending
            &&& keeps_the_rest(w, after)
            &&& t.question is Some ==> action == ActionView::AllowForSession(t.question->Some_0.0)
                && after.phase == (PhaseView::Resolving {
                first,
                turn,
                ends,
                rest: t.question->Some_0.1,
            })
            &&& t.question is None && !ends ==> action == ActionView::Poll(250) && after.phase == (
            PhaseView::Polling { first, turn })
            &&& t.question is None && ends ==> after.phase is Answering && action
                == ActionView::Respond(
                if first {
                    AnswerView::Started(Ok(()))
                } else {
                    AnswerView::Turn(Ok(()))
                },
            )
        }),
{
    if w.phase is Starting {
        assert(events@ + rest =~= events@);
    }
}

/// A failure of the runtime in a turn ends the turn, with the failure told.
pub proof fn failed_turn_is_answered(w: WorkerView, first: bool, turn: u32, message: String)
    requires
        w.phase == (PhaseView::Starting { first, turn }) || w.phase == (PhaseView::Polling {
            first,
            turn,
        }) || (w.phase is Resolving && w.phase->Resolving_first == first),
    ensures
        ({
            let input = WorkerInput::Failed(message);
            let (after, action) = worker_step(w, input);
            let why = Err::<(), ErrorView>(
                ErrorView::Agent("angel-engine client error: "@ + message@),
            );
            &&& step_reports(w, input).len() == 0
            &&& after == (WorkerView { phase: PhaseView::Answering, ..w })
            &&& action == ActionView::Respond(
                if first {
                    AnswerView::Started(why)
                } else {
                    AnswerView::Turn(why)
                },
            )
        }),
{
}

} // verus!
