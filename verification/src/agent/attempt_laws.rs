//! What an attempt at an issue is for.
use vstd::prelude::*;

use crate::agent::attempt::{
    answers, unseen, with_ids, ActionView, AttemptView, EventView, Phase, TurnView,
};
use crate::agent::{outcome_of_stop, OutcomeView, StopReason};
use crate::config::listed;
use crate::error::ErrorView;
use crate::model::{CommentView, IssueView};

verus! {

/// An attempt that goes well works in this order: it tells the tracker that it has
/// begun, whether or not that is taken; it prepares the workspace of the issue and runs
/// the hook before the run; unless it was told to stop, it renders the prompt, builds a
/// session and starts it; and it hands over and fetches comments before it runs the
/// first turn with that prompt.
pub proof fn attempt_prepares_before_its_first_turn(
    v: AttemptView,
    taken: EventView,
    prompt: Seq<char>,
    comments: EventView,
)
    requires
        v.wf(),
        v.phase == Phase::Tracker,
        v.turn_number == 1,
        taken is Done || taken is Failed,
        comments is Comments || comments is Failed,
    ensures
        ({
            let (v1, a1) = v.step(EventView::Done);
            let (v2, a2) = v1.step(taken);
            let (v3, a3) = v2.step(EventView::Done);
            let (v4, a4) = v3.step(EventView::Done);
            let (v5, a5) = v4.step(EventView::Stop(None));
            let (v6, a6) = v5.step(EventView::Prompt(prompt));
            let (v7, a7) = v6.step(EventView::Done);
            let (v8, a8) = v7.step(EventView::Done);
            let (v9, a9) = v8.step(EventView::Done);
            let (v10, a10) = v9.step(comments);
            &&& a1 == (ActionView::RecordActivity {
                kind: "agent_started"@,
                title: "Agent started on "@ + v.issue.identifier,
                body: "Working on: "@ + v.issue.title,
            })
            &&& a2 == ActionView::PrepareWorkspace(v.issue.identifier)
            &&& a3 == ActionView::RunBeforeHook
            &&& a4 == ActionView::CheckStop
            &&& a5 == ActionView::RenderPrompt
            &&& a6 == ActionView::BuildSession
            &&& a7 == ActionView::StartSession
            &&& a8 == ActionView::DeliverComments
            &&& a9 == ActionView::FetchComments
            &&& a10 == ActionView::RunFirstTurn(prompt)
            &&& v10.phase == Phase::Turn
            &&& v10.turn_number == 1
            &&& v10.issue == v.issue
        }),
{
}

/// After a turn that was completed the issue is fetched again, under its id. Where it
/// is still to be worked on and turns are left, comments are handed over and fetched,
/// and the next turn is run: its number is one higher, and it shows the comments that
/// were not seen before.
pub proof fn work_goes_on_while_the_issue_is_active(
    v: AttemptView,
    issues: Seq<IssueView>,
    comments: Seq<CommentView>,
)
    requires
        v.wf(),
        v.phase == Phase::Turn,
        issues.len() > 0,
        listed(v.active_states, issues[0].state),
        v.turn_number < v.max_turns,
    ensures
        ({
            let (v1, a1) = v.step(EventView::Turn(TurnView::Completed));
            let (v2, a2) = v1.step(EventView::Issues(issues));
            let (v3, a3) = v2.step(EventView::Done);
            let (v4, a4) = v3.step(EventView::Comments(comments));
            &&& a1 == ActionView::RefreshIssue(v.issue.id)
            &&& a2 == ActionView::DeliverComments
            &&& a3 == ActionView::FetchComments
            &&& v4.phase == Phase::Turn
            &&& v4.turn_number == v.turn_number + 1
            &&& v4.issue == issues[0]
            &&& a4 matches ActionView::RunNextTurn { turn_number, max_turns, comments: shown }
                && turn_number == v.turn_number + 1 && max_turns == v.max_turns
                && (forall|c: CommentView| #[trigger]
                shown.contains(c) <==> comments.contains(c) && !v.seen.contains(c.id))
        }),
{
    unseen_are_those_not_seen(comments, v.seen);
}

/// Where the comments cannot be fetched the turn is run without any.
pub proof fn missing_comments_do_not_keep_a_turn_back(v: AttemptView, e: ErrorView)
    requires
        v.wf(),
        v.phase == Phase::Fetch,
    ensures
        v.turn_number == 1 ==> v.step(EventView::Failed(e)).1 == ActionView::RunFirstTurn(v.prompt),
        v.turn_number > 1 ==> v.step(EventView::Failed(e)).1 == (ActionView::RunNextTurn {
            turn_number: v.turn_number,
            max_turns: v.max_turns,
            comments: Seq::empty(),
        }),
        v.step(EventView::Failed(e)).0 == (AttemptView { phase: Phase::Turn, ..v }),
{
}

proof fn unseen_are_those_not_seen(comments: Seq<CommentView>, seen: Set<Seq<char>>)
    ensures
        forall|c: CommentView| #[trigger]
            unseen(comments, seen).contains(c) <==> comments.contains(c) && !seen.contains(c.id),
    decreases comments.len(),
{
    if comments.len() > 0 {
        let rest = comments.drop_last();
        let last = comments.last();
        unseen_are_those_not_seen(rest, seen);
        let before = unseen(rest, seen);
        let all = unseen(comments, seen);
        assert forall|c: CommentView| #[trigger] all.contains(c) <==> comments.contains(c)
            && !seen.contains(c.id) by {
            assert(before.contains(c) <==> rest.contains(c) && !seen.contains(c.id));
            if rest.contains(c) {
                let i = rest.index_of(c);
                assert(comments[i] == c);
            }
            if c == last {
                assert(comments[comments.len() - 1] == c);
                if !seen.contains(c.id) {
                    assert(all[before.len() as int] == c);
                }
            }
            if comments.contains(c) && c != last {
                let i = comments.index_of(c);
                assert(rest[i] == c);
            }
            if before.contains(c) {
                let i = before.index_of(c);
                assert(all[i] == c);
            }
            if all.contains(c) {
                let i = all.index_of(c);
                if i < before.len() {
                    assert(before[i] == c);
                }
            }
        }
    }
}

/// The comments of a turn keep the order in which they were fetched: those of a longer
/// list are those of its first part and then those of the rest.
pub proof fn comments_are_shown_in_order(
    first: Seq<CommentView>,
    rest: Seq<CommentView>,
    seen: Set<Seq<char>>,
)
    ensures
        unseen(first + rest, seen) == unseen(first, seen) + unseen(rest, seen),
    decreases rest.len(),
{
    if rest.len() == 0 {
        assert(first + rest =~= first);
        assert(unseen(first, seen) + unseen(rest, seen) =~= unseen(first, seen));
    } else {
        comments_are_shown_in_order(first, rest.drop_last(), seen);
        assert((first + rest).drop_last() =~= first + rest.drop_last());
        assert(unseen(first + rest, seen) =~= unseen(first, seen) + unseen(rest, seen));
    }
}

/// What an attempt with an open session does once it is settled how it ends: it shuts
/// the session down, runs the hook after the run, and ends like that.
pub open spec fn puts_away(v: AttemptView, event: EventView, result: Result<OutcomeView, ErrorView>) -> bool {
    let (v1, a1) = v.step(event);
    let (v2, a2) = v1.step(EventView::Done);
    let (v3, a3) = v2.step(EventView::Done);
    &&& a1 == ActionView::ShutDownSession
    &&& a2 == ActionView::RunAfterHook
    &&& a3 == ActionView::Finish(result)
    &&& v3.phase == Phase::Finished
    &&& !v3.session_open
    &&& !v3.after_run_due
}

/// What an attempt without a session does once it is settled how it ends, after the
/// hook before the run: it runs the hook after the run, and ends like that.
pub open spec fn runs_the_hook_and_ends(
    v: AttemptView,
    event: EventView,
    result: Result<OutcomeView, ErrorView>,
) -> bool {
    let (v1, a1) = v.step(event);
    let (v2, a2) = v1.step(EventView::Done);
    &&& a1 == ActionView::RunAfterHook
    &&& a2 == ActionView::Finish(result)
    &&& v2.phase == Phase::Finished
}

/// An attempt ends well just where the issue, fetched after a completed turn, is no
/// longer to be worked on, or no turn is left.
pub proof fn attempt_ends_well_only_when_the_work_is_done(v: AttemptView, event: EventView)
    requires
        v.wf(),
        answers(v.phase, event),
    ensures
        v.phase == Phase::Refresh && event is Issues && event->Issues_0.len() > 0 && (!listed(
            v.active_states,
            event->Issues_0[0].state,
        ) || v.turn_number >= v.max_turns) ==> puts_away(v, event, Ok(OutcomeView::Normal)),
        v.phase != Phase::Shutdown && v.phase != Phase::AfterRun && (v.step(event).1
            is ShutDownSession || v.step(event).1 is RunAfterHook || v.step(event).1 is Finish)
            && v.step(event).0.result == Ok::<OutcomeView, ErrorView>(OutcomeView::Normal) ==> {
            &&& v.phase == Phase::Refresh
            &&& event is Issues && event->Issues_0.len() > 0
            &&& !listed(v.active_states, event->Issues_0[0].state) || v.turn_number >= v.max_turns
        },
        v.phase == Phase::Shutdown || v.phase == Phase::AfterRun ==> v.step(event).0.result
            == v.result,
{
}

/// A turn that fails, runs out of time or is told to stop ends the attempt with that
/// outcome, and the session is put away. An agent that had stalled counts as stalled;
/// one that was told to stop for any other reason counts as called off.
pub proof fn end_of_a_turn_decides_the_outcome(v: AttemptView, reason: Seq<char>, e: ErrorView)
    requires
        v.wf(),
        v.phase == Phase::Turn,
    ensures
        puts_away(v, EventView::Turn(TurnView::Failed(reason)), Ok(OutcomeView::Failed(reason))),
        puts_away(v, EventView::Turn(TurnView::TimedOut), Ok(OutcomeView::TimedOut)),
        puts_away(
            v,
            EventView::Turn(TurnView::Stopped(StopReason::Stalled)),
            Ok(OutcomeView::Stalled),
        ),
        puts_away(
            v,
            EventView::Turn(TurnView::Stopped(StopReason::Terminal)),
            Ok(OutcomeView::CanceledByReconciliation),
        ),
        puts_away(
            v,
            EventView::Turn(TurnView::Stopped(StopReason::NonActive)),
            Ok(OutcomeView::CanceledByReconciliation),
        ),
        puts_away(
            v,
            EventView::Turn(TurnView::Stopped(StopReason::Shutdown)),
            Ok(OutcomeView::CanceledByReconciliation),
        ),
        puts_away(v, EventView::Failed(e), Err(e)),
{
}

/// What fails before the hook before the run has succeeded ends the attempt at once,
/// with that error. What fails later ends it with that error once the hook after the
/// run has run, and once the session is shut down where there is one. Only an activity
/// that cannot be recorded, and comments that cannot be fetched, do not matter.
pub proof fn failures_end_the_attempt(v: AttemptView, e: ErrorView)
    requires
        v.wf(),
    ensures
        v.phase == Phase::Tracker || v.phase == Phase::Prepare || v.phase == Phase::BeforeRun
            ==> v.step(EventView::Failed(e)).1 == ActionView::Finish(Err(e)) && v.step(
            EventView::Failed(e),
        ).0.phase == Phase::Finished,
        v.phase == Phase::Render || v.phase == Phase::Build ==> runs_the_hook_and_ends(
            v,
            EventView::Failed(e),
            Err(e),
        ),
        v.phase == Phase::Start || v.phase == Phase::Refresh ==> puts_away(
            v,
            EventView::Failed(e),
            Err(e),
        ),
        v.phase == Phase::Refresh ==> puts_away(
            v,
            EventView::Issues(Seq::empty()),
            Err(ErrorView::Tracker("issue state refresh error: issue missing after turn"@)),
        ),
        v.phase == Phase::Activity ==> v.step(EventView::Failed(e)) == v.step(EventView::Done),
{
}

/// An attempt that was told to stop before its session was built runs the hook after
/// the run and ends: as stalled where it had stalled, else as called off.
pub proof fn early_stop_ends_the_attempt(v: AttemptView)
    requires
        v.wf(),
        v.phase == Phase::StopCheck,
    ensures
        runs_the_hook_and_ends(
            v,
            EventView::Stop(Some(StopReason::Stalled)),
            Ok(OutcomeView::Stalled),
        ),
        runs_the_hook_and_ends(
            v,
            EventView::Stop(Some(StopReason::Terminal)),
            Ok(OutcomeView::CanceledByReconciliation),
        ),
        runs_the_hook_and_ends(
            v,
            EventView::Stop(Some(StopReason::NonActive)),
            Ok(OutcomeView::CanceledByReconciliation),
        ),
        runs_the_hook_and_ends(
            v,
            EventView::Stop(Some(StopReason::Shutdown)),
            Ok(OutcomeView::CanceledByReconciliation),
        ),
        outcome_of_stop(None) == OutcomeView::CanceledByReconciliation,
{
}

/// What an attempt goes by does not change on the way: neither the states to work in
/// nor the limit of turns. The issue changes only when it is fetched again, the prompt
/// only when it is rendered, the number of the turn only by one and only then; and what
/// was seen only by the comments that are fetched.
pub proof fn attempt_keeps_what_it_goes_by(v: AttemptView, event: EventView)
    requires
        v.wf(),
        answers(v.phase, event),
    ensures
        ({
            let after = v.step(event).0;
            &&& after.active_states == v.active_states
            &&& after.max_turns == v.max_turns
            &&& after.issue == v.issue || (v.phase == Phase::Refresh && event is Issues
                && event->Issues_0.len() > 0 && after.issue == event->Issues_0[0])
            &&& after.prompt == v.prompt || (v.phase == Phase::Render && event
                == EventView::Prompt(after.prompt))
            &&& after.turn_number == v.turn_number || (v.phase == Phase::Refresh
                && after.turn_number == v.turn_number + 1 && after.turn_number <= v.max_turns)
            &&& v.phase != Phase::Fetch ==> after.seen == v.seen
            &&& v.phase == Phase::Fetch && event is Comments ==> forall|id: Seq<char>| #[trigger]
                after.seen.contains(id) <==> v.seen.contains(id) || exists|i: int|
                    0 <= i < event->Comments_0.len() && (#[trigger] event->Comments_0[i]).id == id
            &&& v.phase == Phase::Fetch && event is Failed ==> after.seen == v.seen
        }),
{
    if v.phase == Phase::Fetch && event is Comments {
        let comments = event->Comments_0;
        let new = unseen(comments, v.seen);
        unseen_are_those_not_seen(comments, v.seen);
        ids_are_those_of_comments(v.seen, new);
        let after = v.step(event).0;
        assert forall|id: Seq<char>| #[trigger] after.seen.contains(id) <==> v.seen.contains(id)
            || exists|i: int| 0 <= i < comments.len() && (#[trigger] comments[i]).id == id by {
            if exists|i: int| 0 <= i < new.len() && (#[trigger] new[i]).id == id {
                let i = choose|i: int| 0 <= i < new.len() && (#[trigger] new[i]).id == id;
                assert(new.contains(new[i]));
                assert(comments.contains(new[i]));
                let j = comments.index_of(new[i]);
                assert(comments[j].id == id);
            }
            if exists|i: int| 0 <= i < comments.len() && (#[trigger] comments[i]).id == id {
                let i = choose|i: int| 0 <= i < comments.len() && (#[trigger] comments[i]).id == id;
                if !v.seen.contains(id) {
                    assert(comments.contains(comments[i]));
                    assert(new.contains(comments[i]));
                    let j = new.index_of(comments[i]);
                    assert(new[j].id == id);
                }
            }
        }
    }
}

proof fn ids_are_those_of_comments(seen: Set<Seq<char>>, comments: Seq<CommentView>)
    ensures
        forall|id: Seq<char>| #[trigger]
            with_ids(seen, comments).contains(id) <==> seen.contains(id) || exists|i: int|
                0 <= i < comments.len() && (#[trigger] comments[i]).id == id,
    decreases comments.len(),
{
    if comments.len() > 0 {
        let rest = comments.drop_last();
        ids_are_those_of_comments(seen, rest);
        let before = with_ids(seen, rest);
        assert forall|id: Seq<char>| #[trigger]
            with_ids(seen, comments).contains(id) <==> seen.contains(id) || exists|i: int|
            0 <= i < comments.len() && (#[trigger] comments[i]).id == id by {
            assert(before.contains(id) <==> seen.contains(id) || exists|i: int|
                0 <= i < rest.len() && (#[trigger] rest[i]).id == id);
            if id == comments.last().id {
                assert(comments[comments.len() - 1].id == id);
            }
            if exists|i: int| 0 <= i < rest.len() && (#[trigger] rest[i]).id == id {
                let i = choose|i: int| 0 <= i < rest.len() && (#[trigger] rest[i]).id == id;
                assert(comments[i].id == id);
            }
            if exists|i: int| 0 <= i < comments.len() && (#[trigger] comments[i]).id == id {
                let i = choose|i: int| 0 <= i < comments.len() && (#[trigger] comments[i]).id == id;
                if i < rest.len() {
                    assert(rest[i].id == id);
                }
            }
        }
    }
}

} // verus!
