//! What following the events of a turn is for.
use vstd::prelude::*;

use crate::agent::angel_runtime::{
    carries, prompt_with_comments, reports_of, session_after, shortened, AngelEventContext, Report,
    SessionView, TurnAction, TurnRunEvent,
};
use crate::agent::WorkerEvent;
use crate::text::{joined, trimmed};
use crate::time::Timestamp;

verus! {

/// What the agent does, where an event tells of that, for the first time or again.
pub open spec fn told_action(event: TurnRunEvent) -> Option<TurnAction> {
    match event {
        TurnRunEvent::ActionObserved { action } => Some(action),
        TurnRunEvent::ActionUpdated { action } => Some(action),
        _ => None,
    }
}

/// The id of the turn that an event names; empty where it names none.
pub open spec fn named_turn(event: TurnRunEvent) -> Seq<char> {
    match event {
        TurnRunEvent::Delta { text, turn_id: Some(id) } => id@,
        TurnRunEvent::ActionObserved { action } => action.turn_id@,
        TurnRunEvent::ActionUpdated { action } => action.turn_id@,
        TurnRunEvent::ActionOutputDelta { turn_id } => turn_id@,
        TurnRunEvent::Elicitation { elicitation } => match elicitation.turn_id {
            Some(id) => id@,
            None => Seq::empty(),
        },
        TurnRunEvent::PlanUpdated { turn_id: Some(id) } => id@,
        TurnRunEvent::Result { result } => match result.turn_id {
            Some(id) => id@,
            None => Seq::empty(),
        },
        _ => Seq::empty(),
    }
}

/// A command that an agent has run is reported once, whether the event is the first to
/// tell of it or a later one: where it is complete and without error, the report holds
/// what its summary says, or else its input. No other event reports a command.
pub proof fn each_finished_command_is_reported(s: SessionView, event: TurnRunEvent, turn: u32)
    ensures
        ({
            let reports = reports_of(s, event, turn);
            let ran = told_action(event) matches Some(action) && action.kind@ == "command"@
                && action.phase@ == "completed"@ && !action.has_error && (action.input_summary is Some
                || action.raw_input is Some);
            &&& ran ==> {
                let action = told_action(event)->Some_0;
                &&& reports.len() > 0
                &&& reports.last() == Report::Command(
                    if action.input_summary is Some {
                        action.input_summary->Some_0@
                    } else {
                        action.raw_input->Some_0@
                    },
                )
                &&& forall|i: int|
                    0 <= i < reports.len() - 1 ==> !((#[trigger] reports[i]) is Command)
            }
            &&& !ran ==> forall|i: int|
                0 <= i < reports.len() ==> !((#[trigger] reports[i]) is Command)
        }),
{
}

/// An event that names a turn reports first that the turn has started, under the ids
/// that the session then has; an event that names none reports no such thing.
pub proof fn named_turn_is_reported_first(s: SessionView, event: TurnRunEvent, turn: u32)
    ensures
        ({
            let reports = reports_of(s, event, turn);
            &&& named_turn(event).len() > 0 ==> {
                &&& reports.len() > 0
                &&& reports[0] matches Report::Session {
                    event: name,
                    session,
                    message,
                    usage,
                    turn_count,
                } && name == "turn/started"@ && session.turn_id == Some(named_turn(event))
                    && message is None && usage is None && turn_count == turn
                    && (session.thread_id is Some ==> session.session_id == Some(
                    session.thread_id->Some_0 + "-"@ + named_turn(event),
                ))
                &&& forall|i: int|
                    0 < i < reports.len() ==> !((#[trigger] reports[i]) matches Report::Session {
                        event: name,
                        ..
                    } && name == "turn/started"@)
            }
            &&& named_turn(event).len() == 0 ==> forall|i: int|
                0 <= i < reports.len() ==> !((#[trigger] reports[i]) matches Report::Session {
                    event: name,
                    ..
                } && name == "turn/started"@)
        }),
{
    reveal_strlit("turn/completed");
    reveal_strlit("turn/started");
    reveal_strlit("item/agentMessage/delta");
    reveal_strlit("thread/tokenUsage/updated");
    assert("turn/completed"@.len() == 14);
    assert("turn/started"@.len() == 12);
    assert("item/agentMessage/delta"@.len() == 23);
    assert("thread/tokenUsage/updated"@.len() == 25);
}

/// What an agent says is reported behind the turn, cut after 512 characters.
pub proof fn what_the_agent_says_is_reported(s: SessionView, event: TurnRunEvent, turn: u32)
    requires
        event is Delta,
    ensures
        ({
            let reports = reports_of(s, event, turn);
            let text = event->Delta_text@;
            let named: int = if named_turn(event).len() > 0 {
                1
            } else {
                0
            };
            &&& reports.len() == named + 1
            &&& reports.last() matches Report::Session {
                event: name,
                session,
                message,
                usage,
                turn_count,
            } && name == "item/agentMessage/delta"@ && session == session_after(s, event)
                && usage is None && turn_count == turn && (text.len() <= 512 ==> message
                == Some(text)) && (text.len() > 512 ==> message == Some(text.take(512) + "..."@))
        }),
{
}

/// The end of a turn reports the tokens that the conversation has used, where they are
/// known, as input and as total; and then that the turn is completed. The thread is
/// that of the conversation, or else the one that the result names, or else the one
/// that was known.
pub proof fn end_of_a_turn_is_reported_with_its_tokens(
    s: SessionView,
    event: TurnRunEvent,
    turn: u32,
)
    requires
        event is Result,
    ensures
        ({
            let result = event->Result_result;
            let reports = reports_of(s, event, turn);
            let after = session_after(s, event);
            let named: int = if named_turn(event).len() > 0 {
                1
            } else {
                0
            };
            let used = match result.conversation {
                Some(c) => c.used_tokens,
                None => None,
            };
            &&& reports.len() == named + (if used is Some {
                2int
            } else {
                1int
            })
            &&& reports.last() matches Report::Session {
                event: name,
                session,
                message,
                usage,
                turn_count,
            } && name == "turn/completed"@ && session == after && message is None && usage is None
                && turn_count == turn
            &&& used is Some ==> (reports[named] matches Report::Session {
                event: name,
                session,
                message,
                usage,
                turn_count,
            } && name == "thread/tokenUsage/updated"@ && session == after && message is None
                && turn_count == turn && usage is Some && usage->Some_0.input_tokens
                == used->Some_0 && usage->Some_0.total_tokens == used->Some_0
                && usage->Some_0.output_tokens == 0)
            &&& result.conversation matches Some(c) ==> after.thread_id == Some(
                if c.remote_id is Some {
                    c.remote_id->Some_0@
                } else {
                    c.id@
                },
            )
            &&& result.conversation is None && result.remote_thread_id is Some ==> after.thread_id
                == Some(result.remote_thread_id->Some_0@)
            &&& result.conversation is None && result.remote_thread_id is None ==> after.thread_id
                == s.thread_id
        }),
{
}

/// An event that only shows what an action writes, a question or a plan is reported by
/// its turn alone, and one of an action by its turn and perhaps its command.
pub proof fn other_events_report_their_turn_alone(s: SessionView, event: TurnRunEvent, turn: u32)
    requires
        event !is Delta,
        event !is Result,
    ensures
        ({
            let reports = reports_of(s, event, turn);
            let named: int = if named_turn(event).len() > 0 {
                1
            } else {
                0
            };
            &&& named <= reports.len() <= named + 1
            &&& reports.len() == named + 1 ==> reports.last() is Command
        }),
{
}

/// What is known of a session after an event: the turn is the one that the event names,
/// or the one before; the thread changes with a result alone; and the session is named
/// by the thread, as it was when the turn was named, and the turn.
pub proof fn session_follows_the_events(s: SessionView, event: TurnRunEvent)
    ensures
        ({
            let after = session_after(s, event);
            &&& named_turn(event).len() > 0 ==> after.turn_id == Some(named_turn(event))
            &&& named_turn(event).len() == 0 ==> after.turn_id == s.turn_id && after.session_id
                == s.session_id
            &&& event !is Result ==> after.thread_id == s.thread_id
            &&& event !is Result && named_turn(event).len() > 0 && s.thread_id is Some
                ==> after.session_id == Some(s.thread_id->Some_0 + "-"@ + named_turn(event))
            &&& named_turn(event).len() > 0 && s.thread_id is None && event !is Result
                ==> after.session_id == s.session_id
            &&& event is Result && named_turn(event).len() > 0
                && event->Result_result.remote_thread_id is Some ==> after.session_id == Some(
                event->Result_result.remote_thread_id->Some_0@ + "-"@ + named_turn(event),
            )
        }),
{
}

/// An event that carries a report says whose it is and when it was made, and tells the
/// report in full: the news of a session with its ids, its message and its tokens, and a
/// command with the directory that it ran in.
pub proof fn reports_are_carried_in_full(
    carrier: WorkerEvent,
    report: Report,
    context: AngelEventContext,
    now: Timestamp,
)
    requires
        carries(carrier, report, context, now),
    ensures
        report matches Report::Command(command) ==> (carrier matches WorkerEvent::CommandExecuted(c)
            && c.issue_id@ == context.issue_id@ && c.issue_identifier@ == context.issue_identifier@
            && c.command@ == command && c.cwd is Some && c.cwd->Some_0@ == context.workspace_path@
            && c.duration_ms is None && c.exit_code is None),
        report is Session ==> (carrier matches WorkerEvent::Session(u) && u.issue_id@
            == context.issue_id@ && u.issue_identifier@ == context.issue_identifier@ && u.timestamp
            == now && u.event@ == report->event && u.turn_count == Some(report->turn_count)
            && u.usage == report->usage && (u.message is Some) == (report->message is Some) && (
        u.message is Some ==> u.message->Some_0@ == report->message->Some_0) && (u.session_id
            is Some) == (report->session.session_id is Some) && (u.session_id is Some
            ==> u.session_id->Some_0@ == report->session.session_id->Some_0) && (u.thread_id
            is Some) == (report->session.thread_id is Some) && (u.thread_id is Some
            ==> u.thread_id->Some_0@ == report->session.thread_id->Some_0) && (u.turn_id is Some)
            == (report->session.turn_id is Some) && (u.turn_id is Some ==> u.turn_id->Some_0@
            == report->session.turn_id->Some_0) && u.agent_pid is None && u.rate_limits is None),
{
}

/// The prompt of a turn is the given one, with nothing behind it where no comment has
/// arrived. The first comment stands behind a heading, on a line of its own, without
/// white space around it; and every further one on the next line.
pub proof fn waiting_comments_stand_behind_the_prompt(
    prompt: Seq<char>,
    comments: Seq<Seq<char>>,
    comment: Seq<char>,
)
    ensures
        prompt_with_comments(prompt, Seq::empty()) == prompt,
        prompt_with_comments(prompt, seq![comment]) == prompt
            + "\n\nNew comments on this issue:\n"@ + ("- "@ + trimmed(comment)),
        comments.len() > 0 ==> prompt_with_comments(prompt, comments.push(comment))
            == prompt_with_comments(prompt, comments) + ("\n"@ + ("- "@ + trimmed(comment))),
{
    let more = comments.push(comment);
    let lines = crate::agent::angel_runtime::comment_lines(comments);
    let all = crate::agent::angel_runtime::comment_lines(more);
    assert(all.drop_last() =~= lines);
    assert(all.last() == "- "@ + trimmed(comment));
    if comments.len() > 0 {
        let head = prompt + "\n\nNew comments on this issue:\n"@;
        assert(joined(all, "\n"@) == joined(lines, "\n"@) + "\n"@ + all.last());
        assert(head + (joined(lines, "\n"@) + "\n"@ + all.last()) =~= head + joined(lines, "\n"@)
            + ("\n"@ + all.last()));
    }
    let one = crate::agent::angel_runtime::comment_lines(seq![comment]);
    assert(one =~= seq!["- "@ + trimmed(comment)]);
}

/// A message of at most 512 characters is shown as it is, and a longer one by its first
/// 512 and three dots.
pub proof fn long_messages_are_cut(s: Seq<char>)
    ensures
        s.len() <= 512 ==> shortened(s) == s,
        s.len() > 512 ==> shortened(s) == s.take(512) + "..."@,
{
}

} // verus!
