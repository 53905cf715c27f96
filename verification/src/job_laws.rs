//! What a job is named by, and how its session goes.
use vstd::prelude::*;

use crate::agent::angel_runtime::TurnRunEvent;
use crate::config::RunnerConfig;
use crate::error::{ErrorView, LunaError};
use crate::job::{
    dashed, first_line, job_key, job_runner, job_step, permission_mode_of, permission_question,
    slug, words_of, JobActionView, JobEvent, JobPhaseView,
};
use crate::text::{joined, lines_of, texts, trimmed};

verus! {

/// Whether a character is an ASCII letter or digit.
pub open spec fn in_a_word(c: char) -> bool {
    ('a' <= c && c <= 'z') || ('A' <= c && c <= 'Z') || ('0' <= c && c <= '9')
}

/// A letter as a small one.
pub open spec fn small(c: char) -> char {
    if 'A' <= c && c <= 'Z' {
        (c as u32 + 32) as char
    } else {
        c
    }
}

proof fn joined_to_the_last(parts: Seq<Seq<char>>, last: Seq<char>, c: char)
    ensures
        joined(parts.push(last.push(c)), "-"@) == joined(parts.push(last), "-"@).push(c),
{
    assert(parts.push(last.push(c)).drop_last() =~= parts);
    assert(parts.push(last).drop_last() =~= parts);
    if parts.len() > 0 {
        assert(joined(parts, "-"@) + "-"@ + last.push(c) =~= (joined(parts, "-"@) + "-"@
            + last).push(c));
    }
}

proof fn words_have_letters(s: Seq<char>)
    ensures
        words_of(s).1.len() > 0 <==> s.len() > 0 && in_a_word(s.last()),
        forall|i: int| 0 <= i < words_of(s).0.len() ==> (#[trigger] words_of(s).0[i]).len() > 0,
    decreases s.len(),
{
    if s.len() > 0 {
        words_have_letters(s.drop_last());
    }
}

proof fn joined_is_not_empty(parts: Seq<Seq<char>>)
    requires
        parts.len() > 0,
        parts.last().len() > 0,
    ensures
        joined(parts, "-"@).len() > 0,
{
}

/// The name of a line is its words in small letters, with a dash between any two: a
/// letter or a digit goes on with the word that it stands behind, begins a word behind a
/// dash where it stands behind something else, and begins the name where it is the first
/// one. Anything else is left out.
pub proof fn words_stand_between_dashes(s: Seq<char>, c: char)
    ensures
        dashed(Seq::empty()).len() == 0,
        !in_a_word(c) ==> dashed(s.push(c)) == dashed(s),
        in_a_word(c) && s.len() > 0 && in_a_word(s.last()) ==> dashed(s.push(c)) == dashed(s).push(
            small(c),
        ),
        in_a_word(c) && s.len() > 0 && !in_a_word(s.last()) && dashed(s).len() > 0 ==> dashed(
            s.push(c),
        ) == dashed(s) + "-"@ + seq![small(c)],
        in_a_word(c) && dashed(s).len() == 0 ==> dashed(s.push(c)) == seq![small(c)],
{
    let t = s.push(c);
    assert(t.drop_last() =~= s);
    words_have_letters(s);
    words_have_letters(t);
    let (done, run) = words_of(s);
    if done.len() > 0 {
        joined_is_not_empty(done);
    }
    if run.len() > 0 {
        assert(done.push(run).last() == run);
        joined_is_not_empty(done.push(run));
    }
    if in_a_word(c) {
        assert(words_of(t) == (done, run.push(small(c))));
        if run.len() > 0 {
            joined_to_the_last(done, run, small(c));
        } else {
            assert(run =~= Seq::<char>::empty());
            assert(run.push(small(c)) =~= seq![small(c)]);
            assert(done.push(seq![small(c)]).drop_last() =~= done);
        }
    }
}

/// Whether the lines before this one are blank, and it is not.
pub open spec fn is_first_with_text(lines: Seq<Seq<char>>, i: int) -> bool {
    &&& 0 <= i < lines.len()
    &&& trimmed(lines[i]).len() > 0
    &&& forall|j: int| 0 <= j < i ==> trimmed(#[trigger] lines[j]).len() == 0
}

/// A prompt is named by its first line that is not blank, or is called a job where it
/// has none.
pub proof fn first_line_with_text_counts(lines: Seq<Seq<char>>, i: int)
    ensures
        is_first_with_text(lines, i) ==> first_line(lines) == lines[i],
        (forall|j: int| 0 <= j < lines.len() ==> trimmed(#[trigger] lines[j]).len() == 0)
            ==> first_line(lines) == "job"@,
    decreases lines.len(),
{
    if lines.len() > 0 {
        let rest = lines.drop_first();
        first_line_with_text_counts(rest, i - 1);
        if is_first_with_text(lines, i) && i > 0 {
            assert(trimmed(lines[0]).len() == 0);
            assert forall|j: int| 0 <= j < i - 1 implies trimmed(#[trigger] rest[j]).len() == 0 by {
                assert(rest[j] == lines[j + 1]);
            }
            assert(rest[i - 1] == lines[i]);
        }
        if forall|j: int| 0 <= j < lines.len() ==> trimmed(#[trigger] lines[j]).len() == 0 {
            assert(trimmed(lines[0]).len() == 0);
            assert forall|j: int| 0 <= j < rest.len() implies trimmed(#[trigger] rest[j]).len()
                == 0 by {
                assert(rest[j] == lines[j + 1]);
            }
        }
    }
}

/// No more than 48 characters of that line count, and where they have no words, the
/// prompt is called a job too.
pub proof fn long_lines_are_named_by_their_start(prompt: Seq<char>)
    ensures
        ({
            let line = first_line(lines_of(prompt));
            let words = dashed(
                if line.len() <= 48 {
                    line
                } else {
                    line.take(48)
                },
            );
            slug(prompt) == if words.len() > 0 {
                words
            } else {
                "job"@
            }
        }),
{
}

/// The workspace of a job is named by when the job was started and by its prompt; a
/// character that does not belong into a name is an underscore.
pub proof fn job_is_named_by_its_start_and_prompt(prompt: Seq<char>, stamp: Seq<char>, i: int)
    ensures
        ({
            let name = "JOB-"@ + stamp + "-"@ + slug(prompt);
            let key = job_key(prompt, stamp);
            &&& key.len() == name.len()
            &&& 0 <= i < name.len() ==> key[i] == if in_a_word(name[i]) || name[i] == '.' || name[i]
                == '_' || name[i] == '-' {
                name[i]
            } else {
                '_'
            }
        }),
{
}

/// A job runs what its runner is configured to run: one of the two runtimes with their
/// commands and times; no other runner runs jobs. A runtime is not to ask for permission,
/// and is told so in its own words.
pub proof fn job_runs_the_runner_configured(runner: RunnerConfig)
    ensures
        match runner {
            RunnerConfig::Codex(c) => job_runner(runner) == Some(
                ("codex"@, c.command@, texts(c.args@), c.turn_timeout_ms),
            ),
            RunnerConfig::Opencode(c) => job_runner(runner) == Some(
                ("opencode"@, c.command@, texts(c.args@), c.turn_timeout_ms),
            ),
            RunnerConfig::Acp(_) => job_runner(runner) is None,
        },
        permission_mode_of("codex"@) == "never"@,
        permission_mode_of("opencode"@) == "bypassPermissions"@,
{
    reveal_strlit("codex");
    reveal_strlit("opencode");
    assert("codex"@.len() != "opencode"@.len());
}

/// Only an event that asks to approve something or for a profile of permissions asks for
/// permission, and it names its question.
pub proof fn permissions_are_asked_by_name(event: TurnRunEvent)
    ensures
        event matches TurnRunEvent::Elicitation { elicitation } ==> {
            &&& elicitation.kind@ == "approval"@ || elicitation.kind@ == "permissionProfile"@
                ==> permission_question(event) == Some(elicitation.id@)
            &&& elicitation.kind@ != "approval"@ && elicitation.kind@ != "permissionProfile"@
                ==> permission_question(event) is None
        },
        !(event is Elicitation) ==> permission_question(event) is None,
{
}

/// Once the turn of a job has started and its events are written, the clock is read. While
/// there is time, the next event is waited for; when there is no more, the session is
/// closed, and the job fails for want of time.
pub proof fn job_runs_until_its_time_is_up(timeout_ms: u64, ms: u64)
    ensures
        job_step(JobPhaseView::Starting, timeout_ms, JobEvent::Done) == (
            JobPhaseView::WritingStart,
            JobActionView::WriteEvents,
        ),
        job_step(JobPhaseView::WritingStart, timeout_ms, JobEvent::Done) == (
            JobPhaseView::Checking,
            JobActionView::ReadClock,
        ),
        ms <= timeout_ms ==> job_step(JobPhaseView::Checking, timeout_ms, JobEvent::Elapsed(ms))
            == (JobPhaseView::Polling, JobActionView::PollEvent(250)),
        ms > timeout_ms ==> job_step(JobPhaseView::Checking, timeout_ms, JobEvent::Elapsed(ms)) == (
            JobPhaseView::Closing { timed_out: true },
            JobActionView::Close,
        ),
        job_step(JobPhaseView::Closing { timed_out: true }, timeout_ms, JobEvent::Done) == (
            JobPhaseView::Finished,
            JobActionView::Finish(Err(ErrorView::Agent("job turn timed out"@))),
        ),
        job_step(JobPhaseView::Closing { timed_out: false }, timeout_ms, JobEvent::Done) == (
            JobPhaseView::Finished,
            JobActionView::Finish(Ok(())),
        ),
        job_step(JobPhaseView::Polling, timeout_ms, JobEvent::Polled(None)) == (
            JobPhaseView::Checking,
            JobActionView::ReadClock,
        ),
{
}

/// Where a job stands three steps of work after an event came: written, and its question,
/// where it has one, allowed and the answer written.
pub open spec fn after_event(event: TurnRunEvent, timeout_ms: u64) -> (JobPhaseView, JobActionView) {
    let written = job_step(
        job_step(JobPhaseView::Polling, timeout_ms, JobEvent::Polled(Some(event))).0,
        timeout_ms,
        JobEvent::Done,
    );
    if permission_question(event) is Some {
        job_step(
            job_step(written.0, timeout_ms, JobEvent::Done).0,
            timeout_ms,
            JobEvent::Done,
        )
    } else {
        written
    }
}

/// Every event is written. A permission that it asks for is allowed next, and what comes
/// of that is written. Then the session is closed where the event was the result of the
/// turn, and the clock is read where it was not.
pub proof fn every_event_of_a_job_is_written(event: TurnRunEvent, timeout_ms: u64)
    ensures
        ({
            let first = job_step(JobPhaseView::Polling, timeout_ms, JobEvent::Polled(Some(event)));
            let second = job_step(first.0, timeout_ms, JobEvent::Done);
            let third = job_step(second.0, timeout_ms, JobEvent::Done);
            &&& first.1 is WriteEvents
            &&& permission_question(event) is Some ==> second.1 == JobActionView::AllowForSession(
                permission_question(event)->Some_0,
            ) && third.1 is WriteEvents
            &&& event is Result ==> after_event(event, timeout_ms) == (
                JobPhaseView::Closing { timed_out: false },
                JobActionView::Close,
            )
            &&& !(event is Result) ==> after_event(event, timeout_ms) == (
                JobPhaseView::Checking,
                JobActionView::ReadClock,
            )
        }),
{
}

/// Whatever a job does when something fails, it ends for that reason.
pub proof fn failed_job_ends_for_its_reason(phase: JobPhaseView, timeout_ms: u64, e: LunaError)
    ensures
        job_step(phase, timeout_ms, JobEvent::Failed(e)) == (
            JobPhaseView::Finished,
            JobActionView::Finish(Err(e@)),
        ),
{
}

} // verus!
