//! What watching over the agents is for.
use vstd::prelude::*;

use crate::agent::command_line::command_words;
use crate::agent::{SessionUpdate, StopReason, UsageUpdate};
use crate::config::{listed, Policy};
use crate::model::{CommentView, IssueView};
use crate::orchestrator::state::{RunningView, StateView};
use crate::orchestrator::watch::{
    begins_with, has_match, is_first_match, is_watched, last_with_id, renewed, sifted, stalled,
    stop_for,
};
use crate::text::opt_text;
use crate::time::{whole_millis, Timestamp};

verus! {

/// A report is kept as it was given: its event, its time, its message and the ids of
/// its session. The number of turns, the rate limits and the tokens are changed only by
/// a report that holds them. No other agent is touched, nor what is claimed or waits.
pub proof fn report_is_kept_as_it_was_given(v: StateView, update: SessionUpdate)
    requires
        v.running.contains_key(update.issue_id@),
    ensures
        ({
            let id = update.issue_id@;
            let before = v.running[id];
            let after = v.informed(update);
            let entry = after.running[id];
            &&& after.running.dom() == v.running.dom()
            &&& entry.last_agent_event == Some(update.event@)
            &&& entry.last_agent_timestamp == Some(update.timestamp)
            &&& entry.last_agent_message == opt_text(update.message)
            &&& entry.session_id == opt_text(update.session_id)
            &&& entry.thread_id == opt_text(update.thread_id)
            &&& entry.turn_id == opt_text(update.turn_id)
            &&& entry.agent_pid == update.agent_pid
            &&& update.turn_count matches Some(n) ==> entry.turn_count == n
            &&& update.turn_count is None ==> entry.turn_count == before.turn_count
            &&& update.usage matches Some(usage) ==> entry.usage == usage
            &&& update.usage is None ==> entry.usage == before.usage && entry.reported
                == before.reported && after.totals == v.totals
            &&& update.rate_limits matches Some(limits) ==> after.rate_limits == Some(limits@)
            &&& update.rate_limits is None ==> after.rate_limits == v.rate_limits
            &&& entry.issue == before.issue
            &&& entry.identifier == before.identifier
            &&& entry.retry_attempt == before.retry_attempt
            &&& entry.started_at == before.started_at
            &&& entry.pending_cleanup == before.pending_cleanup
            &&& entry.seen_comment_ids == before.seen_comment_ids
            &&& entry.accepts_comments == before.accepts_comments
            &&& forall|k: Seq<char>|
                k != id && v.running.contains_key(k) ==> #[trigger] after.running[k] == v.running[k]
            &&& after.claimed == v.claimed
            &&& after.retries == v.retries
            &&& after.completed == v.completed
        }),
{
    assert(v.informed(update).running.dom() =~= v.running.dom());
}

/// What a report adds to the totals is what lies above the most that was reported
/// before, for each kind of tokens; and that most is kept.
pub proof fn report_adds_what_is_new(v: StateView, id: Seq<char>, usage: UsageUpdate)
    requires
        v.running.contains_key(id),
        v.totals_fit(id, usage),
    ensures
        ({
            let before = v.running[id].reported;
            let after = v.counted(id, usage);
            let most = after.running[id].reported;
            &&& usage.input_tokens > before.input_tokens ==> after.totals.input_tokens
                == v.totals.input_tokens + usage.input_tokens - before.input_tokens
                && most.input_tokens == usage.input_tokens
            &&& usage.input_tokens <= before.input_tokens ==> after.totals.input_tokens
                == v.totals.input_tokens && most.input_tokens == before.input_tokens
            &&& usage.output_tokens > before.output_tokens ==> after.totals.output_tokens
                == v.totals.output_tokens + usage.output_tokens - before.output_tokens
                && most.output_tokens == usage.output_tokens
            &&& usage.output_tokens <= before.output_tokens ==> after.totals.output_tokens
                == v.totals.output_tokens && most.output_tokens == before.output_tokens
            &&& usage.total_tokens > before.total_tokens ==> after.totals.total_tokens
                == v.totals.total_tokens + usage.total_tokens - before.total_tokens
                && most.total_tokens == usage.total_tokens
            &&& usage.total_tokens <= before.total_tokens ==> after.totals.total_tokens
                == v.totals.total_tokens && most.total_tokens == before.total_tokens
            &&& after.running[id].usage == usage
            &&& after.running.dom() == v.running.dom()
            &&& forall|k: Seq<char>|
                k != id && v.running.contains_key(k) ==> #[trigger] after.running[k] == v.running[k]
            &&& after.claimed == v.claimed
            &&& after.retries == v.retries
            &&& after.completed == v.completed
            &&& after.rate_limits == v.rate_limits
        }),
{
    assert(v.counted(id, usage).running.dom() =~= v.running.dom());
}

/// Whether `issue` is the last of `issues` with this id.
pub open spec fn is_last(issues: Seq<IssueView>, id: Seq<char>, issue: IssueView) -> bool {
    exists|i: int|
        0 <= i < issues.len() && #[trigger] issues[i] == issue && issue.id == id && forall|j: int|
            i < j < issues.len() ==> (#[trigger] issues[j]).id != id
}

proof fn last_is_last(issues: Seq<IssueView>, id: Seq<char>)
    ensures
        forall|issue: IssueView| #[trigger]
            is_last(issues, id, issue) ==> last_with_id(issues, id) == Some(issue),
        (forall|i: int| 0 <= i < issues.len() ==> (#[trigger] issues[i]).id != id)
            ==> last_with_id(issues, id) is None,
    decreases issues.len(),
{
    if issues.len() > 0 {
        let rest = issues.drop_last();
        last_is_last(rest, id);
        assert(issues[issues.len() - 1] == issues.last());
        assert forall|issue: IssueView| #[trigger] is_last(
            issues,
            id,
            issue,
        ) implies last_with_id(issues, id) == Some(issue) by {
            let i = choose|i: int|
                0 <= i < issues.len() && #[trigger] issues[i] == issue && issue.id == id
                    && forall|j: int| i < j < issues.len() ==> (#[trigger] issues[j]).id != id;
            if i < rest.len() {
                assert(rest[i] == issue);
                assert forall|j: int| i < j < rest.len() implies (#[trigger] rest[j]).id != id by {
                    assert(rest[j] == issues[j]);
                }
                assert(is_last(rest, id, issue));
            }
        }
        if forall|i: int| 0 <= i < issues.len() ==> (#[trigger] issues[i]).id != id {
            assert forall|i: int| 0 <= i < rest.len() implies (#[trigger] rest[i]).id != id by {
                assert(rest[i] == issues[i]);
            }
        }
    }
}

/// The tracker's news of a running issue. A finished issue stops its agent and has its
/// workspace removed later; one that is still to be worked on is renewed and its agent
/// left alone; any other stops its agent and keeps its workspace; and one of which
/// there is no news is left alone. Nothing else changes.
pub proof fn news_of_an_issue_reach_its_agent(
    v: StateView,
    policy: Policy,
    issues: Seq<IssueView>,
    id: Seq<char>,
)
    requires
        v.running.contains_key(id),
    ensures
        ({
            let before = v.running[id];
            let after = v.reconciled(policy, issues);
            let entry = after.running[id];
            let stop = stop_for(policy, last_with_id(issues, id));
            &&& after.running.dom() == v.running.dom()
            &&& forall|issue: IssueView| #[trigger]
                is_last(issues, id, issue) ==> {
                    &&& listed(policy.terminal, issue.state) ==> stop == Some(StopReason::Terminal)
                        && entry == (RunningView { pending_cleanup: true, ..before })
                    &&& !listed(policy.terminal, issue.state) && listed(policy.active, issue.state)
                        ==> stop is None && entry == (RunningView { issue, ..before })
                    &&& !listed(policy.terminal, issue.state) && !listed(
                        policy.active,
                        issue.state,
                    ) ==> stop == Some(StopReason::NonActive) && entry == before
                }
            &&& (forall|i: int| 0 <= i < issues.len() ==> (#[trigger] issues[i]).id != id)
                ==> stop is None && entry == before
            &&& after.claimed == v.claimed
            &&& after.retries == v.retries
            &&& after.completed == v.completed
            &&& after.totals == v.totals
            &&& after.rate_limits == v.rate_limits
        }),
{
    last_is_last(issues, id);
    assert(v.reconciled(policy, issues).running.dom() =~= v.running.dom());
    assert(v.reconciled(policy, issues).running[id] == renewed(
        policy,
        v.running[id],
        last_with_id(issues, id),
    ));
}

/// An agent has stalled when it has been silent for more than the limit, to the
/// millisecond: since its last report, or since its start where it never reported. A
/// limit that is not positive is none.
pub proof fn silence_beyond_the_limit_is_a_stall(policy: Policy, entry: RunningView, now: Timestamp)
    ensures
        policy.stall_timeout_ms <= 0 ==> !stalled(policy, entry, now),
        policy.stall_timeout_ms > 0 && entry.last_agent_timestamp is None ==> (stalled(
            policy,
            entry,
            now,
        ) <==> (now.secs - entry.started_at.secs) * 1_000_000_000 + (now.nanos
            - entry.started_at.nanos) >= (policy.stall_timeout_ms + 1) * 1_000_000),
        policy.stall_timeout_ms > 0 && entry.last_agent_timestamp is Some ==> (stalled(
            policy,
            entry,
            now,
        ) <==> (now.secs - entry.last_agent_timestamp->Some_0.secs) * 1_000_000_000 + (now.nanos
            - entry.last_agent_timestamp->Some_0.nanos) >= (policy.stall_timeout_ms + 1)
            * 1_000_000),
{
    let since = match entry.last_agent_timestamp {
        Some(t) => t,
        None => entry.started_at,
    };
    let d = now.total() - since.total();
    assert(d == (now.secs - since.secs) * 1_000_000_000 + (now.nanos - since.nanos))
        by (nonlinear_arith)
        requires
            d == now.secs * 1_000_000_000 + now.nanos - (since.secs * 1_000_000_000 + since.nanos),
    ;
    millis_of(d, policy.stall_timeout_ms as int);
}

proof fn millis_of(d: int, limit: int)
    ensures
        limit > 0 ==> (whole_millis(d) > limit <==> d >= (limit + 1) * 1_000_000),
{
    if d >= 0 {
        assert(d == 1_000_000 * (d / 1_000_000) + d % 1_000_000) by (nonlinear_arith);
        assert(0 <= d % 1_000_000 < 1_000_000);
    }
}

/// A comment that was not seen before is handed to the agent, one that was is not, and
/// either way it is seen from then on.
pub proof fn new_comment_is_handed_on(seen: Set<Seq<char>>, comment: CommentView)
    ensures
        sifted(seen, seq![comment]).0 == seen.insert(comment.id),
        !seen.contains(comment.id) ==> sifted(seen, seq![comment]).1 == seq![comment.body],
        seen.contains(comment.id) ==> sifted(seen, seq![comment]).1 == Seq::<Seq<char>>::empty(),
        sifted(seen, Seq::empty()) == (seen, Seq::<Seq<char>>::empty()),
{
    let one = seq![comment];
    assert(one.drop_last() =~= Seq::<CommentView>::empty());
    assert(sifted(seen, Seq::empty()) == (seen, Seq::<Seq<char>>::empty()));
    assert(Seq::<Seq<char>>::empty().push(comment.body) =~= seq![comment.body]);
}

/// Comments are handed on in their order: those of a longer list are those of its first
/// part, and then those of the rest that the first part does not hold.
pub proof fn comments_are_handed_on_in_order(
    seen: Set<Seq<char>>,
    first: Seq<CommentView>,
    rest: Seq<CommentView>,
)
    ensures
        sifted(seen, first + rest).0 == sifted(sifted(seen, first).0, rest).0,
        sifted(seen, first + rest).1 == sifted(seen, first).1 + sifted(
            sifted(seen, first).0,
            rest,
        ).1,
    decreases rest.len(),
{
    let (ids, bodies) = sifted(seen, first);
    if rest.len() == 0 {
        assert(first + rest =~= first);
        assert(bodies + Seq::<Seq<char>>::empty() =~= bodies);
    } else {
        comments_are_handed_on_in_order(seen, first, rest.drop_last());
        assert((first + rest).drop_last() =~= first + rest.drop_last());
        let more = sifted(ids, rest.drop_last()).1;
        assert((bodies + more).push(rest.last().body) =~= bodies + more.push(rest.last().body));
    }
}

/// Only what was seen of comments changes when they are read, and only for the agent
/// whose issue they are on.
pub proof fn reading_comments_changes_what_is_seen(
    v: StateView,
    id: Seq<char>,
    comments: Seq<CommentView>,
)
    requires
        v.running.contains_key(id),
    ensures
        ({
            let after = v.read_comments(id, comments);
            &&& after.running.dom() == v.running.dom()
            &&& after.running[id] == (RunningView {
                seen_comment_ids: after.running[id].seen_comment_ids,
                ..v.running[id]
            })
            &&& forall|c: Seq<char>| #[trigger]
                after.running[id].seen_comment_ids.contains(c) <==> v.running[id].seen_comment_ids.contains(
                    c,
                ) || exists|i: int| 0 <= i < comments.len() && (#[trigger] comments[i]).id == c
            &&& forall|k: Seq<char>|
                k != id && v.running.contains_key(k) ==> #[trigger] after.running[k] == v.running[k]
            &&& after == (StateView { running: after.running, ..v })
        }),
{
    let after = v.read_comments(id, comments);
    assert(after.running.dom() =~= v.running.dom());
    seen_are_all_ids(v.running[id].seen_comment_ids, comments);
}

proof fn seen_are_all_ids(seen: Set<Seq<char>>, comments: Seq<CommentView>)
    ensures
        forall|c: Seq<char>| #[trigger]
            sifted(seen, comments).0.contains(c) <==> seen.contains(c) || exists|i: int|
                0 <= i < comments.len() && (#[trigger] comments[i]).id == c,
    decreases comments.len(),
{
    if comments.len() > 0 {
        let rest = comments.drop_last();
        seen_are_all_ids(seen, rest);
        assert forall|c: Seq<char>| #[trigger]
            sifted(seen, comments).0.contains(c) <==> seen.contains(c) || exists|i: int|
            0 <= i < comments.len() && (#[trigger] comments[i]).id == c by {
            let before = sifted(seen, rest).0;
            assert(sifted(seen, comments).0 == before.insert(comments.last().id));
            assert(before.contains(c) <==> seen.contains(c) || exists|i: int|
                0 <= i < rest.len() && (#[trigger] rest[i]).id == c);
            if c == comments.last().id {
                assert(comments[comments.len() - 1].id == c);
            }
            if exists|i: int| 0 <= i < rest.len() && (#[trigger] rest[i]).id == c {
                let i = choose|i: int| 0 <= i < rest.len() && (#[trigger] rest[i]).id == c;
                assert(comments[i].id == c);
            }
            if exists|i: int| 0 <= i < comments.len() && (#[trigger] comments[i]).id == c {
                let i = choose|i: int| 0 <= i < comments.len() && (#[trigger] comments[i]).id == c;
                if i < rest.len() {
                    assert(rest[i].id == c);
                }
            }
        }
    }
}

/// Whether the words of a command begin with those of a pattern, word for word.
pub open spec fn leads(pattern: Seq<Seq<char>>, words: Seq<Seq<char>>) -> bool {
    &&& 0 < pattern.len() <= words.len()
    &&& forall|i: int| 0 <= i < pattern.len() ==> #[trigger] pattern[i] == words[i]
}

/// A command is told to the tracker just where its words begin with those of one of the
/// patterns. One that cannot be read is not.
pub proof fn watched_commands_begin_with_a_pattern(command: Seq<char>, patterns: Seq<Seq<char>>)
    ensures
        command_words(command) is Err ==> !is_watched(command, patterns),
        command_words(command) matches Ok(words) ==> (is_watched(command, patterns) <==> exists|
            i: int,
        |
            0 <= i < patterns.len() && (command_words(#[trigger] patterns[i]) matches Ok(pattern)
                && leads(pattern, words))),
{
    if command_words(command) is Ok {
        let words = command_words(command)->Ok_0;
        assert forall|p: Seq<char>| #[trigger] begins_with(words, p) <==> (command_words(
            p,
        ) matches Ok(pattern) && leads(pattern, words)) by {
            if command_words(p) is Ok {
                let pattern = command_words(p)->Ok_0;
                if leads(pattern, words) {
                    assert(pattern =~= words.subrange(0, pattern.len() as int));
                }
                if begins_with(words, p) {
                    assert forall|i: int| 0 <= i < pattern.len() implies #[trigger] pattern[i]
                        == words[i] by {
                        assert(pattern[i] == words.subrange(0, pattern.len() as int)[i]);
                    }
                }
            }
        }
        if is_watched(command, patterns) {
            let i = choose|i: int| #[trigger] is_first_match(words, patterns, i);
            assert(begins_with(words, patterns[i]));
        }
        if exists|i: int|
            0 <= i < patterns.len() && (command_words(#[trigger] patterns[i]) matches Ok(pattern)
                && leads(pattern, words)) {
            let i = choose|i: int|
                0 <= i < patterns.len() && (command_words(#[trigger] patterns[i]) matches Ok(
                    pattern,
                ) && leads(pattern, words));
            assert(begins_with(words, patterns[i]));
            some_match_is_first(words, patterns, i);
        }
    }
}

proof fn some_match_is_first(words: Seq<Seq<char>>, patterns: Seq<Seq<char>>, i: int)
    requires
        0 <= i < patterns.len(),
        begins_with(words, patterns[i]),
    ensures
        has_match(words, patterns),
    decreases i,
{
    if forall|j: int| 0 <= j < i ==> !begins_with(words, #[trigger] patterns[j]) {
        assert(is_first_match(words, patterns, i));
    } else {
        let j = choose|j: int| 0 <= j < i && begins_with(words, #[trigger] patterns[j]);
        some_match_is_first(words, patterns, j);
    }
}

} // verus!
