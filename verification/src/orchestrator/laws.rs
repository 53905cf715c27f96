//! What holds of the orchestrator as a whole.
use vstd::prelude::*;

use crate::agent::{OutcomeView, SessionUpdate, StopReason, UsageUpdate};
use crate::config::{listed, Policy};
use crate::model::{CommentView, IssueView};
use crate::orchestrator::events::{
    counts_up, doubled, doubled_grows, first_with_id, next_attempt, retry_delay,
};
use crate::orchestrator::state::{in_state, unblocked, workable, RetryDelay, RetryView, StateView};
use crate::orchestrator::watch::{larger, last_with_id, sifted, stalled, stop_for};
use crate::text::lowercase;
use crate::time::{whole_millis, Timestamp};

verus! {

/// Every issue that runs or waits for a retry is claimed, and none does both. An
/// issue is kept under its own id.
pub open spec fn orderly(v: StateView) -> bool {
    &&& v.running.dom().finite()
    &&& v.running.dom().subset_of(v.claimed)
    &&& v.retries.dom().subset_of(v.claimed)
    &&& v.running.dom().disjoint(v.retries.dom())
    &&& forall|k: Seq<char>|
        v.running.contains_key(k) ==> (#[trigger] v.running[k]).issue.id == k
    &&& forall|k: Seq<char>| v.retries.contains_key(k) ==> (#[trigger] v.retries[k]).issue_id == k
}

/// Putting an agent to work keeps the state orderly.
pub proof fn dispatch_keeps_order(
    v: StateView,
    issue: IssueView,
    attempt: Option<u32>,
    now: Timestamp,
)
    requires
        orderly(v),
    ensures
        orderly(v.dispatched(issue, attempt, now)),
{
}

/// What a tick dispatches keeps the state orderly.
pub proof fn tick_keeps_order(v: StateView, policy: Policy, issues: Seq<IssueView>, now: Timestamp)
    requires
        orderly(v),
    ensures
        orderly(v.dispatched_all(policy, issues, now).0),
    decreases issues.len(),
{
    if issues.len() > 0 {
        tick_keeps_order(v, policy, issues.drop_last(), now);
    }
}

/// The end of an agent keeps the state orderly.
pub proof fn exit_keeps_order(v: StateView, policy: Policy, id: Seq<char>, outcome: OutcomeView)
    requires
        orderly(v),
    ensures
        orderly(v.exited(policy, id, outcome)),
{
}

/// A retry that is due keeps the state orderly, whatever becomes of it.
pub proof fn retry_keeps_order(
    v: StateView,
    policy: Policy,
    id: Seq<char>,
    fetched: Option<Seq<IssueView>>,
    now: Timestamp,
)
    requires
        orderly(v),
        v.retries.contains_key(id),
    ensures
        ({
            let w = StateView { retries: v.retries.remove(id), ..v };
            &&& orderly(w)
            &&& orderly(
                w.resumed(
                    policy,
                    v.retries[id],
                    w.resumption(policy, v.retries[id], fetched),
                    now,
                ),
            )
        }),
{
    let w = StateView { retries: v.retries.remove(id), ..v };
    if fetched is Some {
        first_with_id_has_id(fetched->Some_0, v.retries[id].issue_id);
    }
}

proof fn first_with_id_has_id(issues: Seq<IssueView>, id: Seq<char>)
    ensures
        first_with_id(issues, id) matches Some(issue) ==> issue.id == id && issues.contains(issue),
    decreases issues.len(),
{
    if issues.len() > 0 && issues[0].id != id {
        first_with_id_has_id(issues.drop_first(), id);
        if first_with_id(issues, id) is Some {
            let issue = first_with_id(issues, id)->Some_0;
            let i = issues.drop_first().index_of(issue);
            assert(issues[i + 1] == issue);
        }
    } else if issues.len() > 0 {
        assert(issues.contains(issues[0]));
    }
}

proof fn last_with_id_has_id(issues: Seq<IssueView>, id: Seq<char>)
    ensures
        last_with_id(issues, id) matches Some(issue) ==> issue.id == id,
    decreases issues.len(),
{
    if issues.len() > 0 && issues.last().id != id {
        last_with_id_has_id(issues.drop_last(), id);
    }
}

/// The tracker's news of the running issues keeps the state orderly, and neither
/// starts nor ends an agent.
pub proof fn reconciling_keeps_order(v: StateView, policy: Policy, issues: Seq<IssueView>)
    requires
        orderly(v),
    ensures
        orderly(v.reconciled(policy, issues)),
        v.reconciled(policy, issues).running.dom() == v.running.dom(),
{
    let w = v.reconciled(policy, issues);
    assert(w.running.dom() =~= v.running.dom());
    assert forall|k: Seq<char>| w.running.contains_key(k) implies (#[trigger] w.running[k]).issue.id
        == k by {
        last_with_id_has_id(issues, k);
        assert(v.running[k].issue.id == k);
    }
}

/// The reports of agents and the comments on their issues keep the state orderly.
pub proof fn reports_keep_order(
    v: StateView,
    update: SessionUpdate,
    id: Seq<char>,
    comments: Seq<CommentView>,
)
    requires
        orderly(v),
    ensures
        orderly(v.informed(update)),
        orderly(v.read_comments(id, comments)),
{
    assert(v.informed(update).running.dom() =~= v.running.dom());
    assert(v.read_comments(id, comments).running.dom() =~= v.running.dom());
}

/// Only issues that are to be worked on, that nothing blocks and that nobody has
/// claimed are dispatched on a tick, and none of them twice.
pub proof fn tick_takes_only_free_work(
    v: StateView,
    policy: Policy,
    issues: Seq<IssueView>,
    now: Timestamp,
)
    requires
        orderly(v),
    ensures
        ({
            let (after, chosen) = v.dispatched_all(policy, issues, now);
            &&& forall|i: int|
                0 <= i < chosen.len() ==> {
                    &&& workable(policy, #[trigger] chosen[i])
                    &&& unblocked(policy, chosen[i])
                    &&& !v.claimed.contains(chosen[i].id)
                    &&& !v.running.contains_key(chosen[i].id)
                    &&& after.running.contains_key(chosen[i].id)
                    &&& issues.contains(chosen[i])
                }
            &&& forall|i: int, j: int|
                0 <= i < j < chosen.len() ==> (#[trigger] chosen[i]).id != (
                #[trigger] chosen[j]).id
            &&& v.claimed.subset_of(after.claimed)
            &&& v.running.dom().subset_of(after.running.dom())
            &&& after.running.dom().subset_of(after.claimed)
        }),
    decreases issues.len(),
{
    if issues.len() > 0 {
        let rest = issues.drop_last();
        tick_takes_only_free_work(v, policy, rest, now);
        tick_keeps_order(v, policy, rest, now);
        let (w, done) = v.dispatched_all(policy, rest, now);
        let (after, chosen) = v.dispatched_all(policy, issues, now);
        assert forall|i: int| 0 <= i < chosen.len() implies {
            &&& workable(policy, #[trigger] chosen[i])
            &&& unblocked(policy, chosen[i])
            &&& !v.claimed.contains(chosen[i].id)
            &&& !v.running.contains_key(chosen[i].id)
            &&& after.running.contains_key(chosen[i].id)
            &&& issues.contains(chosen[i])
        } by {
            if i < done.len() {
                assert(chosen[i] == done[i]);
                let k = rest.index_of(done[i]);
                assert(issues[k] == done[i]);
            } else {
                assert(issues[issues.len() - 1] == chosen[i]);
            }
        }
        assert forall|i: int, j: int| 0 <= i < j < chosen.len() implies (#[trigger] chosen[i]).id
            != (#[trigger] chosen[j]).id by {
            assert(chosen[i] == done[i]);
            if j < done.len() {
                assert(chosen[j] == done[j]);
            } else {
                assert(w.running.contains_key(done[i].id));
            }
        }
    }
}

/// A tick starts no agent beyond the limit.
pub proof fn tick_respects_the_limit(
    v: StateView,
    policy: Policy,
    issues: Seq<IssueView>,
    now: Timestamp,
)
    requires
        orderly(v),
    ensures
        ({
            let after = v.dispatched_all(policy, issues, now).0;
            ||| after.running.dom().len() <= policy.max_concurrent
            ||| after.running.dom() == v.running.dom()
        }),
    decreases issues.len(),
{
    if issues.len() > 0 {
        let rest = issues.drop_last();
        tick_respects_the_limit(v, policy, rest, now);
        tick_keeps_order(v, policy, rest, now);
        let w = v.dispatched_all(policy, rest, now).0;
        let issue = issues.last();
        if w.free_slots(policy) > 0 && w.wants(policy, issue) {
            let after = w.dispatched(issue, None, now);
            assert(after.running.dom() =~= w.running.dom().insert(issue.id));
        }
    }
}

/// An agent that is put to work on a wanted issue fits into the limit of the issue's
/// state.
pub proof fn dispatch_respects_the_limit_of_the_state(
    v: StateView,
    policy: Policy,
    issue: IssueView,
    now: Timestamp,
)
    requires
        orderly(v),
        v.wants(policy, issue),
    ensures
        in_state(v.dispatched(issue, None, now).running, issue.state).len() <= StateView::limit_of(
            policy,
            lowercase(issue.state),
        ),
        v.dispatched(issue, None, now).running.dom().len() <= policy.max_concurrent,
{
    let after = v.dispatched(issue, None, now);
    assert(after.running.dom() =~= v.running.dom().insert(issue.id));
    let before = in_state(v.running, issue.state);
    assert(before.finite()) by {
        vstd::set_lib::lemma_len_subset(before, v.running.dom());
    }
    assert(in_state(after.running, issue.state) =~= before.insert(issue.id));
}

/// A retry that is due does not start an agent beyond the limits.
pub proof fn retry_respects_the_limits(
    v: StateView,
    policy: Policy,
    retry: RetryView,
    fetched: Option<Seq<IssueView>>,
)
    requires
        v.resumption(policy, retry, fetched) is Dispatched,
    ensures
        v.running.dom().len() < policy.max_concurrent,
        ({
            let issue = v.resumption(policy, retry, fetched)->Dispatched_0;
            &&& issue.id == retry.issue_id
            &&& listed(policy.active, issue.state)
            &&& in_state(v.running, issue.state).len() < StateView::limit_of(
                policy,
                lowercase(issue.state),
            )
        }),
{
    first_with_id_has_id(fetched->Some_0, retry.issue_id);
}

/// An agent that has ended runs no more. Its issue stays claimed just where it is to
/// be tried again, and a retry then waits for it.
pub proof fn exit_retries_or_releases(
    v: StateView,
    policy: Policy,
    id: Seq<char>,
    outcome: OutcomeView,
)
    requires
        orderly(v),
        v.running.contains_key(id),
    ensures
        ({
            let after = v.exited(policy, id, outcome);
            &&& !after.running.contains_key(id)
            &&& after.claimed.contains(id) == !(outcome is CanceledByReconciliation)
            &&& after.retries.contains_key(id) == !(outcome is CanceledByReconciliation)
            &&& after.completed.contains(id) == (v.completed.contains(id) || outcome is Normal)
        }),
{
}

/// A failure is retried under the number after the last, and a normal end counts
/// anew.
pub proof fn failures_count_up(
    v: StateView,
    policy: Policy,
    id: Seq<char>,
    outcome: OutcomeView,
)
    requires
        v.running.contains_key(id),
        counts_up(outcome) ==> next_attempt(v.running[id].retry_attempt) <= u32::MAX,
    ensures
        outcome is Normal ==> v.exited(policy, id, outcome).retries[id].attempt == 1,
        counts_up(outcome) ==> v.exited(policy, id, outcome).retries[id].attempt == next_attempt(
            v.running[id].retry_attempt,
        ),
{
}

/// What is not known changes nothing.
pub proof fn unknown_agents_change_nothing(
    v: StateView,
    policy: Policy,
    id: Seq<char>,
    outcome: OutcomeView,
    update: SessionUpdate,
    usage: UsageUpdate,
    comments: Seq<CommentView>,
)
    requires
        !v.running.contains_key(id),
        update.issue_id@ == id,
    ensures
        v.exited(policy, id, outcome) == v,
        v.informed(update) == v,
        v.counted(id, usage) == v,
        v.read_comments(id, comments) == v,
{
}

/// A failure waits ten seconds at first, then longer or equally long each time, and
/// never longer than the limit. It doubles as long as the limit is not reached.
pub proof fn backoff_grows_up_to_the_limit(a: u32, b: u32, backoff_ms: u64)
    requires
        1 <= a <= b,
    ensures
        retry_delay(RetryDelay::Backoff, 1, backoff_ms) == if backoff_ms < 10_000 {
            backoff_ms as int
        } else {
            10_000
        },
        0 <= retry_delay(RetryDelay::Backoff, a, backoff_ms) <= backoff_ms,
        retry_delay(RetryDelay::Backoff, a, backoff_ms) <= retry_delay(
            RetryDelay::Backoff,
            b,
            backoff_ms,
        ),
        a < u32::MAX && retry_delay(RetryDelay::Backoff, (a + 1) as u32, backoff_ms) < backoff_ms
            ==> retry_delay(RetryDelay::Backoff, (a + 1) as u32, backoff_ms) == 2 * retry_delay(
            RetryDelay::Backoff,
            a,
            backoff_ms,
        ),
{
    doubled_grows((a - 1) as nat, (b - 1) as nat);
    assert(doubled(0) == 1);
    assert(doubled(a as nat) == 2 * doubled((a - 1) as nat));
    doubled_grows((a - 1) as nat, a as nat);
}

/// No token is counted twice: a report changes the totals by just as much as it
/// raises what the agent has reported at most.
pub proof fn tokens_are_counted_once(v: StateView, id: Seq<char>, usage: UsageUpdate)
    requires
        v.running.contains_key(id),
        v.totals_fit(id, usage),
    ensures
        ({
            let w = v.counted(id, usage);
            let before = v.running[id].reported;
            let after = w.running[id].reported;
            &&& w.totals.input_tokens - v.totals.input_tokens == after.input_tokens
                - before.input_tokens
            &&& w.totals.output_tokens - v.totals.output_tokens == after.output_tokens
                - before.output_tokens
            &&& w.totals.total_tokens - v.totals.total_tokens == after.total_tokens
                - before.total_tokens
        }),
        v.counted(id, usage).totals_fit(id, usage),
        v.counted(id, usage).counted(id, usage).totals == v.counted(id, usage).totals,
{
}

/// The state after an agent has reported again and again.
pub open spec fn counted_all(v: StateView, id: Seq<char>, reports: Seq<UsageUpdate>) -> StateView
    decreases reports.len(),
{
    if reports.len() == 0 {
        v
    } else {
        counted_all(v, id, reports.drop_last()).counted(id, reports.last())
    }
}

/// The most of each kind of tokens in a report before, and in any of the reports.
pub open spec fn most_reported(before: UsageUpdate, reports: Seq<UsageUpdate>) -> UsageUpdate
    decreases reports.len(),
{
    if reports.len() == 0 {
        before
    } else {
        let most = most_reported(before, reports.drop_last());
        let last = reports.last();
        UsageUpdate {
            input_tokens: larger(most.input_tokens, last.input_tokens),
            output_tokens: larger(most.output_tokens, last.output_tokens),
            total_tokens: larger(most.total_tokens, last.total_tokens),
        }
    }
}

/// A report of no tokens.
pub open spec fn no_tokens() -> UsageUpdate {
    UsageUpdate { input_tokens: 0, output_tokens: 0, total_tokens: 0 }
}

/// The most that was reported is reported once at least, and nothing above it is.
pub proof fn most_reported_is_largest(reports: Seq<UsageUpdate>)
    ensures
        forall|i: int|
            #![trigger reports[i]]
            0 <= i < reports.len() ==> {
                let most = most_reported(no_tokens(), reports);
                &&& reports[i].input_tokens <= most.input_tokens
                &&& reports[i].output_tokens <= most.output_tokens
                &&& reports[i].total_tokens <= most.total_tokens
            },
        reports.len() > 0 ==> {
            let most = most_reported(no_tokens(), reports);
            &&& exists|i: int|
                0 <= i < reports.len() && (#[trigger] reports[i]).input_tokens == most.input_tokens
            &&& exists|i: int|
                0 <= i < reports.len() && (#[trigger] reports[i]).output_tokens
                    == most.output_tokens
            &&& exists|i: int|
                0 <= i < reports.len() && (#[trigger] reports[i]).total_tokens == most.total_tokens
        },
    decreases reports.len(),
{
    if reports.len() > 0 {
        let rest = reports.drop_last();
        let last: int = reports.len() - 1;
        most_reported_is_largest(rest);
        let most = most_reported(no_tokens(), reports);
        let before = most_reported(no_tokens(), rest);
        assert forall|i: int| #![trigger reports[i]] 0 <= i < reports.len() implies {
            &&& reports[i].input_tokens <= most.input_tokens
            &&& reports[i].output_tokens <= most.output_tokens
            &&& reports[i].total_tokens <= most.total_tokens
        } by {
            if i < rest.len() {
                assert(rest[i] == reports[i]);
            }
        }
        assert(reports[last] == reports.last());
        if rest.len() > 0 {
            let i = choose|i: int|
                0 <= i < rest.len() && (#[trigger] rest[i]).input_tokens == before.input_tokens;
            assert(reports[i] == rest[i]);
            let i = choose|i: int|
                0 <= i < rest.len() && (#[trigger] rest[i]).output_tokens == before.output_tokens;
            assert(reports[i] == rest[i]);
            let i = choose|i: int|
                0 <= i < rest.len() && (#[trigger] rest[i]).total_tokens == before.total_tokens;
            assert(reports[i] == rest[i]);
        } else {
            assert(reports[last].input_tokens == most.input_tokens);
        }
    }
}

proof fn totals_grow_by_what_is_new(v: StateView, id: Seq<char>, reports: Seq<UsageUpdate>)
    requires
        v.running.contains_key(id),
        ({
            let before = v.running[id].reported;
            let most = most_reported(before, reports);
            &&& v.totals.input_tokens + most.input_tokens - before.input_tokens <= u64::MAX
            &&& v.totals.output_tokens + most.output_tokens - before.output_tokens <= u64::MAX
            &&& v.totals.total_tokens + most.total_tokens - before.total_tokens <= u64::MAX
        }),
    ensures
        ({
            let w = counted_all(v, id, reports);
            let before = v.running[id].reported;
            let most = most_reported(before, reports);
            &&& w.running.contains_key(id)
            &&& w.running[id].reported == most
            &&& most.input_tokens >= before.input_tokens
            &&& most.output_tokens >= before.output_tokens
            &&& most.total_tokens >= before.total_tokens
            &&& w.totals.input_tokens == v.totals.input_tokens + most.input_tokens
                - before.input_tokens
            &&& w.totals.output_tokens == v.totals.output_tokens + most.output_tokens
                - before.output_tokens
            &&& w.totals.total_tokens == v.totals.total_tokens + most.total_tokens
                - before.total_tokens
        }),
        forall|i: int|
            0 <= i < reports.len() ==> counted_all(v, id, reports.take(i)).totals_fit(
                id,
                #[trigger] reports[i],
            ),
    decreases reports.len(),
{
    if reports.len() > 0 {
        totals_grow_by_what_is_new(v, id, reports.drop_last());
        let rest = reports.drop_last();
        assert forall|i: int| 0 <= i < reports.len() implies counted_all(
            v,
            id,
            reports.take(i),
        ).totals_fit(id, #[trigger] reports[i]) by {
            if i < rest.len() {
                assert(rest.take(i) =~= reports.take(i));
                assert(rest[i] == reports[i]);
            } else {
                assert(reports.take(i) =~= rest);
            }
        }
    }
}

/// However often an agent reports, and whether its reports rise or fall, the totals
/// grow by the most that it has reported of each kind of tokens. Every report can be
/// taken in as long as that sum can be held. The reports of an agent that does not
/// run change nothing.
pub proof fn totals_grow_by_the_largest_report(
    v: StateView,
    id: Seq<char>,
    reports: Seq<UsageUpdate>,
)
    requires
        v.running.contains_key(id) ==> {
            let most = most_reported(no_tokens(), reports);
            &&& v.running[id].reported == no_tokens()
            &&& v.totals.input_tokens + most.input_tokens <= u64::MAX
            &&& v.totals.output_tokens + most.output_tokens <= u64::MAX
            &&& v.totals.total_tokens + most.total_tokens <= u64::MAX
        },
    ensures
        v.running.contains_key(id) ==> {
            let w = counted_all(v, id, reports);
            let most = most_reported(no_tokens(), reports);
            &&& w.totals.input_tokens == v.totals.input_tokens + most.input_tokens
            &&& w.totals.output_tokens == v.totals.output_tokens + most.output_tokens
            &&& w.totals.total_tokens == v.totals.total_tokens + most.total_tokens
            &&& w.running[id].reported == most
        },
        !v.running.contains_key(id) ==> counted_all(v, id, reports) == v,
        forall|i: int|
            0 <= i < reports.len() ==> counted_all(v, id, reports.take(i)).totals_fit(
                id,
                #[trigger] reports[i],
            ),
    decreases reports.len(),
{
    if v.running.contains_key(id) {
        totals_grow_by_what_is_new(v, id, reports);
    } else if reports.len() > 0 {
        totals_grow_by_the_largest_report(v, id, reports.drop_last());
        let rest = reports.drop_last();
        assert forall|i: int| 0 <= i < reports.len() implies counted_all(
            v,
            id,
            reports.take(i),
        ).totals_fit(id, #[trigger] reports[i]) by {
            if i < rest.len() {
                assert(rest.take(i) =~= reports.take(i));
                assert(rest[i] == reports[i]);
            } else {
                assert(reports.take(i) =~= rest);
            }
        }
    }
}

proof fn sifted_seen(seen: Set<Seq<char>>, comments: Seq<CommentView>)
    ensures
        seen.subset_of(sifted(seen, comments).0),
        forall|i: int|
            0 <= i < comments.len() ==> sifted(seen, comments).0.contains(
                (#[trigger] comments[i]).id,
            ),
    decreases comments.len(),
{
    if comments.len() > 0 {
        let rest = comments.drop_last();
        sifted_seen(seen, rest);
        assert forall|i: int| 0 <= i < comments.len() implies sifted(seen, comments).0.contains(
            (#[trigger] comments[i]).id,
        ) by {
            if i < rest.len() {
                assert(rest[i] == comments[i]);
            }
        }
    }
}

/// Comments that have been seen are not handed to the agent.
pub proof fn seen_comments_are_not_forwarded(seen: Set<Seq<char>>, comments: Seq<CommentView>)
    requires
        forall|i: int| 0 <= i < comments.len() ==> seen.contains((#[trigger] comments[i]).id),
    ensures
        sifted(seen, comments).1.len() == 0,
        sifted(seen, comments).0 == seen,
    decreases comments.len(),
{
    if comments.len() > 0 {
        let rest = comments.drop_last();
        assert forall|i: int| 0 <= i < rest.len() implies seen.contains((#[trigger] rest[i]).id) by {
            assert(rest[i] == comments[i]);
        }
        seen_comments_are_not_forwarded(seen, rest);
        assert(comments.last() == comments[comments.len() - 1]);
        assert(seen.insert(comments.last().id) =~= seen);
    }
}

/// A comment is handed to the agent once: when the same comments are fetched again,
/// none of them is.
pub proof fn comments_are_forwarded_once(seen: Set<Seq<char>>, comments: Seq<CommentView>)
    ensures
        sifted(sifted(seen, comments).0, comments).1.len() == 0,
{
    sifted_seen(seen, comments);
    seen_comments_are_not_forwarded(sifted(seen, comments).0, comments);
}

/// An issue that is finished is not taken up. If an agent works on it, the agent is
/// told to stop, and its workspace is removed when it ends.
pub proof fn finished_issues_are_left_alone(
    v: StateView,
    policy: Policy,
    issue: IssueView,
    issues: Seq<IssueView>,
)
    requires
        listed(policy.terminal, issue.state),
    ensures
        !v.wants(policy, issue),
        v.running.contains_key(issue.id) && last_with_id(issues, issue.id) == Some(issue)
            ==> stop_for(policy, Some(issue)) == Some(StopReason::Terminal) && v.reconciled(
            policy,
            issues,
        ).running[issue.id].pending_cleanup,
{
}

/// An issue that is taken off the board, neither to be worked on nor finished, is not
/// taken up. If an agent works on it, the agent is told to stop, and its workspace is
/// kept.
pub proof fn withdrawn_issues_stop_their_agents(
    v: StateView,
    policy: Policy,
    issue: IssueView,
    issues: Seq<IssueView>,
)
    requires
        !listed(policy.active, issue.state),
        !listed(policy.terminal, issue.state),
    ensures
        !v.wants(policy, issue),
        v.running.contains_key(issue.id) && last_with_id(issues, issue.id) == Some(issue)
            ==> stop_for(policy, Some(issue)) == Some(StopReason::NonActive) && v.reconciled(
            policy,
            issues,
        ).running[issue.id] == v.running[issue.id],
{
}

/// An agent that reports is not taken for stalled until it has been silent for longer
/// than the limit, counted from the report.
pub proof fn reports_renew_the_patience(v: StateView, policy: Policy, update: SessionUpdate, now: Timestamp)
    requires
        v.running.contains_key(update.issue_id@),
    ensures
        stalled(policy, v.informed(update).running[update.issue_id@], now) == (
        policy.stall_timeout_ms > 0 && whole_millis(now.total() - update.timestamp.total())
            > policy.stall_timeout_ms),
{
}

} // verus!
