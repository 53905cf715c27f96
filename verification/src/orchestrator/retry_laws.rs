//! What ending an agent, and trying again, are for.
use vstd::prelude::*;

use crate::agent::OutcomeView;
use crate::config::{listed, Policy};
use crate::model::IssueView;
use crate::orchestrator::dispatch_laws::{agents_in, most_in};
use crate::orchestrator::events::{doubled, doubled_grows, first_with_id, retry_delay, Resumption};
use crate::orchestrator::state::{in_state, RetryDelay, RetryView, StateView};
use crate::time::Timestamp;

verus! {

/// The smaller of two numbers.
pub open spec fn smaller(a: int, b: int) -> int {
    if a <= b {
        a
    } else {
        b
    }
}

/// Going on waits a second. A first failure waits ten seconds, each further one twice
/// as long as the one before, and none longer than the limit.
pub proof fn each_failure_waits_twice_as_long(attempt: u32, backoff_ms: u64)
    requires
        1 <= attempt < u32::MAX,
    ensures
        retry_delay(RetryDelay::Continuation, attempt, backoff_ms) == 1000,
        retry_delay(RetryDelay::Backoff, 1, backoff_ms) == smaller(10_000, backoff_ms as int),
        retry_delay(RetryDelay::Backoff, 0, backoff_ms) == smaller(10_000, backoff_ms as int),
        retry_delay(RetryDelay::Backoff, (attempt + 1) as u32, backoff_ms) == smaller(
            2 * retry_delay(RetryDelay::Backoff, attempt, backoff_ms),
            backoff_ms as int,
        ),
{
    assert(doubled(0) == 1);
    assert(doubled(attempt as nat) == 2 * doubled((attempt - 1) as nat));
    doubled_grows((attempt - 1) as nat, attempt as nat);
}

/// An agent that ends stops running, and nothing else does. A normal end is gone on
/// with after a second, as a first attempt, and is noted; a failure is tried again
/// under the next number, for the reason that it gave; an attempt that was called off
/// is let go. The retry bears the issue's id and the agent's identifier.
pub proof fn ended_agent_is_gone_on_with_tried_again_or_let_go(
    v: StateView,
    policy: Policy,
    id: Seq<char>,
    outcome: OutcomeView,
)
    requires
        v.running.contains_key(id),
        v.running[id].retry_attempt matches Some(n) ==> n < u32::MAX,
    ensures
        ({
            let after = v.exited(policy, id, outcome);
            let retry = after.retries[id];
            let called_off = outcome is CanceledByReconciliation;
            &&& after.running.dom() == v.running.dom().remove(id)
            &&& forall|k: Seq<char>|
                after.running.contains_key(k) ==> #[trigger] after.running[k] == v.running[k]
            &&& forall|k: Seq<char>| #[trigger]
                after.claimed.contains(k) <==> v.claimed.contains(k) && !(called_off && k == id)
            &&& forall|k: Seq<char>| #[trigger]
                after.completed.contains(k) <==> v.completed.contains(k) || (outcome is Normal && k
                    == id)
            &&& forall|k: Seq<char>|
                k != id ==> (#[trigger] after.retries.contains_key(k) <==> v.retries.contains_key(k))
            &&& forall|k: Seq<char>|
                k != id && v.retries.contains_key(k) ==> #[trigger] after.retries[k] == v.retries[k]
            &&& called_off ==> after.retries == v.retries
            &&& !called_off ==> {
                &&& after.retries.contains_key(id)
                &&& retry.issue_id == id
                &&& retry.identifier == v.running[id].identifier
                &&& outcome is Normal ==> retry.attempt == 1 && retry.delay_ms == 1000
                    && retry.error is None
                &&& !(outcome is Normal) ==> retry.attempt == match v.running[id].retry_attempt {
                    Some(n) => n + 1,
                    None => 1,
                }
                &&& !(outcome is Normal) ==> retry.delay_ms == retry_delay(
                    RetryDelay::Backoff,
                    retry.attempt,
                    policy.retry_backoff_ms,
                )
                &&& outcome matches OutcomeView::Failed(reason) ==> retry.error == Some(reason)
                &&& outcome is TimedOut ==> retry.error == Some("turn_timeout"@)
                &&& outcome is Stalled ==> retry.error == Some("stalled"@)
            }
            &&& after.totals == v.totals
            &&& after.rate_limits == v.rate_limits
            &&& after.poll_interval_ms == v.poll_interval_ms
            &&& after.max_concurrent_agents == v.max_concurrent_agents
        }),
{
    let after = v.exited(policy, id, outcome);
    assert(after.running.dom() =~= v.running.dom().remove(id));
    let attempt = match v.running[id].retry_attempt {
        Some(n) => (n + 1) as u32,
        None => 1,
    };
    delay_fits(attempt, policy.retry_backoff_ms);
}

proof fn delay_fits(attempt: u32, backoff_ms: u64)
    ensures
        0 <= retry_delay(RetryDelay::Backoff, attempt, backoff_ms) <= backoff_ms,
{
}

/// Whether `issue` is the first of `issues` with this id.
pub open spec fn is_first(issues: Seq<IssueView>, id: Seq<char>, issue: IssueView) -> bool {
    exists|i: int|
        0 <= i < issues.len() && #[trigger] issues[i] == issue && issue.id == id && forall|j: int|
            0 <= j < i ==> (#[trigger] issues[j]).id != id
}

proof fn first_is_first(issues: Seq<IssueView>, id: Seq<char>)
    ensures
        first_with_id(issues, id) matches Some(issue) ==> is_first(issues, id, issue),
        first_with_id(issues, id) is None ==> forall|i: int|
            0 <= i < issues.len() ==> (#[trigger] issues[i]).id != id,
    decreases issues.len(),
{
    if issues.len() > 0 {
        let rest = issues.drop_first();
        if issues[0].id != id {
            first_is_first(rest, id);
            if first_with_id(rest, id) is Some {
                let issue = first_with_id(rest, id)->Some_0;
                let i = choose|i: int|
                    0 <= i < rest.len() && #[trigger] rest[i] == issue && issue.id == id
                        && forall|j: int| 0 <= j < i ==> (#[trigger] rest[j]).id != id;
                assert(issues[i + 1] == issue);
                assert forall|j: int| 0 <= j < i + 1 implies (#[trigger] issues[j]).id != id by {
                    if j > 0 {
                        assert(rest[j - 1] == issues[j]);
                    }
                }
            } else {
                assert forall|i: int| 0 <= i < issues.len() implies (#[trigger] issues[i]).id
                    != id by {
                    if i > 0 {
                        assert(rest[i - 1] == issues[i]);
                    }
                }
            }
        } else {
            assert(issues[0] == issues[0]);
        }
    }
}

/// What becomes of a retry that is due. Where the candidates could not be fetched it
/// waits again. Where its issue is not among them, or is no longer to be worked on, it
/// is let go. Where there is room, an agent is put to work on the issue as it was
/// fetched; else the retry waits again.
pub proof fn due_retry_is_worked_on_where_there_is_room(
    v: StateView,
    policy: Policy,
    retry: RetryView,
    fetched: Option<Seq<IssueView>>,
)
    ensures
        fetched is None ==> v.resumption(policy, retry, fetched) == (Resumption::Again {
            identifier: retry.identifier,
            error: "retry poll failed"@,
        }),
        fetched matches Some(issues) && (forall|i: int|
            0 <= i < issues.len() ==> (#[trigger] issues[i]).id != retry.issue_id)
            ==> v.resumption(policy, retry, fetched) is Released,
        forall|issue: IssueView|
            fetched is Some && #[trigger] is_first(fetched->Some_0, retry.issue_id, issue) ==> {
                let what = v.resumption(policy, retry, fetched);
                let room = v.running.dom().len() < policy.max_concurrent && agents_in(
                    v.running,
                    issue.state,
                ).len() < most_in(policy, issue.state);
                &&& !listed(policy.active, issue.state) ==> what is Released
                &&& listed(policy.active, issue.state) && room ==> what == Resumption::Dispatched(
                    issue,
                )
                &&& listed(policy.active, issue.state) && !room ==> what == (Resumption::Again {
                    identifier: issue.identifier,
                    error: "no available orchestrator slots"@,
                })
            },
{
    if fetched is Some {
        let issues = fetched->Some_0;
        first_is_first(issues, retry.issue_id);
        assert forall|issue: IssueView| #[trigger] is_first(
            issues,
            retry.issue_id,
            issue,
        ) implies first_with_id(issues, retry.issue_id) == Some(issue) by {
            let i = choose|i: int|
                0 <= i < issues.len() && #[trigger] issues[i] == issue && issue.id
                    == retry.issue_id && forall|j: int|
                    0 <= j < i ==> (#[trigger] issues[j]).id != retry.issue_id;
            let found = first_with_id(issues, retry.issue_id);
            assert(found is Some);
            let k = choose|k: int|
                0 <= k < issues.len() && #[trigger] issues[k] == found->Some_0
                    && found->Some_0.id == retry.issue_id && forall|j: int|
                    0 <= j < k ==> (#[trigger] issues[j]).id != retry.issue_id;
            assert(i == k);
        }
        assert forall|issue: IssueView| in_state(v.running, #[trigger] issue.state) == agents_in(
            v.running,
            issue.state,
        ) by {
            assert(in_state(v.running, issue.state) =~= agents_in(v.running, issue.state));
        }
    }
}

/// A retry that waits again counts up, keeps its issue claimed and says why; one that
/// is let go gives up its claim; one that is worked on hands its number to the agent.
pub proof fn retry_counts_up_gives_up_or_goes_on(
    v: StateView,
    policy: Policy,
    retry: RetryView,
    what: Resumption,
    now: Timestamp,
)
    requires
        what is Again ==> retry.attempt < u32::MAX,
    ensures
        ({
            let after = v.resumed(policy, retry, what, now);
            let id = retry.issue_id;
            &&& what matches Resumption::Again { identifier, error } ==> {
                &&& after.retries == v.retries.insert(id, after.retries[id])
                &&& after.retries[id].issue_id == id
                &&& after.retries[id].identifier == identifier
                &&& after.retries[id].error == Some(error)
                &&& after.retries[id].attempt == retry.attempt + 1
                &&& after.retries[id].delay_ms == retry_delay(
                    RetryDelay::Backoff,
                    after.retries[id].attempt,
                    policy.retry_backoff_ms,
                )
                &&& after.running == v.running
                &&& after.claimed == v.claimed
            }
            &&& what is Released ==> {
                &&& forall|k: Seq<char>| #[trigger]
                    after.claimed.contains(k) <==> v.claimed.contains(k) && k != id
                &&& after.running == v.running
                &&& after.retries == v.retries
            }
            &&& what matches Resumption::Dispatched(issue) ==> {
                &&& after.running.contains_key(issue.id)
                &&& after.running[issue.id].issue == issue
                &&& after.running[issue.id].retry_attempt == Some(retry.attempt)
                &&& after.running[issue.id].started_at == now
                &&& after.claimed.contains(issue.id)
                &&& !after.retries.contains_key(issue.id)
                &&& forall|k: Seq<char>|
                    k != issue.id && v.running.contains_key(k) ==> #[trigger] after.running[k]
                        == v.running[k]
            }
            &&& after.completed == v.completed
            &&& after.totals == v.totals
            &&& after.rate_limits == v.rate_limits
        }),
{
    if what is Again {
        delay_fits((retry.attempt + 1) as u32, policy.retry_backoff_ms);
        let after = v.resumed(policy, retry, what, now);
        assert(after.retries =~= v.retries.insert(retry.issue_id, after.retries[retry.issue_id]));
    }
}

} // verus!
