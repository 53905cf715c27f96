//! What dispatching issues to agents is for.
use vstd::prelude::*;

use crate::config::{listed, Policy};
use crate::model::IssueView;
use crate::orchestrator::events::tick_dispatches;
use crate::orchestrator::laws::{orderly, tick_keeps_order, tick_takes_only_free_work};
use crate::orchestrator::order::{groups, is_project_order, ordering_keeps_candidates};
use crate::orchestrator::state::{in_state, RunningView, StateView};
use crate::text::{lowercase, same_ignoring_case};
use crate::time::Timestamp;

verus! {

/// An issue that can be worked on at all: it has an id, an identifier, a title and a
/// state; the state is one to work in and no final one; and every issue that blocks it
/// is known to be in a final state.
pub open spec fn ready(policy: Policy, issue: IssueView) -> bool {
    &&& issue.id.len() > 0
    &&& issue.identifier.len() > 0
    &&& issue.title.len() > 0
    &&& issue.state.len() > 0
    &&& listed(policy.active, issue.state)
    &&& !listed(policy.terminal, issue.state)
    &&& forall|i: int|
        0 <= i < issue.blocked_by.len() ==> (#[trigger] issue.blocked_by[i]).state is Some
            && listed(policy.terminal, issue.blocked_by[i].state->Some_0)
}

/// The agents at work on issues in a state, in whatever case it is written.
pub open spec fn agents_in(running: Map<Seq<char>, RunningView>, state: Seq<char>) -> Set<
    Seq<char>,
> {
    Set::new(
        |k: Seq<char>|
            running.contains_key(k) && same_ignoring_case(running[k].issue.state, state),
    )
}

/// How many agents may work on issues in a state: the limit of the state where it has
/// one, else the limit for all.
pub open spec fn most_in(policy: Policy, state: Seq<char>) -> int {
    if policy.max_by_state.dom().contains(lowercase(state)) {
        policy.max_by_state[lowercase(state)] as int
    } else {
        policy.max_concurrent as int
    }
}

proof fn same_agents(running: Map<Seq<char>, RunningView>, state: Seq<char>)
    ensures
        in_state(running, state) == agents_in(running, state),
{
    assert(in_state(running, state) =~= agents_in(running, state));
}

/// An issue is taken up just where it is ready, nobody has claimed it or works on it,
/// and there is room for one more agent, among all and in the issue's state.
pub proof fn issue_is_taken_up_where_there_is_room(v: StateView, policy: Policy, issue: IssueView)
    ensures
        v.wants(policy, issue) <==> {
            &&& ready(policy, issue)
            &&& !v.claimed.contains(issue.id)
            &&& !v.running.dom().contains(issue.id)
            &&& v.running.dom().len() < policy.max_concurrent
            &&& agents_in(v.running, issue.state).len() < most_in(policy, issue.state)
        },
{
    same_agents(v.running, issue.state);
    if v.wants(policy, issue) {
        assert forall|i: int| 0 <= i < issue.blocked_by.len() implies (
        #[trigger] issue.blocked_by[i]).state is Some && listed(
            policy.terminal,
            issue.blocked_by[i].state->Some_0,
        ) by {}
    }
}

/// Whoever is put to work works on the issue as it was given, from now on, with nothing
/// reported and no comment seen; the issue is claimed; a retry that waited for it is
/// gone; and nothing else changes.
pub proof fn dispatch_starts_a_fresh_agent(
    v: StateView,
    issue: IssueView,
    attempt: Option<u32>,
    now: Timestamp,
)
    ensures
        ({
            let after = v.dispatched(issue, attempt, now);
            let entry = after.running[issue.id];
            &&& after.running.dom() == v.running.dom().insert(issue.id)
            &&& entry.issue == issue
            &&& entry.identifier == issue.identifier
            &&& entry.retry_attempt == attempt
            &&& entry.started_at == now
            &&& entry.last_agent_timestamp is None
            &&& entry.last_agent_event is None
            &&& entry.last_agent_message is None
            &&& entry.session_id is None && entry.thread_id is None && entry.turn_id is None
            &&& entry.agent_pid is None
            &&& entry.turn_count == 0
            &&& !entry.pending_cleanup
            &&& entry.accepts_comments
            &&& entry.usage.input_tokens == 0 && entry.usage.output_tokens == 0
            &&& entry.usage.total_tokens == 0
            &&& entry.reported.input_tokens == 0 && entry.reported.output_tokens == 0
            &&& entry.reported.total_tokens == 0
            &&& forall|id: Seq<char>| !entry.seen_comment_ids.contains(id)
            &&& forall|k: Seq<char>|
                k != issue.id && v.running.contains_key(k) ==> #[trigger] after.running[k]
                    == v.running[k]
            &&& forall|k: Seq<char>| #[trigger]
                after.claimed.contains(k) <==> (k == issue.id || v.claimed.contains(k))
            &&& forall|k: Seq<char>| #[trigger]
                after.retries.contains_key(k) <==> (k != issue.id && v.retries.contains_key(k))
            &&& forall|k: Seq<char>|
                after.retries.contains_key(k) ==> #[trigger] after.retries[k] == v.retries[k]
            &&& after.completed == v.completed
            &&& after.totals == v.totals
            &&& after.rate_limits == v.rate_limits
            &&& after.poll_interval_ms == v.poll_interval_ms
            &&& after.max_concurrent_agents == v.max_concurrent_agents
        }),
{
    assert(v.dispatched(issue, attempt, now).running.dom() =~= v.running.dom().insert(issue.id));
}

/// How a tick relates to the one before its last candidate: either nothing changes and
/// nothing is chosen, or an agent is put to work on that candidate.
proof fn tick_by_one(v: StateView, policy: Policy, issues: Seq<IssueView>, now: Timestamp)
    requires
        orderly(v),
        issues.len() > 0,
    ensures
        ({
            let (w, done) = v.dispatched_all(policy, issues.drop_last(), now);
            let (after, chosen) = v.dispatched_all(policy, issues, now);
            let issue = issues.last();
            &&& orderly(w)
            &&& w.wants(policy, issue) ==> after == w.dispatched(issue, None, now) && chosen
                == done.push(issue)
            &&& !w.wants(policy, issue) ==> after == w && chosen == done
        }),
{
    tick_keeps_order(v, policy, issues.drop_last(), now);
}

proof fn agents_only_come(v: StateView, w: StateView, policy: Policy, state: Seq<char>)
    requires
        v.running.dom().finite(),
        w.running.dom().finite(),
        forall|k: Seq<char>|
            v.running.contains_key(k) ==> w.running.contains_key(k) && #[trigger] w.running[k]
                == v.running[k],
    ensures
        v.running.dom().len() <= w.running.dom().len(),
        agents_in(v.running, state).len() <= agents_in(w.running, state).len(),
        agents_in(w.running, state).finite(),
{
    vstd::set_lib::lemma_len_subset(v.running.dom(), w.running.dom());
    vstd::set_lib::lemma_len_subset(agents_in(w.running, state), w.running.dom());
    assert forall|k: Seq<char>| agents_in(v.running, state).contains(k) implies agents_in(
        w.running,
        state,
    ).contains(k) by {
        assert(w.running[k] == v.running[k]);
    }
    vstd::set_lib::lemma_len_subset(agents_in(v.running, state), agents_in(w.running, state));
}

/// A tick keeps the agents that run, puts one to work on each issue that it chooses,
/// and on no other; it chooses among the candidates, in their order.
pub proof fn tick_starts_what_it_chooses(
    v: StateView,
    policy: Policy,
    issues: Seq<IssueView>,
    now: Timestamp,
)
    requires
        orderly(v),
    ensures
        ({
            let (after, chosen) = v.dispatched_all(policy, issues, now);
            &&& after.running.dom().finite()
            &&& v.running.dom().subset_of(after.running.dom())
            &&& forall|k: Seq<char>|
                v.running.contains_key(k) ==> #[trigger] after.running[k] == v.running[k]
            &&& forall|i: int|
                0 <= i < chosen.len() ==> {
                    &&& after.running.contains_key((#[trigger] chosen[i]).id)
                    &&& after.running[chosen[i].id].issue == chosen[i]
                    &&& after.running[chosen[i].id].started_at == now
                    &&& after.running[chosen[i].id].retry_attempt is None
                }
            &&& forall|k: Seq<char>| #[trigger]
                after.running.contains_key(k) && !v.running.contains_key(k) ==> exists|i: int|
                    0 <= i < chosen.len() && (#[trigger] chosen[i]).id == k
            &&& forall|k: Seq<char>|
                v.claimed.contains(k) ==> #[trigger] after.claimed.contains(k)
            &&& forall|k: Seq<char>| #[trigger]
                after.claimed.contains(k) && !v.claimed.contains(k) ==> after.running.contains_key(
                    k,
                )
            &&& after.retries.dom() == v.retries.dom()
            &&& forall|k: Seq<char>|
                v.retries.contains_key(k) ==> #[trigger] after.retries[k] == v.retries[k]
            &&& after.completed == v.completed
            &&& after.totals == v.totals
            &&& after.rate_limits == v.rate_limits
            &&& after.poll_interval_ms == v.poll_interval_ms
            &&& after.max_concurrent_agents == v.max_concurrent_agents
        }),
    decreases issues.len(),
{
    if issues.len() > 0 {
        let rest = issues.drop_last();
        tick_starts_what_it_chooses(v, policy, rest, now);
        tick_by_one(v, policy, issues, now);
        let (w, done) = v.dispatched_all(policy, rest, now);
        let (after, chosen) = v.dispatched_all(policy, issues, now);
        let issue = issues.last();
        if w.wants(policy, issue) {
            issue_is_taken_up_where_there_is_room(w, policy, issue);
            dispatch_starts_a_fresh_agent(w, issue, None, now);
            assert forall|i: int| 0 <= i < chosen.len() implies {
                &&& after.running.contains_key((#[trigger] chosen[i]).id)
                &&& after.running[chosen[i].id].issue == chosen[i]
                &&& after.running[chosen[i].id].started_at == now
                &&& after.running[chosen[i].id].retry_attempt is None
            } by {
                if i < done.len() {
                    assert(chosen[i] == done[i]);
                    assert(w.running.contains_key(done[i].id));
                }
            }
            assert forall|k: Seq<char>| #[trigger]
                after.running.contains_key(k) && !v.running.contains_key(k) implies exists|i: int|
                0 <= i < chosen.len() && (#[trigger] chosen[i]).id == k by {
                if k == issue.id {
                    assert(chosen[done.len() as int].id == k);
                } else {
                    assert(w.running.contains_key(k));
                    let i = choose|i: int| 0 <= i < done.len() && (#[trigger] done[i]).id == k;
                    assert(chosen[i] == done[i]);
                }
            }
            assert forall|k: Seq<char>| v.running.contains_key(k) implies #[trigger] after.running[k]
                == v.running[k] by {
                assert(w.running[k] == v.running[k]);
            }
            assert forall|k: Seq<char>| #[trigger]
                after.claimed.contains(k) && !v.claimed.contains(k) implies after.running.contains_key(
                k,
            ) by {
                if k != issue.id {
                    assert(w.claimed.contains(k));
                }
            }
            assert forall|k: Seq<char>| v.claimed.contains(k) implies #[trigger] after.claimed.contains(
                k,
            ) by {
                assert(w.claimed.contains(k));
            }
            assert(!w.retries.contains_key(issue.id));
            assert(after.retries.dom() =~= v.retries.dom());
            assert forall|k: Seq<char>| v.retries.contains_key(k) implies #[trigger] after.retries[k]
                == v.retries[k] by {
                assert(w.retries[k] == v.retries[k]);
            }
        }
    }
}

/// What is chosen from the first candidates is chosen whatever comes behind them, so an
/// earlier candidate never yields to a later one.
pub proof fn earlier_candidates_go_first(
    v: StateView,
    policy: Policy,
    issues: Seq<IssueView>,
    n: int,
    now: Timestamp,
)
    requires
        orderly(v),
        0 <= n <= issues.len(),
    ensures
        v.dispatched_all(policy, issues.take(n), now).1.is_prefix_of(
            v.dispatched_all(policy, issues, now).1,
        ),
    decreases issues.len() - n,
{
    if n < issues.len() {
        earlier_candidates_go_first(v, policy, issues, n + 1, now);
        let more = issues.take(n + 1);
        assert(more.drop_last() =~= issues.take(n));
        tick_by_one(v, policy, more, now);
        let a = v.dispatched_all(policy, issues.take(n), now).1;
        let b = v.dispatched_all(policy, more, now).1;
        let c = v.dispatched_all(policy, issues, now).1;
        assert(a.is_prefix_of(b));
        assert(c.subrange(0, a.len() as int) =~= b.subrange(0, a.len() as int));
    } else {
        assert(issues.take(n) =~= issues);
        let c = v.dispatched_all(policy, issues, now).1;
        assert(c.subrange(0, c.len() as int) =~= c);
    }
}

/// A tick leaves no work behind: a candidate that is ready is claimed, unless all slots
/// are taken or those of its state are.
pub proof fn tick_leaves_no_work_behind(
    v: StateView,
    policy: Policy,
    issues: Seq<IssueView>,
    now: Timestamp,
)
    requires
        orderly(v),
    ensures
        ({
            let after = v.dispatched_all(policy, issues, now).0;
            &&& forall|i: int|
                #![trigger issues[i]]
                0 <= i < issues.len() && ready(policy, issues[i]) ==> {
                    ||| after.claimed.contains(issues[i].id)
                    ||| after.running.dom().len() >= policy.max_concurrent
                    ||| agents_in(after.running, issues[i].state).len() >= most_in(
                        policy,
                        issues[i].state,
                    )
                }
            &&& forall|i: int|
                0 <= i < issues.len() ==> !after.wants(policy, #[trigger] issues[i])
        }),
    decreases issues.len(),
{
    if issues.len() > 0 {
        let rest = issues.drop_last();
        tick_leaves_no_work_behind(v, policy, rest, now);
        tick_by_one(v, policy, issues, now);
        tick_keeps_order(v, policy, issues, now);
        let w = v.dispatched_all(policy, rest, now).0;
        let after = v.dispatched_all(policy, issues, now).0;
        let last = issues.last();
        issue_is_taken_up_where_there_is_room(w, policy, last);
        if w.wants(policy, last) {
            dispatch_starts_a_fresh_agent(w, last, None, now);
        }
        assert forall|i: int| #![trigger issues[i]] 0 <= i < issues.len() implies {
            &&& ready(policy, issues[i]) ==> {
                ||| after.claimed.contains(issues[i].id)
                ||| after.running.dom().len() >= policy.max_concurrent
                ||| agents_in(after.running, issues[i].state).len() >= most_in(
                    policy,
                    issues[i].state,
                )
            }
            &&& !after.wants(policy, issues[i])
        } by {
            let issue = issues[i];
            agents_only_come(w, after, policy, issue.state);
            issue_is_taken_up_where_there_is_room(after, policy, issue);
            if i < rest.len() {
                assert(rest[i] == issue);
            } else {
                assert(issue == last);
            }
        }
    }
}

/// A tick goes beyond no limit: it leaves no more agents at work than may be, in all
/// and in each state, or as many as there were.
pub proof fn tick_goes_beyond_no_limit(
    v: StateView,
    policy: Policy,
    issues: Seq<IssueView>,
    now: Timestamp,
    state: Seq<char>,
)
    requires
        orderly(v),
    ensures
        ({
            let after = v.dispatched_all(policy, issues, now).0;
            &&& after.running.dom().len() <= policy.max_concurrent || after.running.dom()
                == v.running.dom()
            &&& agents_in(after.running, state).len() <= agents_in(v.running, state).len()
                || exists|name: Seq<char>|
                same_ignoring_case(name, state) && agents_in(after.running, state).len()
                    <= #[trigger] most_in(policy, name)
        }),
    decreases issues.len(),
{
    if issues.len() > 0 {
        let rest = issues.drop_last();
        tick_goes_beyond_no_limit(v, policy, rest, now, state);
        tick_by_one(v, policy, issues, now);
        let w = v.dispatched_all(policy, rest, now).0;
        let after = v.dispatched_all(policy, issues, now).0;
        let issue = issues.last();
        if w.wants(policy, issue) {
            issue_is_taken_up_where_there_is_room(w, policy, issue);
            dispatch_starts_a_fresh_agent(w, issue, None, now);
            vstd::set_lib::lemma_len_subset(agents_in(w.running, state), w.running.dom());
            if same_ignoring_case(issue.state, state) {
                assert(agents_in(w.running, state) =~= agents_in(w.running, issue.state));
                assert(agents_in(after.running, state) =~= agents_in(w.running, state).insert(
                    issue.id,
                )) by {
                    assert forall|k: Seq<char>| #[trigger]
                        agents_in(after.running, state).contains(k) <==> agents_in(
                        w.running,
                        state,
                    ).insert(issue.id).contains(k) by {
                        if k != issue.id && w.running.contains_key(k) {
                            assert(after.running[k] == w.running[k]);
                        }
                    }
                }
                assert(agents_in(after.running, state).len() <= most_in(policy, issue.state));
            } else {
                assert forall|k: Seq<char>| #[trigger]
                    agents_in(after.running, state).contains(k) <==> agents_in(
                    w.running,
                    state,
                ).contains(k) by {
                    if k != issue.id && w.running.contains_key(k) {
                        assert(after.running[k] == w.running[k]);
                    }
                }
                assert(agents_in(after.running, state) =~= agents_in(w.running, state));
            }
        }
    }
}

/// The whole of a tick, in whatever order it takes the candidates: every candidate that is
/// ready is claimed, unless all slots are taken or those of its state are; and the agents
/// that are put to work are put to work on candidates.
pub proof fn whole_tick_leaves_no_work_behind(
    v: StateView,
    policy: Policy,
    candidates: Seq<IssueView>,
    now: Timestamp,
    active: Option<Seq<char>>,
    after: StateView,
    chosen: Seq<IssueView>,
)
    requires
        orderly(v),
        tick_dispatches(v, policy, candidates, now, active, after, chosen),
    ensures
        forall|i: int|
            #![trigger candidates[i]]
            0 <= i < candidates.len() && ready(policy, candidates[i]) ==> {
                ||| after.claimed.contains(candidates[i].id)
                ||| after.running.dom().len() >= policy.max_concurrent
                ||| agents_in(after.running, candidates[i].state).len() >= most_in(
                    policy,
                    candidates[i].state,
                )
            },
        forall|i: int| 0 <= i < chosen.len() ==> candidates.contains(#[trigger] chosen[i]),
{
    broadcast use vstd::seq_lib::group_to_multiset_ensures;

    let slugs = choose|slugs: Seq<Option<Seq<char>>>|
        is_project_order(candidates, active, slugs) && (after, chosen) == v.dispatched_all(
            policy,
            #[trigger] groups(candidates, slugs),
            now,
        );
    let issues = groups(candidates, slugs);
    ordering_keeps_candidates(candidates, active, slugs);
    tick_leaves_no_work_behind(v, policy, issues, now);
    tick_takes_only_free_work(v, policy, issues, now);
    assert forall|i: int|
        #![trigger candidates[i]]
        0 <= i < candidates.len() && ready(policy, candidates[i]) implies {
        ||| after.claimed.contains(candidates[i].id)
        ||| after.running.dom().len() >= policy.max_concurrent
        ||| agents_in(after.running, candidates[i].state).len() >= most_in(
            policy,
            candidates[i].state,
        )
    } by {
        assert(candidates.contains(candidates[i]));
        assert(issues.to_multiset().count(candidates[i]) > 0);
        assert(issues.contains(candidates[i]));
        let j = issues.index_of(candidates[i]);
        assert(issues[j] == candidates[i]);
    }
    assert forall|i: int| 0 <= i < chosen.len() implies candidates.contains(
        #[trigger] chosen[i],
    ) by {
        assert(issues.contains(chosen[i]));
        assert(candidates.to_multiset().count(chosen[i]) > 0);
    }
}

} // verus!
