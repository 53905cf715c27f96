//! What holds of the orchestrator however long it runs.
use vstd::prelude::*;

use crate::agent::{OutcomeView, SessionUpdate};
use crate::config::Policy;
use crate::model::{CommentView, IssueView};
use crate::orchestrator::laws::{
    exit_keeps_order, orderly, reconciling_keeps_order, reports_keep_order, retry_keeps_order,
    retry_respects_the_limits, tick_keeps_order, tick_respects_the_limit,
};
use crate::orchestrator::state::StateView;
use crate::time::Timestamp;

verus! {

/// What happens to the orchestrator.
pub ghost enum Step {
    /// A tick, with the pause before the next, and the candidates in the order in which
    /// they are looked at.
    Tick { poll_interval_ms: u64, issues: Seq<IssueView>, now: Timestamp },
    /// An agent ends.
    Exit { id: Seq<char>, outcome: OutcomeView },
    /// A retry is due; the candidates may be missing.
    Retry { id: Seq<char>, fetched: Option<Seq<IssueView>>, now: Timestamp },
    /// A retry is due, and no tracker can be set up.
    RetryDropped { id: Seq<char> },
    /// The tracker gives news of the running issues.
    Reconcile { issues: Seq<IssueView> },
    /// An agent reports.
    Report { update: SessionUpdate },
    /// The comments on a running issue are there.
    Comments { id: Seq<char>, comments: Seq<CommentView> },
}

/// The state at a tick, once the settings were taken over.
pub open spec fn configured(v: StateView, policy: Policy, poll_interval_ms: u64) -> StateView {
    StateView { poll_interval_ms, max_concurrent_agents: policy.max_concurrent, ..v }
}

/// The state after a step under a policy.
pub open spec fn after_step(v: StateView, policy: Policy, step: Step) -> StateView {
    match step {
        Step::Tick { poll_interval_ms, issues, now } => configured(
            v,
            policy,
            poll_interval_ms,
        ).dispatched_all(policy, issues, now).0,
        Step::Exit { id, outcome } => v.exited(policy, id, outcome),
        Step::Retry { id, fetched, now } => if v.retries.contains_key(id) {
            let w = StateView { retries: v.retries.remove(id), ..v };
            w.resumed(policy, v.retries[id], w.resumption(policy, v.retries[id], fetched), now)
        } else {
            v
        },
        Step::RetryDropped { id } => StateView { retries: v.retries.remove(id), ..v },
        Step::Reconcile { issues } => v.reconciled(policy, issues),
        Step::Report { update } => v.informed(update),
        Step::Comments { id, comments } => v.read_comments(id, comments),
    }
}

/// The state after all steps, each under the policy that is in force by then: a
/// workflow that has changed is picked up between any two of them.
pub open spec fn after_all(v: StateView, steps: Seq<(Policy, Step)>) -> StateView
    decreases steps.len(),
{
    if steps.len() == 0 {
        v
    } else {
        after_step(after_all(v, steps.drop_last()), steps.last().0, steps.last().1)
    }
}

/// No more agents run than may.
pub open spec fn within_limit(v: StateView, policy: Policy) -> bool {
    v.running.dom().len() <= policy.max_concurrent
}

/// Every issue that is claimed runs or waits for a retry.
pub open spec fn claims_are_held(v: StateView) -> bool {
    v.claimed.subset_of(v.running.dom().union(v.retries.dom()))
}

proof fn step_keeps_order(v: StateView, policy: Policy, step: Step)
    requires
        orderly(v),
    ensures
        orderly(after_step(v, policy, step)),
{
    match step {
        Step::Tick { poll_interval_ms, issues, now } => tick_keeps_order(
            configured(v, policy, poll_interval_ms),
            policy,
            issues,
            now,
        ),
        Step::Exit { id, outcome } => exit_keeps_order(v, policy, id, outcome),
        Step::Retry { id, fetched, now } => {
            if v.retries.contains_key(id) {
                retry_keeps_order(v, policy, id, fetched, now);
            }
        },
        Step::RetryDropped { id } => {},
        Step::Reconcile { issues } => reconciling_keeps_order(v, policy, issues),
        Step::Report { update } => reports_keep_order(v, update, Seq::empty(), Seq::empty()),
        Step::Comments { id, comments } => {
            assert(v.read_comments(id, comments).running.dom() =~= v.running.dom());
        },
    }
}

/// A step starts agents only as far as the limit in force allows: behind it no more
/// agents run than may, or just those that ran before it, or fewer. Where the limit
/// was lowered, no agent is started until enough of them have ended.
pub proof fn step_respects_the_limit(v: StateView, policy: Policy, step: Step)
    requires
        orderly(v),
    ensures
        within_limit(after_step(v, policy, step), policy) || after_step(
            v,
            policy,
            step,
        ).running.dom().subset_of(v.running.dom()),
        v.running.dom().len() >= policy.max_concurrent ==> after_step(
            v,
            policy,
            step,
        ).running.dom().subset_of(v.running.dom()),
{
    let after = after_step(v, policy, step);
    match step {
        Step::Tick { poll_interval_ms, issues, now } => {
            let w = configured(v, policy, poll_interval_ms);
            tick_respects_the_limit(w, policy, issues, now);
            if v.running.dom().len() >= policy.max_concurrent {
                full_house_starts_nothing(w, policy, issues, now);
            }
        },
        Step::Exit { id, outcome } => {},
        Step::Retry { id, fetched, now } => {
            if v.retries.contains_key(id) {
                let w = StateView { retries: v.retries.remove(id), ..v };
                if w.resumption(policy, v.retries[id], fetched) is Dispatched {
                    retry_respects_the_limits(w, policy, v.retries[id], fetched);
                    let issue = w.resumption(policy, v.retries[id], fetched)->Dispatched_0;
                    assert(after.running.dom() =~= v.running.dom().insert(issue.id));
                }
            }
        },
        Step::RetryDropped { id } => {},
        Step::Reconcile { issues } => reconciling_keeps_order(v, policy, issues),
        Step::Report { update } => {
            assert(after.running.dom() =~= v.running.dom());
        },
        Step::Comments { id, comments } => {
            assert(after.running.dom() =~= v.running.dom());
        },
    }
}

proof fn full_house_starts_nothing(
    v: StateView,
    policy: Policy,
    issues: Seq<IssueView>,
    now: Timestamp,
)
    requires
        v.running.dom().len() >= policy.max_concurrent,
    ensures
        v.dispatched_all(policy, issues, now).0 == v,
    decreases issues.len(),
{
    if issues.len() > 0 {
        full_house_starts_nothing(v, policy, issues.drop_last(), now);
    }
}

proof fn tick_holds_claims(v: StateView, policy: Policy, issues: Seq<IssueView>, now: Timestamp)
    requires
        claims_are_held(v),
    ensures
        claims_are_held(v.dispatched_all(policy, issues, now).0),
    decreases issues.len(),
{
    if issues.len() > 0 {
        tick_holds_claims(v, policy, issues.drop_last(), now);
    }
}

proof fn step_holds_claims(v: StateView, policy: Policy, step: Step)
    requires
        orderly(v),
        claims_are_held(v),
        step !is RetryDropped,
    ensures
        claims_are_held(after_step(v, policy, step)),
{
    let after = after_step(v, policy, step);
    match step {
        Step::Tick { poll_interval_ms, issues, now } => tick_holds_claims(
            configured(v, policy, poll_interval_ms),
            policy,
            issues,
            now,
        ),
        Step::Exit { id, outcome } => {},
        Step::Retry { id, fetched, now } => {
            if v.retries.contains_key(id) {
                let w = StateView { retries: v.retries.remove(id), ..v };
                if w.resumption(policy, v.retries[id], fetched) is Dispatched {
                    retry_respects_the_limits(w, policy, v.retries[id], fetched);
                }
            }
        },
        Step::RetryDropped { id } => {},
        Step::Reconcile { issues } => reconciling_keeps_order(v, policy, issues),
        Step::Report { update } => {
            assert(after.running.dom() =~= v.running.dom());
        },
        Step::Comments { id, comments } => {
            assert(after.running.dom() =~= v.running.dom());
        },
    }
}

/// Whatever happens, for however long, and however the workflow changes on the way:
/// what runs or waits for a retry is claimed, and nothing does both.
pub proof fn run_keeps_order(v: StateView, steps: Seq<(Policy, Step)>)
    requires
        orderly(v),
    ensures
        orderly(after_all(v, steps)),
    decreases steps.len(),
{
    if steps.len() > 0 {
        run_keeps_order(v, steps.drop_last());
        step_keeps_order(after_all(v, steps.drop_last()), steps.last().0, steps.last().1);
    }
}

/// Whatever happens, and for however long: no more agents run than the largest limit
/// that was in force on the way allows.
pub proof fn run_stays_within_bounds(v: StateView, limit: nat, steps: Seq<(Policy, Step)>)
    requires
        orderly(v),
        v.running.dom().len() <= limit,
        forall|i: int| 0 <= i < steps.len() ==> (#[trigger] steps[i]).0.max_concurrent <= limit,
    ensures
        orderly(after_all(v, steps)),
        after_all(v, steps).running.dom().len() <= limit,
    decreases steps.len(),
{
    if steps.len() > 0 {
        let rest = steps.drop_last();
        assert forall|i: int| 0 <= i < rest.len() implies (#[trigger] rest[i]).0.max_concurrent
            <= limit by {
            assert(rest[i] == steps[i]);
        }
        run_stays_within_bounds(v, limit, rest);
        let w = after_all(v, rest);
        let (policy, step) = steps.last();
        assert(steps[steps.len() - 1] == steps.last());
        step_keeps_order(w, policy, step);
        step_respects_the_limit(w, policy, step);
        if after_step(w, policy, step).running.dom().subset_of(w.running.dom()) {
            vstd::set_lib::lemma_len_subset(
                after_step(w, policy, step).running.dom(),
                w.running.dom(),
            );
        }
    }
}

/// As long as a tracker can be set up whenever a retry is due, no claim is lost,
/// however the workflow changes on the way: a claimed issue runs or waits for a retry.
pub proof fn run_loses_no_claim(v: StateView, steps: Seq<(Policy, Step)>)
    requires
        orderly(v),
        claims_are_held(v),
        forall|i: int| 0 <= i < steps.len() ==> !((#[trigger] steps[i]).1 is RetryDropped),
    ensures
        orderly(after_all(v, steps)),
        claims_are_held(after_all(v, steps)),
    decreases steps.len(),
{
    if steps.len() > 0 {
        let rest = steps.drop_last();
        assert forall|i: int| 0 <= i < rest.len() implies !((
        #[trigger] rest[i]).1 is RetryDropped) by {
            assert(rest[i] == steps[i]);
        }
        run_loses_no_claim(v, rest);
        let w = after_all(v, rest);
        let (policy, step) = steps.last();
        assert(steps[steps.len() - 1] == steps.last());
        step_keeps_order(w, policy, step);
        step_holds_claims(w, policy, step);
    }
}

/// A fresh orchestrator has nothing out of order.
pub proof fn fresh_state_is_in_order(v: StateView, policy: Policy)
    requires
        v.running == Map::<Seq<char>, crate::orchestrator::state::RunningView>::empty(),
        v.claimed == Set::<Seq<char>>::empty(),
        v.retries == Map::<Seq<char>, crate::orchestrator::state::RetryView>::empty(),
    ensures
        orderly(v),
        within_limit(v, policy),
        claims_are_held(v),
{
    assert(v.running.dom() =~= Set::<Seq<char>>::empty());
    assert(v.retries.dom() =~= Set::<Seq<char>>::empty());
}

} // verus!
