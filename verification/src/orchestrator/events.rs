//! What the orchestrator does on ticks, on reports of workers and on due retries.
use vstd::prelude::*;

use crate::agent::{OutcomeView, WorkerOutcome};
use crate::config::{listed, Policy, ServiceConfig};
use crate::model::{clone_issue, issue_views, Issue, IssueView};
use crate::orchestrator::order::{groups, is_project_order, order_candidates};
use crate::orchestrator::state::{
    available_global_slots, dispatch_issue, has_available_state_slot, should_dispatch,
    OrchestratorState, RetryDelay, RetryEntry, RetryView, RunningView, StateView,
};
use crate::text::{opt_text, same_text};
use crate::time::Timestamp;

verus! {

// ---------------------------------------------------------------------------
// Ticks
// ---------------------------------------------------------------------------

/// The slug of the project of some running issue, if there is one.
pub fn active_project(state: &OrchestratorState) -> (r: Option<String>)
    requires
        state.wf(),
    ensures
        state@.running.dom().len() == 0 ==> r is None,
        r is Some ==> exists|k: Seq<char>| #[trigger]
            state@.running.contains_key(k) && state@.running[k].issue.slug() == opt_text(r),
        r is None && state@.running.dom().len() > 0 ==> exists|k: Seq<char>| #[trigger]
            state@.running.contains_key(k) && state@.running[k].issue.slug() is None,
{
    proof {
        state.running.size();
        assert(state@.running.dom() =~= state.running@.dom());
    }
    if state.running.entries.len() == 0 {
        return None;
    }
    proof {
        state.running.entry_at(0);
        assert(state@.running.contains_key(state.running.entries@[0].0@));
    }
    crate::model::project_slug(&state.running.entries[0].1.issue)
}

/// Dispatches the issues that are wanted, one after the other, until no slot is
/// left, and gives those that were dispatched.
pub fn dispatch_ordered(
    issues: Vec<Issue>,
    config: &ServiceConfig,
    now: Timestamp,
    state: &mut OrchestratorState,
) -> (r: Vec<Issue>)
    requires
        old(state).wf(),
        config.wf(),
    ensures
        final(state).wf(),
        (final(state)@, issue_views(r@)) == old(state)@.dispatched_all(
            config.policy(),
            issue_views(issues@),
            now,
        ),
{
    let ghost s = issue_views(issues@);
    let ghost start = state@;
    let mut out: Vec<Issue> = Vec::new();
    let mut i: usize = 0;
    assert(issue_views(out@) =~= Seq::<IssueView>::empty());
    while i < issues.len()
        invariant
            i <= issues@.len(),
            s == issue_views(issues@),
            start == old(state)@,
            state.wf(),
            config.wf(),
            (state@, issue_views(out@)) == start.dispatched_all(
                config.policy(),
                s.take(i as int),
                now,
            ),
        decreases issues@.len() - i,
    {
        let ghost done = issue_views(out@);
        assert(s.take(i + 1).drop_last() =~= s.take(i as int));
        if available_global_slots(state, config) == 0 {
            proof {
                full_state_stays(start, config.policy(), s, now, i as int, s.len() as int);
                assert(s.take(s.len() as int) =~= s);
            }
            return out;
        }
        if should_dispatch(&issues[i], state, config) {
            let _ = dispatch_issue(clone_issue(&issues[i]), None, now, state);
            out.push(clone_issue(&issues[i]));
            assert(issue_views(out@) =~= done.push(s[i as int]));
        }
        i = i + 1;
    }
    assert(s.take(i as int) =~= s);
    out
}

proof fn full_state_stays(
    v: StateView,
    policy: Policy,
    s: Seq<IssueView>,
    now: Timestamp,
    i: int,
    j: int,
)
    requires
        0 <= i <= j <= s.len(),
        v.dispatched_all(policy, s.take(i), now).0.free_slots(policy) == 0,
    ensures
        v.dispatched_all(policy, s.take(j), now) == v.dispatched_all(policy, s.take(i), now),
    decreases j - i,
{
    if i < j {
        full_state_stays(v, policy, s, now, i, j - 1);
        assert(s.take(j).drop_last() =~= s.take(j - 1));
    }
}

/// Whether dispatching on a tick turns `before` into `after` and puts agents to work
/// on `chosen`: the candidates are taken in some dispatch order in which the project
/// of a running issue comes first.
pub open spec fn tick_dispatches(
    before: StateView,
    policy: Policy,
    candidates: Seq<IssueView>,
    now: Timestamp,
    active: Option<Seq<char>>,
    after: StateView,
    chosen: Seq<IssueView>,
) -> bool {
    exists|slugs: Seq<Option<Seq<char>>>|
        is_project_order(candidates, active, slugs) && (after, chosen) == before.dispatched_all(
            policy,
            #[trigger] groups(candidates, slugs),
            now,
        )
}

/// Whether `slug` is the project of some running issue, or nothing where none runs
/// or the running issue has none.
pub open spec fn is_active_project(v: StateView, slug: Option<Seq<char>>) -> bool {
    if v.running.dom().len() == 0 {
        slug is None
    } else {
        exists|k: Seq<char>| #[trigger]
            v.running.contains_key(k) && v.running[k].issue.slug() == slug
    }
}

/// The rest of a tick, once the workflow was read again and the candidates were
/// fetched: `candidates` is nothing where that failed. The settings are taken over
/// in any case. The issues that agents are put to work on are given back.
pub fn on_tick(
    reloaded: bool,
    candidates: Option<Vec<Issue>>,
    config: &ServiceConfig,
    now: Timestamp,
    state: &mut OrchestratorState,
) -> (r: Vec<Issue>)
    requires
        old(state).wf(),
        config.wf(),
    ensures
        final(state).wf(),
        ({
            let v = StateView {
                poll_interval_ms: config.poll_interval_ms,
                max_concurrent_agents: config.scheduler.max_concurrent,
                ..old(state)@
            };
            if !reloaded || candidates is None {
                final(state)@ == v && r@.len() == 0
            } else {
                exists|active: Option<Seq<char>>|
                    is_active_project(v, active) && #[trigger] tick_dispatches(
                        v,
                        config.policy(),
                        issue_views(candidates->Some_0@),
                        now,
                        active,
                        final(state)@,
                        issue_views(r@),
                    )
            }
        }),
{
    state.poll_interval_ms = config.poll_interval_ms;
    state.max_concurrent_agents = config.scheduler.max_concurrent;
    let ghost v = state@;
    let candidates = match candidates {
        Some(candidates) => candidates,
        None => return Vec::new(),
    };
    if !reloaded {
        return Vec::new();
    }
    let active = active_project(state);
    assert(is_active_project(v, opt_text(active)));
    let ordered = order_candidates(&candidates, &active);
    let ghost slugs = choose|slugs: Seq<Option<Seq<char>>>|
        is_project_order(issue_views(candidates@), opt_text(active), slugs) && issue_views(ordered@)
            == #[trigger] groups(issue_views(candidates@), slugs);
    let out = dispatch_ordered(ordered, config, now, state);
    assert(tick_dispatches(
        v,
        config.policy(),
        issue_views(candidates@),
        now,
        opt_text(active),
        state@,
        issue_views(out@),
    ));
    out
}

// ---------------------------------------------------------------------------
// Retries
// ---------------------------------------------------------------------------

/// Two to the power of `n`.
pub open spec fn doubled(n: nat) -> nat
    decreases n,
{
    if n == 0 {
        1
    } else {
        2 * doubled((n - 1) as nat)
    }
}

/// How long a retry waits: a second to go on with an issue, else ten seconds,
/// doubled with each attempt and never more than the configured limit.
pub open spec fn retry_delay(mode: RetryDelay, attempt: u32, backoff_ms: u64) -> int {
    match mode {
        RetryDelay::Continuation => 1000,
        RetryDelay::Backoff => {
            let raw = 10_000 * doubled(
                if attempt == 0 {
                    0
                } else {
                    (attempt - 1) as nat
                },
            );
            if raw < backoff_ms {
                raw as int
            } else {
                backoff_ms as int
            }
        },
    }
}

/// Doubling more often gives no less.
pub proof fn doubled_grows(a: nat, b: nat)
    requires
        a <= b,
    ensures
        1 <= doubled(a) <= doubled(b),
    decreases b,
{
    if a < b {
        doubled_grows(a, (b - 1) as nat);
    } else if a > 0 {
        doubled_grows((a - 1) as nat, (b - 1) as nat);
    }
}

/// How long a retry waits.
pub fn retry_delay_ms(mode: RetryDelay, attempt: u32, backoff_ms: u64) -> (r: u64)
    ensures
        r == retry_delay(mode, attempt, backoff_ms),
{
    match mode {
        RetryDelay::Continuation => 1000,
        RetryDelay::Backoff => {
            let mut d: u64 = 10_000;
            let mut k: u32 = 1;
            while k < attempt
                invariant
                    mode == RetryDelay::Backoff,
                    1 <= k,
                    k <= attempt || k == 1,
                    d == 10_000 * doubled((k - 1) as nat),
                decreases attempt - k,
            {
                proof {
                    doubled_grows((k - 1) as nat, (attempt - 1) as nat);
                    doubled_grows(k as nat, (attempt - 1) as nat);
                    assert(doubled(k as nat) == 2 * doubled((k - 1) as nat));
                }
                if d >= backoff_ms || d > 9_223_372_036_854_775_807 {
                    return backoff_ms;
                }
                d = d * 2;
                k = k + 1;
            }
            if d < backoff_ms {
                d
            } else {
                backoff_ms
            }
        },
    }
}

impl StateView {
    /// A retry waits for the issue, in place of any that waited before.
    pub open spec fn rescheduled(self, id: Seq<char>, retry: RetryView) -> StateView {
        StateView { retries: self.retries.insert(id, retry), ..self }
    }
}

/// A timer for a retry: how long it waits, and whether it takes the place of another.
#[derive(Clone, Copy, Debug, PartialEq, Eq, Structural)]
pub struct RetryTimer {
    pub delay_ms: u64,
    pub replaces: bool,
}

/// Lets a retry wait for the issue.
pub fn schedule_retry(
    state: &mut OrchestratorState,
    backoff_ms: u64,
    issue_id: String,
    attempt: u32,
    identifier: Option<String>,
    error: Option<String>,
    mode: RetryDelay,
) -> (r: RetryTimer)
    requires
        old(state).wf(),
    ensures
        final(state).wf(),
        r.delay_ms == retry_delay(mode, attempt, backoff_ms),
        r.replaces == old(state)@.retries.contains_key(issue_id@),
        final(state)@ == old(state)@.rescheduled(
            issue_id@,
            RetryView {
                issue_id: issue_id@,
                identifier: match identifier {
                    Some(text) => text@,
                    None => Seq::empty(),
                },
                attempt,
                delay_ms: r.delay_ms,
                error: opt_text(error),
            },
        ),
{
    let ghost before = *state;
    let replaces = state.retry_attempts.contains_key(issue_id.as_str());
    let delay_ms = retry_delay_ms(mode, attempt, backoff_ms);
    let identifier = match identifier {
        Some(text) => text,
        None => String::new(),
    };
    let entry = RetryEntry { issue_id: issue_id.clone(), identifier, attempt, delay_ms, error };
    let ghost v = entry@;
    state.retry_attempts.insert(issue_id, entry);
    proof {
        assert(state@.retries =~= before@.retries.insert(issue_id@, v));
        assert(state@ =~= before@.rescheduled(issue_id@, v));
    }
    RetryTimer { delay_ms, replaces }
}

// ---------------------------------------------------------------------------
// Exits
// ---------------------------------------------------------------------------

/// The number of the attempt after one that was the `attempt`-th retry, or no retry.
pub open spec fn next_attempt(attempt: Option<u32>) -> int {
    match attempt {
        Some(n) => n + 1,
        None => 1,
    }
}

/// Whether an outcome counts as one more failure.
pub open spec fn counts_up(outcome: OutcomeView) -> bool {
    outcome is Failed || outcome is TimedOut || outcome is Stalled
}

/// The retry that an outcome asks for, if it asks for one: a normal end is gone on
/// with soon and counts anew, a failure waits longer each time, and an attempt that
/// was called off is not tried again.
pub open spec fn retry_after(
    policy: Policy,
    id: Seq<char>,
    entry: RunningView,
    outcome: OutcomeView,
) -> Option<RetryView> {
    let attempt = if outcome is Normal {
        1u32
    } else {
        next_attempt(entry.retry_attempt) as u32
    };
    let mode = if outcome is Normal {
        RetryDelay::Continuation
    } else {
        RetryDelay::Backoff
    };
    if outcome is CanceledByReconciliation {
        None
    } else {
        Some(
            RetryView {
                issue_id: id,
                identifier: entry.identifier,
                attempt,
                delay_ms: retry_delay(mode, attempt, policy.retry_backoff_ms) as u64,
                error: crate::agent::outcome_reason(outcome),
            },
        )
    }
}

impl StateView {
    /// The agent of the issue has ended with `outcome`.
    pub open spec fn exited(self, policy: Policy, id: Seq<char>, outcome: OutcomeView) -> StateView {
        if !self.running.contains_key(id) {
            self
        } else {
            let v = StateView { running: self.running.remove(id), ..self };
            match retry_after(policy, id, self.running[id], outcome) {
                Some(retry) => {
                    let w = v.rescheduled(id, retry);
                    if outcome is Normal {
                        StateView { completed: v.completed.insert(id), ..w }
                    } else {
                        w
                    }
                },
                None => StateView { claimed: v.claimed.remove(id), ..v },
            }
        }
    }
}

/// What is left to do after an exit: the workspace of `identifier` is removed where
/// `cleanup` says so, and a timer is set where there is one.
#[derive(Debug)]
pub struct ExitPlan {
    pub identifier: String,
    pub cleanup: bool,
    pub retry: Option<RetryTimer>,
}

/// Takes note of the end of an agent. An agent that is not known changes nothing.
pub fn handle_worker_exit(
    issue_id: &str,
    outcome: &WorkerOutcome,
    config: &ServiceConfig,
    state: &mut OrchestratorState,
) -> (r: Option<ExitPlan>)
    requires
        old(state).wf(),
        old(state)@.running.contains_key(issue_id@) && counts_up(outcome@) ==> next_attempt(
            old(state)@.running[issue_id@].retry_attempt,
        ) <= u32::MAX,
    ensures
        final(state).wf(),
        final(state)@ == old(state)@.exited(config.policy(), issue_id@, outcome@),
        (r is Some) == old(state)@.running.contains_key(issue_id@),
        r is Some ==> {
            let entry = old(state)@.running[issue_id@];
            let retry = retry_after(config.policy(), issue_id@, entry, outcome@);
            let plan = r->Some_0;
            &&& plan.identifier@ == entry.identifier
            &&& plan.cleanup == entry.pending_cleanup
            &&& (plan.retry is Some) == (retry is Some)
            &&& plan.retry is Some ==> plan.retry->Some_0.delay_ms == retry->Some_0.delay_ms
                && plan.retry->Some_0.replaces == old(state)@.retries.contains_key(issue_id@)
        },
{
    let ghost before = state@;
    let entry = match state.running.remove(issue_id) {
        Some(entry) => entry,
        None => {
            assert(state@.running =~= before.running);
            assert(state@ =~= before);
            return None;
        },
    };
    let ghost v = StateView { running: before.running.remove(issue_id@), ..before };
    proof {
        assert(state@.running =~= v.running);
        assert(state@ =~= v);
    }
    let counts = match outcome {
        WorkerOutcome::Failed(_) | WorkerOutcome::TimedOut | WorkerOutcome::Stalled => true,
        _ => false,
    };
    let attempt: u32 = match entry.retry_attempt {
        Some(n) => if counts {
            n + 1
        } else {
            1
        },
        None => 1,
    };
    let identifier = entry.identifier.clone();
    let backoff_ms = config.scheduler.retry_backoff_ms;
    let retry = match outcome {
        WorkerOutcome::Normal => {
            let _ = state.completed.insert(issue_id.to_owned());
            Some(
                schedule_retry(
                    state,
                    backoff_ms,
                    issue_id.to_owned(),
                    1,
                    Some(entry.identifier),
                    None,
                    RetryDelay::Continuation,
                ),
            )
        },
        WorkerOutcome::Failed(reason) => Some(
            schedule_retry(
                state,
                backoff_ms,
                issue_id.to_owned(),
                attempt,
                Some(entry.identifier),
                Some(reason.clone()),
                RetryDelay::Backoff,
            ),
        ),
        WorkerOutcome::TimedOut => Some(
            schedule_retry(
                state,
                backoff_ms,
                issue_id.to_owned(),
                attempt,
                Some(entry.identifier),
                Some("turn_timeout".to_owned()),
                RetryDelay::Backoff,
            ),
        ),
        WorkerOutcome::Stalled => Some(
            schedule_retry(
                state,
                backoff_ms,
                issue_id.to_owned(),
                attempt,
                Some(entry.identifier),
                Some("stalled".to_owned()),
                RetryDelay::Backoff,
            ),
        ),
        WorkerOutcome::CanceledByReconciliation => {
            let _ = state.claimed.remove(issue_id);
            None
        },
    };
    assert(state@ =~= before.exited(config.policy(), issue_id@, outcome@));
    Some(ExitPlan { identifier, cleanup: entry.pending_cleanup, retry })
}

// ---------------------------------------------------------------------------
// Due retries
// ---------------------------------------------------------------------------

/// Takes out the retry that is due.
pub fn take_retry(issue_id: &str, state: &mut OrchestratorState) -> (r: Option<RetryEntry>)
    requires
        old(state).wf(),
    ensures
        final(state).wf(),
        final(state)@ == (StateView {
            retries: old(state)@.retries.remove(issue_id@),
            ..old(state)@
        }),
        match r {
            Some(entry) => old(state)@.retries.contains_key(issue_id@) && entry@
                == old(state)@.retries[issue_id@],
            None => !old(state)@.retries.contains_key(issue_id@),
        },
{
    let ghost before = state@;
    let entry = state.retry_attempts.remove(issue_id);
    assert(state@.retries =~= before.retries.remove(issue_id@));
    entry
}

/// The first issue with this id.
pub open spec fn first_with_id(issues: Seq<IssueView>, id: Seq<char>) -> Option<IssueView>
    decreases issues.len(),
{
    if issues.len() == 0 {
        None
    } else if issues[0].id == id {
        Some(issues[0])
    } else {
        first_with_id(issues.drop_first(), id)
    }
}

/// What becomes of a retry that was due.
pub ghost enum Resumption {
    /// It waits again, for this reason and under this identifier.
    Again { identifier: Seq<char>, error: Seq<char> },
    /// The issue is let go.
    Released,
    /// An agent is put to work on the issue.
    Dispatched(IssueView),
}

impl StateView {
    /// What becomes of a retry that was due, given the candidates that were fetched,
    /// or nothing where that failed.
    pub open spec fn resumption(
        self,
        policy: Policy,
        retry: RetryView,
        fetched: Option<Seq<IssueView>>,
    ) -> Resumption {
        match fetched {
            None => Resumption::Again {
                identifier: retry.identifier,
                error: "retry poll failed"@,
            },
            Some(issues) => match first_with_id(issues, retry.issue_id) {
                None => Resumption::Released,
                Some(issue) => if !listed(policy.active, issue.state) {
                    Resumption::Released
                } else if self.free_slots(policy) == 0 || !self.state_slot_free(
                    policy,
                    issue.state,
                ) {
                    Resumption::Again {
                        identifier: issue.identifier,
                        error: "no available orchestrator slots"@,
                    }
                } else {
                    Resumption::Dispatched(issue)
                },
            },
        }
    }

    /// The state after that.
    pub open spec fn resumed(
        self,
        policy: Policy,
        retry: RetryView,
        what: Resumption,
        now: Timestamp,
    ) -> StateView {
        match what {
            Resumption::Again { identifier, error } => {
                let attempt = (retry.attempt + 1) as u32;
                self.rescheduled(
                    retry.issue_id,
                    RetryView {
                        issue_id: retry.issue_id,
                        identifier,
                        attempt,
                        delay_ms: retry_delay(
                            RetryDelay::Backoff,
                            attempt,
                            policy.retry_backoff_ms,
                        ) as u64,
                        error: Some(error),
                    },
                )
            },
            Resumption::Released => StateView {
                claimed: self.claimed.remove(retry.issue_id),
                ..self
            },
            Resumption::Dispatched(issue) => self.dispatched(issue, Some(retry.attempt), now),
        }
    }
}

/// What is left to do for a retry that was due.
#[derive(Debug)]
pub enum RetryStep {
    Again(RetryTimer),
    Released,
    Dispatched(Issue),
}

fn find_issue(issues: &Vec<Issue>, id: &str) -> (r: Option<Issue>)
    ensures
        match r {
            Some(issue) => first_with_id(issue_views(issues@), id@) == Some(issue@),
            None => first_with_id(issue_views(issues@), id@) is None,
        },
{
    let ghost s = issue_views(issues@);
    let mut i: usize = 0;
    assert(s.skip(0) =~= s);
    while i < issues.len()
        invariant
            i <= issues@.len(),
            s == issue_views(issues@),
            first_with_id(s, id@) == first_with_id(s.skip(i as int), id@),
        decreases issues@.len() - i,
    {
        assert(s.skip(i as int)[0] == issues@[i as int]@);
        assert(s.skip(i as int).drop_first() =~= s.skip(i + 1));
        if same_text(issues[i].id.as_str(), id) {
            return Some(clone_issue(&issues[i]));
        }
        i = i + 1;
    }
    None
}

/// What becomes of a retry that was due.
#[derive(Debug)]
pub enum RetryDecision {
    Again { identifier: String, error: String },
    Released,
    Dispatch(Issue),
}

impl RetryDecision {
    /// The model of the decision.
    pub open spec fn view(&self) -> Resumption {
        match self {
            RetryDecision::Again { identifier, error } => Resumption::Again {
                identifier: identifier@,
                error: error@,
            },
            RetryDecision::Released => Resumption::Released,
            RetryDecision::Dispatch(issue) => Resumption::Dispatched(issue@),
        }
    }
}

/// The models of the candidates that were fetched.
pub open spec fn fetched_views(fetched: Option<Vec<Issue>>) -> Option<Seq<IssueView>> {
    match fetched {
        Some(issues) => Some(issue_views(issues@)),
        None => None,
    }
}

/// Decides what becomes of a retry that was due. `fetched` is nothing where the
/// candidates could not be fetched.
pub fn decide_retry(
    entry: &RetryEntry,
    fetched: &Option<Vec<Issue>>,
    config: &ServiceConfig,
    state: &OrchestratorState,
) -> (r: RetryDecision)
    requires
        state.wf(),
        config.wf(),
    ensures
        r@ == state@.resumption(config.policy(), entry@, fetched_views(*fetched)),
{
    let issues = match fetched {
        Some(issues) => issues,
        None => {
            return RetryDecision::Again {
                identifier: entry.identifier.clone(),
                error: "retry poll failed".to_owned(),
            };
        },
    };
    let issue = match find_issue(issues, entry.issue_id.as_str()) {
        Some(issue) => issue,
        None => return RetryDecision::Released,
    };
    if !config.tracker.is_active_state(issue.state.as_str()) {
        return RetryDecision::Released;
    }
    if available_global_slots(state, config) == 0 || !has_available_state_slot(
        issue.state.as_str(),
        state,
        config,
    ) {
        return RetryDecision::Again {
            identifier: issue.identifier,
            error: "no available orchestrator slots".to_owned(),
        };
    }
    RetryDecision::Dispatch(issue)
}

/// Goes on with a retry that was due and has been taken out. `fetched` is nothing
/// where the candidates could not be fetched.
pub fn handle_retry_due(
    entry: RetryEntry,
    fetched: Option<Vec<Issue>>,
    config: &ServiceConfig,
    now: Timestamp,
    state: &mut OrchestratorState,
) -> (r: RetryStep)
    requires
        old(state).wf(),
        config.wf(),
        old(state)@.resumption(
            config.policy(),
            entry@,
            fetched_views(fetched),
        ) is Again ==> entry.attempt < u32::MAX,
    ensures
        final(state).wf(),
        ({
            let what = old(state)@.resumption(
                config.policy(),
                entry@,
                fetched_views(fetched),
            );
            &&& final(state)@ == old(state)@.resumed(config.policy(), entry@, what, now)
            &&& match what {
                Resumption::Again { identifier, error } => r matches RetryStep::Again(timer)
                    && timer.delay_ms == final(state)@.retries[entry@.issue_id].delay_ms
                    && timer.replaces == old(state)@.retries.contains_key(entry@.issue_id),
                Resumption::Released => r is Released,
                Resumption::Dispatched(issue) => r matches RetryStep::Dispatched(i) && i@ == issue,
            }
        }),
{
    let attempt = entry.attempt;
    match decide_retry(&entry, &fetched, config, state) {
        RetryDecision::Again { identifier, error } => RetryStep::Again(
            schedule_retry(
                state,
                config.scheduler.retry_backoff_ms,
                entry.issue_id,
                attempt + 1,
                Some(identifier),
                Some(error),
                RetryDelay::Backoff,
            ),
        ),
        RetryDecision::Released => {
            let _ = state.claimed.remove(entry.issue_id.as_str());
            RetryStep::Released
        },
        RetryDecision::Dispatch(issue) => {
            let _ = dispatch_issue(clone_issue(&issue), Some(attempt), now, state);
            RetryStep::Dispatched(issue)
        },
    }
}

} // verus!
