//! The state of the orchestrator, and how it changes.
use vstd::prelude::*;

use crate::agent::UsageUpdate;
use crate::config::{listed, Policy, ServiceConfig};
use crate::model::{Issue, IssueView, TokenTotals};
use crate::table::{TextMap, TextSet};
use crate::text::{eq_ignore_case, lowercase, opt_text, same_ignoring_case, to_lowercase};
use crate::time::Timestamp;

verus! {

/// An agent at work.
#[derive(Debug)]
pub struct RunningEntry {
    pub identifier: String,
    pub issue: Issue,
    pub session_id: Option<String>,
    pub thread_id: Option<String>,
    pub turn_id: Option<String>,
    pub agent_pid: Option<u32>,
    pub last_agent_message: Option<String>,
    pub last_agent_event: Option<String>,
    pub last_agent_timestamp: Option<Timestamp>,
    /// The tokens that the agent reported last.
    pub usage: UsageUpdate,
    /// The most tokens that the agent has reported; these are in the totals.
    pub reported: UsageUpdate,
    pub retry_attempt: Option<u32>,
    pub started_at: Timestamp,
    pub pending_cleanup: bool,
    pub turn_count: u32,
    pub seen_comment_ids: TextSet,
    pub accepts_comments: bool,
}

/// An issue that waits to be tried again.
#[derive(Debug)]
pub struct RetryEntry {
    pub issue_id: String,
    pub identifier: String,
    pub attempt: u32,
    pub delay_ms: u64,
    pub error: Option<String>,
}

/// How long a retry waits.
#[derive(Clone, Copy, Debug, PartialEq, Eq, Structural)]
pub enum RetryDelay {
    Continuation,
    Backoff,
}

/// The model of an agent at work.
#[verifier::ext_equal]
pub ghost struct RunningView {
    pub identifier: Seq<char>,
    pub issue: IssueView,
    pub session_id: Option<Seq<char>>,
    pub thread_id: Option<Seq<char>>,
    pub turn_id: Option<Seq<char>>,
    pub agent_pid: Option<u32>,
    pub last_agent_message: Option<Seq<char>>,
    pub last_agent_event: Option<Seq<char>>,
    pub last_agent_timestamp: Option<Timestamp>,
    pub usage: UsageUpdate,
    pub reported: UsageUpdate,
    pub retry_attempt: Option<u32>,
    pub started_at: Timestamp,
    pub pending_cleanup: bool,
    pub turn_count: u32,
    pub seen_comment_ids: Set<Seq<char>>,
    pub accepts_comments: bool,
}

/// The model of a retry.
#[verifier::ext_equal]
pub ghost struct RetryView {
    pub issue_id: Seq<char>,
    pub identifier: Seq<char>,
    pub attempt: u32,
    pub delay_ms: u64,
    pub error: Option<Seq<char>>,
}

impl RunningEntry {
    /// The model of the entry.
    pub open spec fn view(&self) -> RunningView {
        RunningView {
            identifier: self.identifier@,
            issue: self.issue@,
            session_id: opt_text(self.session_id),
            thread_id: opt_text(self.thread_id),
            turn_id: opt_text(self.turn_id),
            agent_pid: self.agent_pid,
            last_agent_message: opt_text(self.last_agent_message),
            last_agent_event: opt_text(self.last_agent_event),
            last_agent_timestamp: self.last_agent_timestamp,
            usage: self.usage,
            reported: self.reported,
            retry_attempt: self.retry_attempt,
            started_at: self.started_at,
            pending_cleanup: self.pending_cleanup,
            turn_count: self.turn_count,
            seen_comment_ids: self.seen_comment_ids@,
            accepts_comments: self.accepts_comments,
        }
    }
}

impl RetryEntry {
    /// The model of the retry.
    pub open spec fn view(&self) -> RetryView {
        RetryView {
            issue_id: self.issue_id@,
            identifier: self.identifier@,
            attempt: self.attempt,
            delay_ms: self.delay_ms,
            error: opt_text(self.error),
        }
    }
}

/// The state of the orchestrator. The rate limits are a JSON text.
#[derive(Debug)]
pub struct OrchestratorState {
    pub poll_interval_ms: u64,
    pub max_concurrent_agents: usize,
    pub running: TextMap<RunningEntry>,
    pub claimed: TextSet,
    pub retry_attempts: TextMap<RetryEntry>,
    pub completed: TextSet,
    pub agent_totals: TokenTotals,
    pub agent_rate_limits: Option<String>,
}

/// The model of the state.
#[verifier::ext_equal]
pub ghost struct StateView {
    pub poll_interval_ms: u64,
    pub max_concurrent_agents: usize,
    pub running: Map<Seq<char>, RunningView>,
    pub claimed: Set<Seq<char>>,
    pub retries: Map<Seq<char>, RetryView>,
    pub completed: Set<Seq<char>>,
    pub totals: TokenTotals,
    pub rate_limits: Option<Seq<char>>,
}

/// The models of the agents at work.
pub open spec fn running_views(m: Map<Seq<char>, RunningEntry>) -> Map<Seq<char>, RunningView> {
    Map::new(|k: Seq<char>| m.contains_key(k), |k: Seq<char>| m[k]@)
}

/// The models of the retries.
pub open spec fn retry_views(m: Map<Seq<char>, RetryEntry>) -> Map<Seq<char>, RetryView> {
    Map::new(|k: Seq<char>| m.contains_key(k), |k: Seq<char>| m[k]@)
}

impl OrchestratorState {
    /// The model of the state.
    pub open spec fn view(&self) -> StateView {
        StateView {
            poll_interval_ms: self.poll_interval_ms,
            max_concurrent_agents: self.max_concurrent_agents,
            running: running_views(self.running@),
            claimed: self.claimed@,
            retries: retry_views(self.retry_attempts@),
            completed: self.completed@,
            totals: self.agent_totals,
            rate_limits: opt_text(self.agent_rate_limits),
        }
    }

    /// The tables and sets of the state are in order.
    pub open spec fn wf(&self) -> bool {
        &&& self.running.wf()
        &&& self.claimed.wf()
        &&& self.retry_attempts.wf()
        &&& self.completed.wf()
        &&& forall|k: Seq<char>|
            self.running@.contains_key(k) ==> (#[trigger] self.running@[k]).seen_comment_ids.wf()
    }

    /// Nothing runs, nothing is claimed, nothing waits.
    pub fn new(config: &ServiceConfig) -> (r: OrchestratorState)
        ensures
            r.wf(),
            r@ == (StateView {
                poll_interval_ms: config.poll_interval_ms,
                max_concurrent_agents: config.scheduler.max_concurrent,
                running: Map::empty(),
                claimed: Set::empty(),
                retries: Map::empty(),
                completed: Set::empty(),
                totals: TokenTotals { input_tokens: 0, output_tokens: 0, total_tokens: 0 },
                rate_limits: None,
            }),
    {
        let r = OrchestratorState {
            poll_interval_ms: config.poll_interval_ms,
            max_concurrent_agents: config.scheduler.max_concurrent,
            running: TextMap::new(),
            claimed: TextSet::new(),
            retry_attempts: TextMap::new(),
            completed: TextSet::new(),
            agent_totals: TokenTotals { input_tokens: 0, output_tokens: 0, total_tokens: 0 },
            agent_rate_limits: None,
        };
        assert(r@.running =~= Map::<Seq<char>, RunningView>::empty());
        assert(r@.retries =~= Map::<Seq<char>, RetryView>::empty());
        r
    }
}

// ---------------------------------------------------------------------------
// Slots
// ---------------------------------------------------------------------------

/// The running issues that are in a state of this name, in any case.
pub open spec fn in_state(running: Map<Seq<char>, RunningView>, name: Seq<char>) -> Set<Seq<char>> {
    running.dom().filter(|k: Seq<char>| same_ignoring_case(running[k].issue.state, name))
}

impl StateView {
    /// How many more agents may run.
    pub open spec fn free_slots(self, policy: Policy) -> int {
        if self.running.dom().len() < policy.max_concurrent {
            policy.max_concurrent - self.running.dom().len()
        } else {
            0
        }
    }

    /// How many agents may run in the state whose lower case is `key`.
    pub open spec fn limit_of(policy: Policy, key: Seq<char>) -> usize {
        if policy.max_by_state.contains_key(key) {
            policy.max_by_state[key]
        } else {
            policy.max_concurrent
        }
    }

    /// Whether one more agent may run in the state of this name.
    pub open spec fn state_slot_free(self, policy: Policy, name: Seq<char>) -> bool {
        in_state(self.running, name).len() < StateView::limit_of(policy, lowercase(name))
    }
}

/// How many more agents may run.
pub fn available_global_slots(state: &OrchestratorState, config: &ServiceConfig) -> (r: usize)
    requires
        state.wf(),
    ensures
        r == state@.free_slots(config.policy()),
{
    let n = state.running.len();
    assert(state@.running.dom() =~= state.running@.dom());
    if config.scheduler.max_concurrent > n {
        config.scheduler.max_concurrent - n
    } else {
        0
    }
}

fn count_in_state(state: &OrchestratorState, name: &str) -> (r: usize)
    requires
        state.wf(),
    ensures
        r == in_state(state@.running, name@).len(),
{
    let mut n: usize = 0;
    let mut i: usize = 0;
    let ghost running = state@.running;
    let ghost keys = state.running.keys();
    let ghost counted: Set<Seq<char>> = Set::empty();
    while i < state.running.entries.len()
        invariant
            state.wf(),
            running == state@.running,
            keys == state.running.keys(),
            i <= state.running.entries@.len(),
            n <= i,
            counted.finite(),
            n == counted.len(),
            forall|k: Seq<char>| #[trigger]
                counted.contains(k) <==> in_state(running, name@).contains(k) && exists|j: int|
                    0 <= j < i && keys[j] == k,
        decreases state.running.entries@.len() - i,
    {
        let ghost key = keys[i as int];
        proof {
            state.running.entry_at(i as int);
            assert(running.contains_key(key));
            assert(running[key] == state.running.entries@[i as int].1@);
            if counted.contains(key) {
                let j = choose|j: int| 0 <= j < i && keys[j] == key;
                assert(keys[j] == keys[i as int]);
            }
        }
        if eq_ignore_case(state.running.entries[i].1.issue.state.as_str(), name) {
            n = n + 1;
            proof {
                let before = counted;
                counted = counted.insert(key);
                assert forall|k: Seq<char>| #[trigger] counted.contains(k) <==> in_state(
                    running,
                    name@,
                ).contains(k) && exists|j: int| 0 <= j < i + 1 && keys[j] == k by {
                    if k == key {
                        assert(keys[i as int] == k);
                    } else if before.contains(k) {
                        let j = choose|j: int| 0 <= j < i && keys[j] == k;
                        assert(0 <= j < i + 1 && keys[j] == k);
                    } else if exists|j: int| 0 <= j < i + 1 && keys[j] == k {
                        let j = choose|j: int| 0 <= j < i + 1 && keys[j] == k;
                        assert(0 <= j < i && keys[j] == k);
                    }
                }
            }
        } else {
            proof {
                assert forall|k: Seq<char>| #[trigger] counted.contains(k) <==> in_state(
                    running,
                    name@,
                ).contains(k) && exists|j: int| 0 <= j < i + 1 && keys[j] == k by {
                    if counted.contains(k) {
                        let j = choose|j: int| 0 <= j < i && keys[j] == k;
                        assert(0 <= j < i + 1 && keys[j] == k);
                    } else if in_state(running, name@).contains(k) && exists|j: int|
                        0 <= j < i + 1 && keys[j] == k {
                        let j = choose|j: int| 0 <= j < i + 1 && keys[j] == k;
                        assert(0 <= j < i && keys[j] == k);
                    }
                }
            }
        }
        i = i + 1;
    }
    proof {
        assert forall|k: Seq<char>| in_state(running, name@).contains(k) implies #[trigger]
            counted.contains(k) by {
            assert(state.running@.contains_key(k));
            let j = state.running.place_of(k);
            assert(keys[j] == k);
        }
        assert(counted =~= in_state(running, name@));
    }
    n
}

/// Whether one more agent may run in the state `state_name`, whose lower case is `key`.
pub fn state_slot_left(
    state_name: &str,
    key: &str,
    state: &OrchestratorState,
    config: &ServiceConfig,
) -> (r: bool)
    requires
        state.wf(),
        config.wf(),
    ensures
        r == (in_state(state@.running, state_name@).len() < StateView::limit_of(
            config.policy(),
            key@,
        )),
{
    let limit: usize = match config.scheduler.max_concurrent_by_state.get(key) {
        Some(limit) => *limit,
        None => config.scheduler.max_concurrent,
    };
    count_in_state(state, state_name) < limit
}

/// Whether one more agent may run in the state `state_name`.
pub fn has_available_state_slot(
    state_name: &str,
    state: &OrchestratorState,
    config: &ServiceConfig,
) -> (r: bool)
    requires
        state.wf(),
        config.wf(),
    ensures
        r == state@.state_slot_free(config.policy(), state_name@),
{
    let key = to_lowercase(state_name);
    state_slot_left(state_name, key.as_str(), state, config)
}

// ---------------------------------------------------------------------------
// Dispatch
// ---------------------------------------------------------------------------

/// Whether a blocker still stands in the way: its state is unknown or not terminal.
pub open spec fn unresolved(policy: Policy, state: Option<Seq<char>>) -> bool {
    match state {
        Some(name) => !listed(policy.terminal, name),
        None => true,
    }
}

/// Whether nothing stands in the way of the issue.
pub open spec fn unblocked(policy: Policy, issue: IssueView) -> bool {
    forall|i: int|
        0 <= i < issue.blocked_by.len() ==> !unresolved(
            policy,
            (#[trigger] issue.blocked_by[i]).state,
        )
}

/// Whether the issue is complete enough to be worked on, and in a state in which it
/// is to be worked on.
pub open spec fn workable(policy: Policy, issue: IssueView) -> bool {
    &&& issue.id.len() > 0
    &&& issue.identifier.len() > 0
    &&& issue.title.len() > 0
    &&& issue.state.len() > 0
    &&& listed(policy.active, issue.state)
    &&& !listed(policy.terminal, issue.state)
}

impl StateView {
    /// Whether an agent is to be put to work on the issue.
    pub open spec fn wants(self, policy: Policy, issue: IssueView) -> bool {
        &&& workable(policy, issue)
        &&& !self.running.contains_key(issue.id)
        &&& !self.claimed.contains(issue.id)
        &&& self.free_slots(policy) > 0
        &&& self.state_slot_free(policy, issue.state)
        &&& unblocked(policy, issue)
    }

    /// The entry of an agent that has just been put to work.
    pub open spec fn fresh(issue: IssueView, attempt: Option<u32>, now: Timestamp) -> RunningView {
        let none = UsageUpdate { input_tokens: 0, output_tokens: 0, total_tokens: 0 };
        RunningView {
            identifier: issue.identifier,
            issue,
            session_id: None,
            thread_id: None,
            turn_id: None,
            agent_pid: None,
            last_agent_message: None,
            last_agent_event: None,
            last_agent_timestamp: None,
            usage: none,
            reported: none,
            retry_attempt: attempt,
            started_at: now,
            pending_cleanup: false,
            turn_count: 0,
            seen_comment_ids: Set::empty(),
            accepts_comments: true,
        }
    }

    /// An agent has been put to work on the issue: the issue is claimed, and no retry
    /// waits for it.
    pub open spec fn dispatched(
        self,
        issue: IssueView,
        attempt: Option<u32>,
        now: Timestamp,
    ) -> StateView {
        StateView {
            running: self.running.insert(issue.id, StateView::fresh(issue, attempt, now)),
            claimed: self.claimed.insert(issue.id),
            retries: self.retries.remove(issue.id),
            ..self
        }
    }

    /// What happens to the issues in turn: each that is wanted is dispatched, until
    /// no slot is left.
    pub open spec fn dispatched_all(
        self,
        policy: Policy,
        issues: Seq<IssueView>,
        now: Timestamp,
    ) -> (StateView, Seq<IssueView>)
        decreases issues.len(),
    {
        if issues.len() == 0 {
            (self, Seq::empty())
        } else {
            let (v, done) = self.dispatched_all(policy, issues.drop_last(), now);
            let issue = issues.last();
            if v.free_slots(policy) > 0 && v.wants(policy, issue) {
                (v.dispatched(issue, None, now), done.push(issue))
            } else {
                (v, done)
            }
        }
    }
}

fn blocker_unresolved(state: &Option<String>, config: &ServiceConfig) -> (r: bool)
    ensures
        r == unresolved(config.policy(), opt_text(*state)),
{
    match state {
        Some(name) => !config.tracker.is_terminal_state(name.as_str()),
        None => true,
    }
}

/// Whether an agent is to be put to work on the issue.
pub fn should_dispatch(issue: &Issue, state: &OrchestratorState, config: &ServiceConfig) -> (r:
    bool)
    requires
        state.wf(),
        config.wf(),
    ensures
        r == state@.wants(config.policy(), issue@),
{
    if issue.id.as_str().is_empty() || issue.identifier.as_str().is_empty()
        || issue.title.as_str().is_empty() || issue.state.as_str().is_empty() {
        return false;
    }
    if !config.tracker.is_active_state(issue.state.as_str()) || config.tracker.is_terminal_state(
        issue.state.as_str(),
    ) {
        return false;
    }
    if state.running.contains_key(issue.id.as_str()) || state.claimed.contains(issue.id.as_str()) {
        return false;
    }
    if available_global_slots(state, config) == 0 || !has_available_state_slot(
        issue.state.as_str(),
        state,
        config,
    ) {
        return false;
    }
    let mut i: usize = 0;
    while i < issue.blocked_by.len()
        invariant
            i <= issue.blocked_by@.len(),
            forall|k: int|
                0 <= k < i ==> !unresolved(
                    config.policy(),
                    (#[trigger] issue@.blocked_by[k]).state,
                ),
        decreases issue.blocked_by@.len() - i,
    {
        assert(issue@.blocked_by[i as int] == issue.blocked_by@[i as int]@);
        if blocker_unresolved(&issue.blocked_by[i].state, config) {
            return false;
        }
        i = i + 1;
    }
    true
}

/// Puts an agent to work on the issue, and says whether a retry was waiting for it.
pub fn dispatch_issue(
    issue: Issue,
    attempt: Option<u32>,
    now: Timestamp,
    state: &mut OrchestratorState,
) -> (r: bool)
    requires
        old(state).wf(),
    ensures
        final(state).wf(),
        final(state)@ == old(state)@.dispatched(issue@, attempt, now),
        r == old(state)@.retries.contains_key(issue@.id),
{
    let ghost before = *state;
    let ghost v = issue@;
    let id = issue.id.clone();
    let waited = state.retry_attempts.remove(id.as_str()).is_some();
    let _ = state.claimed.insert(id.clone());
    let entry = RunningEntry {
        identifier: issue.identifier.clone(),
        issue,
        session_id: None,
        thread_id: None,
        turn_id: None,
        agent_pid: None,
        last_agent_message: None,
        last_agent_event: None,
        last_agent_timestamp: None,
        usage: UsageUpdate { input_tokens: 0, output_tokens: 0, total_tokens: 0 },
        reported: UsageUpdate { input_tokens: 0, output_tokens: 0, total_tokens: 0 },
        retry_attempt: attempt,
        started_at: now,
        pending_cleanup: false,
        turn_count: 0,
        seen_comment_ids: TextSet::new(),
        accepts_comments: true,
    };
    assert(entry@ =~= StateView::fresh(v, attempt, now));
    state.running.insert(id, entry);
    proof {
        let after = before@.dispatched(v, attempt, now);
        assert(state@.running =~= after.running);
        assert(state@.retries =~= after.retries);
        assert(state@ =~= after);
    }
    waited
}

/// The model of the state shows all that it holds: who runs and what waits, by the issue's
/// id, what is claimed and finished, what was counted, and the settings.
pub proof fn model_shows_the_state(state: OrchestratorState, k: Seq<char>)
    ensures
        state@.poll_interval_ms == state.poll_interval_ms,
        state@.max_concurrent_agents == state.max_concurrent_agents,
        state@.running.contains_key(k) <==> state.running@.contains_key(k),
        state.running@.contains_key(k) ==> state@.running[k] == state.running@[k]@,
        state@.retries.contains_key(k) <==> state.retry_attempts@.contains_key(k),
        state.retry_attempts@.contains_key(k) ==> state@.retries[k] == state.retry_attempts@[k]@,
        state@.claimed == state.claimed@,
        state@.completed == state.completed@,
        state@.totals == state.agent_totals,
        state@.rate_limits == opt_text(state.agent_rate_limits),
{
}

/// The model of an agent at work and of a retry shows all that they hold.
pub proof fn models_show_agents_and_retries(running: RunningEntry, retry: RetryEntry)
    ensures
        running@.identifier == running.identifier@,
        running@.issue == running.issue@,
        running@.session_id == opt_text(running.session_id),
        running@.thread_id == opt_text(running.thread_id),
        running@.turn_id == opt_text(running.turn_id),
        running@.agent_pid == running.agent_pid,
        running@.last_agent_message == opt_text(running.last_agent_message),
        running@.last_agent_event == opt_text(running.last_agent_event),
        running@.last_agent_timestamp == running.last_agent_timestamp,
        running@.usage == running.usage,
        running@.reported == running.reported,
        running@.retry_attempt == running.retry_attempt,
        running@.started_at == running.started_at,
        running@.pending_cleanup == running.pending_cleanup,
        running@.turn_count == running.turn_count,
        running@.seen_comment_ids == running.seen_comment_ids@,
        running@.accepts_comments == running.accepts_comments,
        retry@.issue_id == retry.issue_id@,
        retry@.identifier == retry.identifier@,
        retry@.attempt == retry.attempt,
        retry@.delay_ms == retry.delay_ms,
        retry@.error == opt_text(retry.error),
{
}

} // verus!
