//! How running agents are watched: their reports, the tracker's news of their
//! issues, comments, stalls and the commands that they run.
use vstd::prelude::*;

use crate::agent::command_line::{command_words, parse_command_words};
use crate::agent::{CommandExecutionEvent, SessionUpdate, StopReason, UsageUpdate};
use crate::config::{listed, Policy, ServiceConfig};
use crate::model::{
    clone_issue, comment_views, issue_views, Comment, CommentView, Issue, IssueView, TokenTotals,
};
use crate::orchestrator::state::{
    running_views, OrchestratorState, RunningEntry, RunningView, StateView,
};
use crate::text::{cat, cat3, opt_text, same_text, texts};
use crate::time::{elapsed_millis, whole_millis, Timestamp};

verus! {

proof fn running_inserted(
    before: Map<Seq<char>, RunningEntry>,
    k: Seq<char>,
    e: RunningEntry,
)
    ensures
        running_views(before.insert(k, e)) == running_views(before).insert(k, e@),
{
    assert(running_views(before.insert(k, e)) =~= running_views(before).insert(k, e@));
}

// ---------------------------------------------------------------------------
// Reports of sessions
// ---------------------------------------------------------------------------

/// What is added to a total when `now` is reported after `most`.
pub open spec fn grown(most: u64, now: u64) -> int {
    if now > most {
        now - most
    } else {
        0
    }
}

/// The larger of two counts.
pub open spec fn larger(a: u64, b: u64) -> u64 {
    if a >= b {
        a
    } else {
        b
    }
}

impl StateView {
    /// Whether the totals can take in a report.
    pub open spec fn totals_fit(self, id: Seq<char>, usage: UsageUpdate) -> bool {
        let most = self.running[id].reported;
        self.running.contains_key(id) ==> {
            &&& self.totals.input_tokens + grown(most.input_tokens, usage.input_tokens) <= u64::MAX
            &&& self.totals.output_tokens + grown(most.output_tokens, usage.output_tokens)
                <= u64::MAX
            &&& self.totals.total_tokens + grown(most.total_tokens, usage.total_tokens) <= u64::MAX
        }
    }

    /// An agent has reported the tokens that it has used. Only what is above its
    /// largest report so far is added to the totals.
    pub open spec fn counted(self, id: Seq<char>, usage: UsageUpdate) -> StateView {
        if !self.running.contains_key(id) {
            self
        } else {
            let entry = self.running[id];
            let most = entry.reported;
            StateView {
                running: self.running.insert(
                    id,
                    RunningView {
                        usage,
                        reported: UsageUpdate {
                            input_tokens: larger(most.input_tokens, usage.input_tokens),
                            output_tokens: larger(most.output_tokens, usage.output_tokens),
                            total_tokens: larger(most.total_tokens, usage.total_tokens),
                        },
                        ..entry
                    },
                ),
                totals: TokenTotals {
                    input_tokens: (self.totals.input_tokens + grown(
                        most.input_tokens,
                        usage.input_tokens,
                    )) as u64,
                    output_tokens: (self.totals.output_tokens + grown(
                        most.output_tokens,
                        usage.output_tokens,
                    )) as u64,
                    total_tokens: (self.totals.total_tokens + grown(
                        most.total_tokens,
                        usage.total_tokens,
                    )) as u64,
                },
                ..self
            }
        }
    }

    /// An agent has reported on its session.
    pub open spec fn informed(self, update: SessionUpdate) -> StateView {
        let id = update.issue_id@;
        if !self.running.contains_key(id) {
            self
        } else {
            let entry = self.running[id];
            let v = StateView {
                running: self.running.insert(
                    id,
                    RunningView {
                        last_agent_event: Some(update.event@),
                        last_agent_timestamp: Some(update.timestamp),
                        last_agent_message: opt_text(update.message),
                        session_id: opt_text(update.session_id),
                        thread_id: opt_text(update.thread_id),
                        turn_id: opt_text(update.turn_id),
                        agent_pid: update.agent_pid,
                        turn_count: match update.turn_count {
                            Some(n) => n,
                            None => entry.turn_count,
                        },
                        ..entry
                    },
                ),
                rate_limits: match update.rate_limits {
                    Some(limits) => Some(limits@),
                    None => self.rate_limits,
                },
                ..self
            };
            match update.usage {
                Some(usage) => v.counted(id, usage),
                None => v,
            }
        }
    }
}

fn growth(most: u64, now: u64) -> (r: u64)
    ensures
        r == grown(most, now),
{
    if now > most {
        now - most
    } else {
        0
    }
}

fn max_of(a: u64, b: u64) -> (r: u64)
    ensures
        r == larger(a, b),
{
    if a >= b {
        a
    } else {
        b
    }
}

/// Whether the totals have room for a report.
pub fn totals_have_room(state: &OrchestratorState, issue_id: &str, usage: &UsageUpdate) -> (r: bool)
    requires
        state.wf(),
    ensures
        r == state@.totals_fit(issue_id@, *usage),
{
    let most = match state.running.get(issue_id) {
        Some(entry) => entry.reported,
        None => return true,
    };
    let totals = state.agent_totals;
    growth(most.input_tokens, usage.input_tokens) <= u64::MAX - totals.input_tokens && growth(
        most.output_tokens,
        usage.output_tokens,
    ) <= u64::MAX - totals.output_tokens && growth(most.total_tokens, usage.total_tokens)
        <= u64::MAX - totals.total_tokens
}

/// Takes in the tokens that an agent has used.
pub fn apply_usage_update(state: &mut OrchestratorState, issue_id: &str, usage: UsageUpdate)
    requires
        old(state).wf(),
        old(state)@.totals_fit(issue_id@, usage),
    ensures
        final(state).wf(),
        final(state)@ == old(state)@.counted(issue_id@, usage),
{
    let ghost before = *state;
    let i = match state.running.position(issue_id) {
        Some(i) => i,
        None => return,
    };
    let most = state.running.entries[i].1.reported;
    let ghost old_entry = state.running.entries@[i as int].1;
    let totals = TokenTotals {
        input_tokens: state.agent_totals.input_tokens + growth(
            most.input_tokens,
            usage.input_tokens,
        ),
        output_tokens: state.agent_totals.output_tokens + growth(
            most.output_tokens,
            usage.output_tokens,
        ),
        total_tokens: state.agent_totals.total_tokens + growth(
            most.total_tokens,
            usage.total_tokens,
        ),
    };
    let entry = state.running.value_mut(i);
    entry.usage = usage;
    entry.reported = UsageUpdate {
        input_tokens: max_of(most.input_tokens, usage.input_tokens),
        output_tokens: max_of(most.output_tokens, usage.output_tokens),
        total_tokens: max_of(most.total_tokens, usage.total_tokens),
    };
    state.agent_totals = totals;
    proof {
        let new_entry = state.running.entries@[i as int].1;
        state.running.changed_at(before.running, i as int, new_entry);
        running_inserted(before.running@, issue_id@, new_entry);
        let after = before@.counted(issue_id@, usage);
        assert(after.running[issue_id@] =~= new_entry@);
        assert(state@.running =~= after.running);
        assert(state@ =~= after);
    }
}

/// Takes in a report of an agent's session. A report of an agent that is not known
/// changes nothing.
pub fn apply_session_update(update: SessionUpdate, state: &mut OrchestratorState)
    requires
        old(state).wf(),
        update.usage matches Some(usage) ==> old(state)@.totals_fit(update.issue_id@, usage),
    ensures
        final(state).wf(),
        final(state)@ == old(state)@.informed(update),
{
    let ghost before = *state;
    let ghost report = update;
    let id = update.issue_id;
    let i = match state.running.position(id.as_str()) {
        Some(i) => i,
        None => return,
    };
    let entry = state.running.value_mut(i);
    entry.last_agent_event = Some(update.event);
    entry.last_agent_timestamp = Some(update.timestamp);
    entry.last_agent_message = update.message;
    entry.session_id = update.session_id;
    entry.thread_id = update.thread_id;
    entry.turn_id = update.turn_id;
    entry.agent_pid = update.agent_pid;
    if let Some(turn_count) = update.turn_count {
        entry.turn_count = turn_count;
    }
    if let Some(limits) = update.rate_limits {
        state.agent_rate_limits = Some(limits);
    }
    proof {
        let new_entry = state.running.entries@[i as int].1;
        state.running.changed_at(before.running, i as int, new_entry);
        running_inserted(before.running@, id@, new_entry);
        let without_usage = SessionUpdate { usage: None, ..report };
        let after = before@.informed(without_usage);
        assert(after.running[id@] =~= new_entry@);
        assert(state@.running =~= after.running);
        assert(state@ =~= after);
    }
    if let Some(usage) = update.usage {
        apply_usage_update(state, id.as_str(), usage);
    }
}

// ---------------------------------------------------------------------------
// Reconciliation
// ---------------------------------------------------------------------------

/// The last issue with this id.
pub open spec fn last_with_id(issues: Seq<IssueView>, id: Seq<char>) -> Option<IssueView>
    decreases issues.len(),
{
    if issues.len() == 0 {
        None
    } else if issues.last().id == id {
        Some(issues.last())
    } else {
        last_with_id(issues.drop_last(), id)
    }
}

/// Why the agent of an issue is told to stop when the issue is found like this, if
/// it is.
pub open spec fn stop_for(policy: Policy, found: Option<IssueView>) -> Option<StopReason> {
    match found {
        None => None,
        Some(issue) => if listed(policy.terminal, issue.state) {
            Some(StopReason::Terminal)
        } else if listed(policy.active, issue.state) {
            None
        } else {
            Some(StopReason::NonActive)
        },
    }
}

/// The entry of an agent when its issue is found like this: a finished issue's
/// workspace is to be removed, and an issue that is still worked on is renewed.
pub open spec fn renewed(policy: Policy, entry: RunningView, found: Option<IssueView>) -> RunningView {
    match found {
        None => entry,
        Some(issue) => if listed(policy.terminal, issue.state) {
            RunningView { pending_cleanup: true, ..entry }
        } else if listed(policy.active, issue.state) {
            RunningView { issue, ..entry }
        } else {
            entry
        },
    }
}

impl StateView {
    /// The tracker was asked for the running issues, and gave these.
    pub open spec fn reconciled(self, policy: Policy, issues: Seq<IssueView>) -> StateView {
        StateView {
            running: Map::new(
                |k: Seq<char>| self.running.contains_key(k),
                |k: Seq<char>| renewed(policy, self.running[k], last_with_id(issues, k)),
            ),
            ..self
        }
    }
}

/// The models of stops.
pub open spec fn stop_views(s: Seq<(String, StopReason)>) -> Seq<(Seq<char>, StopReason)> {
    Seq::new(s.len(), |i: int| (s[i].0@, s[i].1))
}

fn find_last(issues: &Vec<Issue>, id: &str) -> (r: Option<Issue>)
    ensures
        match r {
            Some(issue) => last_with_id(issue_views(issues@), id@) == Some(issue@),
            None => last_with_id(issue_views(issues@), id@) is None,
        },
{
    let ghost s = issue_views(issues@);
    let mut i: usize = issues.len();
    assert(s.take(i as int) =~= s);
    while i > 0
        invariant
            i <= issues@.len(),
            s == issue_views(issues@),
            last_with_id(s, id@) == last_with_id(s.take(i as int), id@),
        decreases i,
    {
        assert(s.take(i as int).last() == issues@[i - 1]@);
        assert(s.take(i as int).drop_last() =~= s.take(i - 1));
        if same_text(issues[i - 1].id.as_str(), id) {
            return Some(clone_issue(&issues[i - 1]));
        }
        i = i - 1;
    }
    None
}

/// Compares the running issues with what the tracker gave for them, and gives the
/// agents that are to stop, each once, with the reason.
pub fn reconcile_running_issues(
    refreshed: Vec<Issue>,
    config: &ServiceConfig,
    state: &mut OrchestratorState,
) -> (r: Vec<(String, StopReason)>)
    requires
        old(state).wf(),
    ensures
        final(state).wf(),
        final(state)@ == old(state)@.reconciled(config.policy(), issue_views(refreshed@)),
        stop_views(r@).no_duplicates(),
        forall|id: Seq<char>, reason: StopReason| #[trigger]
            stop_views(r@).contains((id, reason)) <==> old(state)@.running.contains_key(id)
                && stop_for(config.policy(), last_with_id(issue_views(refreshed@), id)) == Some(
                reason,
            ),
{
    let ghost before = *state;
    let ghost policy = config.policy();
    let ghost s = issue_views(refreshed@);
    let ghost keys = state.running.keys();
    let mut out: Vec<(String, StopReason)> = Vec::new();
    let mut i: usize = 0;
    while i < state.running.entries.len()
        invariant
            before.wf(),
            state.wf(),
            before == *old(state),
            policy == config.policy(),
            s == issue_views(refreshed@),
            keys == before.running.keys(),
            state.running.keys() == keys,
            i <= state.running.entries@.len(),
            state.running.entries@.len() == before.running.entries@.len(),
            state@ == (StateView { running: state@.running, ..before@ }),
            forall|j: int|
                #![trigger state.running.entries@[j]]
                0 <= j < i ==> state.running.entries@[j].1@ == renewed(
                    policy,
                    before.running.entries@[j].1@,
                    last_with_id(s, keys[j]),
                ),
            forall|j: int|
                #![trigger state.running.entries@[j]]
                i <= j < keys.len() ==> state.running.entries@[j] == before.running.entries@[j],
            stop_views(out@).no_duplicates(),
            forall|id: Seq<char>, reason: StopReason| #[trigger]
                stop_views(out@).contains((id, reason)) <==> (exists|j: int|
                    0 <= j < i && #[trigger] keys[j] == id) && stop_for(policy, last_with_id(s, id))
                    == Some(reason),
        decreases state.running.entries@.len() - i,
    {
        let ghost prior = *state;
        let ghost stops = stop_views(out@);
        let ghost key = keys[i as int];
        assert(key == state.running.entries@[i as int].0@);
        let id = state.running.entries[i].0.clone();
        let mut stop: Option<StopReason> = None;
        match find_last(&refreshed, id.as_str()) {
            Some(issue) => {
                if config.tracker.is_terminal_state(issue.state.as_str()) {
                    let entry = state.running.value_mut(i);
                    entry.pending_cleanup = true;
                    stop = Some(StopReason::Terminal);
                } else if config.tracker.is_active_state(issue.state.as_str()) {
                    let entry = state.running.value_mut(i);
                    entry.issue = issue;
                } else {
                    stop = Some(StopReason::NonActive);
                }
            },
            None => {},
        }
        proof {
            let new_entry = state.running.entries@[i as int].1;
            assert(state.running.entries@ =~= prior.running.entries@.update(
                i as int,
                (prior.running.entries@[i as int].0, new_entry),
            ));
            state.running.changed_at(prior.running, i as int, new_entry);
            prior.running.entry_at(i as int);
            assert(new_entry@ =~= renewed(
                policy,
                before.running.entries@[i as int].1@,
                last_with_id(s, key),
            ));
            assert(stop == stop_for(policy, last_with_id(s, key)));
            if stops.contains((key, StopReason::Terminal)) {
                let j = choose|j: int| 0 <= j < i && #[trigger] keys[j] == key;
                assert(keys[j] == keys[i as int]);
            }
            if stops.contains((key, StopReason::NonActive)) {
                let j = choose|j: int| 0 <= j < i && #[trigger] keys[j] == key;
                assert(keys[j] == keys[i as int]);
            }
        }
        if let Some(reason) = stop {
            out.push((id, reason));
            proof {
                assert(stop_views(out@) =~= stops.push((key, reason)));
                assert(!stops.contains((key, reason)));
            }
        }
        proof {
            let now = stop_views(out@);
            assert forall|id: Seq<char>, reason: StopReason| #[trigger]
                now.contains((id, reason)) <==> (exists|j: int|
                0 <= j < i + 1 && #[trigger] keys[j] == id) && stop_for(policy, last_with_id(s, id))
                == Some(reason) by {
                if stops.contains((id, reason)) {
                    let p = stops.index_of((id, reason));
                    assert(now[p] == (id, reason));
                    let j = choose|j: int| 0 <= j < i && #[trigger] keys[j] == id;
                    assert(0 <= j < i + 1 && keys[j] == id);
                }
                if id == key && stop == Some(reason) {
                    assert(now[stops.len() as int] == (id, reason));
                    assert(keys[i as int] == id);
                }
                if now.contains((id, reason)) && !stops.contains((id, reason)) {
                    let p = now.index_of((id, reason));
                    if p < stops.len() {
                        assert(stops[p] == (id, reason));
                    }
                    assert(id == key);
                    assert(keys[i as int] == id);
                }
                if (exists|j: int| 0 <= j < i + 1 && #[trigger] keys[j] == id) && stop_for(
                    policy,
                    last_with_id(s, id),
                ) == Some(reason) && id != key {
                    let j = choose|j: int| 0 <= j < i + 1 && #[trigger] keys[j] == id;
                    assert(0 <= j < i && keys[j] == id);
                }
            }
        }
        i = i + 1;
    }
    proof {
        let after = before@.reconciled(policy, s);
        assert forall|k: Seq<char>| #[trigger]
            state@.running.contains_key(k) == after.running.contains_key(k) by {
            assert(state.running@.contains_key(k) == before.running@.contains_key(k));
        }
        assert forall|k: Seq<char>| state@.running.contains_key(k) implies #[trigger]
            state@.running[k] == after.running[k] by {
            let j = state.running.place_of(k);
            before.running.entry_at(j);
            assert(keys[j] == k);
            assert(before.running.keys()[j] == before.running.entries@[j].0@);
        }
        assert(state@.running =~= after.running);
        assert forall|id: Seq<char>, reason: StopReason| #[trigger]
            stop_views(out@).contains((id, reason)) <==> before@.running.contains_key(id)
            && stop_for(policy, last_with_id(s, id)) == Some(reason) by {
            if before@.running.contains_key(id) {
                let j = before.running.place_of(id);
                assert(keys[j] == id);
            }
            if exists|j: int| 0 <= j < i && #[trigger] keys[j] == id {
                let j = choose|j: int| 0 <= j < i && #[trigger] keys[j] == id;
                before.running.entry_at(j);
                assert(keys[j] == before.running.entries@[j].0@);
            }
        }
    }
    out
}

// ---------------------------------------------------------------------------
// Stalls
// ---------------------------------------------------------------------------

/// Whether an agent has been silent for too long.
pub open spec fn stalled(policy: Policy, entry: RunningView, now: Timestamp) -> bool {
    let since = match entry.last_agent_timestamp {
        Some(t) => t,
        None => entry.started_at,
    };
    policy.stall_timeout_ms > 0 && whole_millis(now.total() - since.total())
        > policy.stall_timeout_ms
}

/// The agents that have been silent for too long, each once.
pub fn reconcile_stalled_runs(state: &OrchestratorState, config: &ServiceConfig, now: Timestamp) -> (r:
    Vec<String>)
    requires
        state.wf(),
    ensures
        texts(r@).no_duplicates(),
        forall|id: Seq<char>| #[trigger]
            texts(r@).contains(id) <==> state@.running.contains_key(id) && stalled(
                config.policy(),
                state@.running[id],
                now,
            ),
{
    let mut out: Vec<String> = Vec::new();
    let timeout = config.runner.stall_timeout_ms();
    if timeout <= 0 {
        return out;
    }
    let ghost policy = config.policy();
    let ghost keys = state.running.keys();
    let mut i: usize = 0;
    while i < state.running.entries.len()
        invariant
            state.wf(),
            policy == config.policy(),
            policy.stall_timeout_ms == timeout,
            timeout > 0,
            keys == state.running.keys(),
            i <= state.running.entries@.len(),
            texts(out@).no_duplicates(),
            forall|id: Seq<char>| #[trigger]
                texts(out@).contains(id) <==> (exists|j: int|
                    0 <= j < i && #[trigger] keys[j] == id) && stalled(
                    policy,
                    state@.running[id],
                    now,
                ),
        decreases state.running.entries@.len() - i,
    {
        let ghost found = texts(out@);
        let ghost key = keys[i as int];
        let entry = &state.running.entries[i].1;
        let since = match entry.last_agent_timestamp {
            Some(t) => t,
            None => entry.started_at,
        };
        proof {
            state.running.entry_at(i as int);
            assert(key == state.running.entries@[i as int].0@);
            assert(state@.running[key] == entry@);
            if found.contains(key) {
                let j = choose|j: int| 0 <= j < i && #[trigger] keys[j] == key;
                assert(keys[j] == keys[i as int]);
            }
        }
        let late = elapsed_millis(&now, &since) > timeout as i128;
        if late {
            out.push(state.running.entries[i].0.clone());
            assert(texts(out@) =~= found.push(key));
        }
        proof {
            let all = texts(out@);
            assert forall|id: Seq<char>| #[trigger] all.contains(id) <==> (exists|j: int|
                0 <= j < i + 1 && #[trigger] keys[j] == id) && stalled(
                policy,
                state@.running[id],
                now,
            ) by {
                if found.contains(id) {
                    let p = found.index_of(id);
                    assert(all[p] == id);
                    let j = choose|j: int| 0 <= j < i && #[trigger] keys[j] == id;
                    assert(0 <= j < i + 1 && keys[j] == id);
                }
                if id == key && late {
                    assert(all[found.len() as int] == id);
                    assert(keys[i as int] == id);
                }
                if all.contains(id) && !found.contains(id) {
                    let p = all.index_of(id);
                    if p < found.len() {
                        assert(found[p] == id);
                    }
                    assert(id == key);
                    assert(keys[i as int] == id);
                }
                if (exists|j: int| 0 <= j < i + 1 && #[trigger] keys[j] == id) && id != key {
                    let j = choose|j: int| 0 <= j < i + 1 && #[trigger] keys[j] == id;
                    assert(0 <= j < i && keys[j] == id);
                }
            }
        }
        i = i + 1;
    }
    proof {
        assert forall|id: Seq<char>| #[trigger] texts(out@).contains(id) <==> state@.running.contains_key(
            id,
        ) && stalled(policy, state@.running[id], now) by {
            if state@.running.contains_key(id) {
                let j = state.running.place_of(id);
                assert(keys[j] == id);
            }
            if exists|j: int| 0 <= j < i && #[trigger] keys[j] == id {
                let j = choose|j: int| 0 <= j < i && #[trigger] keys[j] == id;
                state.running.entry_at(j);
                assert(keys[j] == state.running.entries@[j].0@);
            }
        }
    }
    out
}

// ---------------------------------------------------------------------------
// Comments
// ---------------------------------------------------------------------------

/// The ids that are seen after `comments`, and the bodies of those that were new.
pub open spec fn sifted(seen: Set<Seq<char>>, comments: Seq<CommentView>) -> (
    Set<Seq<char>>,
    Seq<Seq<char>>,
)
    decreases comments.len(),
{
    if comments.len() == 0 {
        (seen, Seq::empty())
    } else {
        let (ids, bodies) = sifted(seen, comments.drop_last());
        let last = comments.last();
        (
            ids.insert(last.id),
            if ids.contains(last.id) {
                bodies
            } else {
                bodies.push(last.body)
            },
        )
    }
}

impl StateView {
    /// The comments on a running issue were fetched.
    pub open spec fn read_comments(self, id: Seq<char>, comments: Seq<CommentView>) -> StateView {
        if !self.running.contains_key(id) {
            self
        } else {
            let entry = self.running[id];
            StateView {
                running: self.running.insert(
                    id,
                    RunningView {
                        seen_comment_ids: sifted(entry.seen_comment_ids, comments).0,
                        ..entry
                    },
                ),
                ..self
            }
        }
    }
}

/// Notes the comments on a running issue, and gives the bodies of the new ones, for
/// an agent that takes comments.
pub fn poll_comments(issue_id: &str, comments: &Vec<Comment>, state: &mut OrchestratorState) -> (r:
    Vec<String>)
    requires
        old(state).wf(),
    ensures
        final(state).wf(),
        final(state)@ == old(state)@.read_comments(issue_id@, comment_views(comments@)),
        texts(r@) == if old(state)@.running.contains_key(issue_id@)
            && old(state)@.running[issue_id@].accepts_comments {
            sifted(
                old(state)@.running[issue_id@].seen_comment_ids,
                comment_views(comments@),
            ).1
        } else {
            Seq::empty()
        },
{
    let ghost before = *state;
    let mut out: Vec<String> = Vec::new();
    let i = match state.running.position(issue_id) {
        Some(i) => i,
        None => {
            assert(texts(out@) =~= Seq::<Seq<char>>::empty());
            return out;
        },
    };
    let ghost old_entry = state.running.entries@[i as int].1;
    proof {
        state.running.entry_at(i as int);
    }
    let accepts = state.running.entries[i].1.accepts_comments;
    let entry = state.running.value_mut(i);
    sift(&mut entry.seen_comment_ids, comments, &mut out);
    proof {
        let new_entry = state.running.entries@[i as int].1;
        state.running.changed_at(before.running, i as int, new_entry);
        running_inserted(before.running@, issue_id@, new_entry);
        let after = before@.read_comments(issue_id@, comment_views(comments@));
        assert(after.running[issue_id@] =~= new_entry@);
        assert(state@.running =~= after.running);
        assert(state@ =~= after);
    }
    if accepts {
        out
    } else {
        let none: Vec<String> = Vec::new();
        assert(texts(none@) =~= Seq::<Seq<char>>::empty());
        none
    }
}

fn sift(seen: &mut crate::table::TextSet, comments: &Vec<Comment>, out: &mut Vec<String>)
    requires
        old(seen).wf(),
        old(out)@.len() == 0,
    ensures
        final(seen).wf(),
        (final(seen)@, texts(final(out)@)) == sifted(old(seen)@, comment_views(comments@)),
{
    let ghost start = seen@;
    let ghost s = comment_views(comments@);
    let mut i: usize = 0;
    assert(texts(out@) =~= Seq::<Seq<char>>::empty());
    while i < comments.len()
        invariant
            i <= comments@.len(),
            s == comment_views(comments@),
            seen.wf(),
            (seen@, texts(out@)) == sifted(start, s.take(i as int)),
        decreases comments@.len() - i,
    {
        let ghost bodies = texts(out@);
        assert(s.take(i + 1).drop_last() =~= s.take(i as int));
        if seen.insert(comments[i].id.clone()) {
            out.push(comments[i].body.clone());
            assert(texts(out@) =~= bodies.push(s[i as int].body));
        }
        i = i + 1;
    }
    assert(s.take(i as int) =~= s);
}

// ---------------------------------------------------------------------------
// Commands that agents run
// ---------------------------------------------------------------------------

/// What was found in a shell command: whether one of the configured patterns
/// matches it.
#[derive(Clone, Debug)]
pub enum ShellActivityInspection {
    Matched { pattern: String, command_tokens: Vec<String> },
    NoPatterns,
    ParseFailed,
    NoMatch { parsed_commands: Vec<Vec<String>> },
}

/// Whether the words of a command begin with those of a pattern. A pattern without
/// words, or with an open quote, matches nothing.
pub open spec fn begins_with(words: Seq<Seq<char>>, pattern: Seq<char>) -> bool {
    match command_words(pattern) {
        Ok(wanted) => wanted.len() > 0 && wanted.is_prefix_of(words),
        Err(_) => false,
    }
}

/// Whether `i` is the place of the first pattern that the words begin with.
pub open spec fn is_first_match(words: Seq<Seq<char>>, patterns: Seq<Seq<char>>, i: int) -> bool {
    &&& 0 <= i < patterns.len()
    &&& begins_with(words, patterns[i])
    &&& forall|j: int| 0 <= j < i ==> !begins_with(words, #[trigger] patterns[j])
}

fn matches_pattern(words: &Vec<String>, pattern: &str) -> (r: bool)
    ensures
        r == begins_with(texts(words@), pattern@),
{
    let wanted = match parse_command_words(pattern) {
        Ok(wanted) => wanted,
        Err(_) => return false,
    };
    if wanted.len() == 0 || wanted.len() > words.len() {
        return false;
    }
    let ghost all = texts(words@);
    let ghost front = texts(wanted@);
    let mut i: usize = 0;
    while i < wanted.len()
        invariant
            i <= wanted@.len() <= words@.len(),
            all == texts(words@),
            front == texts(wanted@),
            command_words(pattern@) == Ok::<Seq<Seq<char>>, char>(front),
            forall|j: int| 0 <= j < i ==> #[trigger] front[j] == all[j],
        decreases wanted@.len() - i,
    {
        if !same_text(wanted[i].as_str(), words[i].as_str()) {
            assert(front[i as int] != all.subrange(0, front.len() as int)[i as int]);
            return false;
        }
        i = i + 1;
    }
    assert(front =~= all.subrange(0, front.len() as int));
    true
}

/// Whether the words begin with those of one of the patterns.
pub open spec fn has_match(words: Seq<Seq<char>>, patterns: Seq<Seq<char>>) -> bool {
    exists|i: int| #[trigger] is_first_match(words, patterns, i)
}

/// Whether `pattern` is the first of the patterns that the words begin with.
pub open spec fn is_found(
    words: Seq<Seq<char>>,
    patterns: Seq<Seq<char>>,
    pattern: Seq<char>,
) -> bool {
    exists|i: int| #[trigger] is_first_match(words, patterns, i) && pattern == patterns[i]
}

/// Whether a command can be read and begins with the words of one of the patterns.
pub open spec fn is_watched(command: Seq<char>, patterns: Seq<Seq<char>>) -> bool {
    match command_words(command) {
        Ok(words) => has_match(words, patterns),
        Err(_) => false,
    }
}

/// Looks for the first of the patterns that a command begins with, word by word.
#[verifier::spinoff_prover]
pub fn inspect_shell_activity(command: &str, patterns: &Vec<String>) -> (r: ShellActivityInspection)
    ensures
        (r is Matched) == is_watched(command@, texts(patterns@)),
        match r {
            ShellActivityInspection::NoPatterns => patterns@.len() == 0,
            ShellActivityInspection::ParseFailed => patterns@.len() > 0 && command_words(
                command@,
            ) is Err,
            ShellActivityInspection::Matched { pattern, command_tokens } => {
                &&& command_words(command@) == Ok::<Seq<Seq<char>>, char>(texts(command_tokens@))
                &&& is_found(texts(command_tokens@), texts(patterns@), pattern@)
            },
            ShellActivityInspection::NoMatch { parsed_commands } => {
                &&& patterns@.len() > 0
                &&& parsed_commands@.len() == 1
                &&& command_words(command@) == Ok::<Seq<Seq<char>>, char>(
                    texts(parsed_commands@[0]@),
                )
                &&& forall|i: int|
                    0 <= i < patterns@.len() ==> !begins_with(
                        texts(parsed_commands@[0]@),
                        #[trigger] texts(patterns@)[i],
                    )
            },
        },
{
    if patterns.len() == 0 {
        return ShellActivityInspection::NoPatterns;
    }
    let words = match parse_command_words(command) {
        Ok(words) => words,
        Err(_) => return ShellActivityInspection::ParseFailed,
    };
    let ghost all = texts(patterns@);
    let mut i: usize = 0;
    while i < patterns.len()
        invariant
            i <= patterns@.len(),
            all == texts(patterns@),
            command_words(command@) == Ok::<Seq<Seq<char>>, char>(texts(words@)),
            forall|j: int| 0 <= j < i ==> !begins_with(texts(words@), #[trigger] all[j]),
        decreases patterns@.len() - i,
    {
        if matches_pattern(&words, patterns[i].as_str()) {
            let pattern = patterns[i].clone();
            proof {
                assert(is_first_match(texts(words@), all, i as int));
                assert(pattern@ == all[i as int]);
                assert(has_match(texts(words@), all));
                assert(is_found(texts(words@), all, pattern@));
            }
            return ShellActivityInspection::Matched { pattern, command_tokens: words };
        }
        i = i + 1;
    }
    let mut parsed_commands: Vec<Vec<String>> = Vec::new();
    parsed_commands.push(words);
    ShellActivityInspection::NoMatch { parsed_commands }
}

/// What is told to the tracker about a command: a comment, and an activity with the
/// comment as its body.
#[derive(Debug)]
pub struct CommandActivity {
    pub issue: Issue,
    pub comment: String,
    pub kind: String,
    pub title: String,
    pub body: String,
}

/// What is told to the tracker about a command that an agent ran: something only
/// where the agent still runs and one of the patterns matches the command.
pub fn handle_command_executed(
    event: &CommandExecutionEvent,
    patterns: &Vec<String>,
    state: &OrchestratorState,
) -> (r: Option<CommandActivity>)
    requires
        state.wf(),
    ensures
        (r is Some) == (state@.running.contains_key(event.issue_id@) && is_watched(
            event.command@,
            texts(patterns@),
        )),
        r is Some ==> {
            let activity = r->Some_0;
            &&& activity.issue@ == state@.running[event.issue_id@].issue
            &&& activity.comment@ == "🤖 Agent executed: `"@ + event.command@ + "`"@
            &&& activity.kind@ == "command_executed"@
            &&& activity.title@ == "Agent executed: "@ + event.command@
            &&& activity.body@ == activity.comment@
        },
{
    let entry = match state.running.get(event.issue_id.as_str()) {
        Some(entry) => entry,
        None => return None,
    };
    match inspect_shell_activity(event.command.as_str(), patterns) {
        ShellActivityInspection::Matched { pattern, command_tokens } => {
            let comment = cat3("🤖 Agent executed: `", event.command.as_str(), "`");
            Some(
                CommandActivity {
                    issue: clone_issue(&entry.issue),
                    body: comment.clone(),
                    comment,
                    kind: "command_executed".to_owned(),
                    title: cat("Agent executed: ", event.command.as_str()),
                },
            )
        },
        _ => None,
    }
}

// ---------------------------------------------------------------------------
// Shutdown
// ---------------------------------------------------------------------------

/// The issues whose agents are told to stop, and the issues whose retries are called
/// off, when the orchestrator shuts down: all of them, each once.
pub fn shutdown_running(state: &OrchestratorState) -> (r: (Vec<String>, Vec<String>))
    requires
        state.wf(),
    ensures
        texts(r.0@).no_duplicates(),
        texts(r.0@).to_set() == state@.running.dom(),
        texts(r.1@).no_duplicates(),
        texts(r.1@).to_set() == state@.retries.dom(),
{
    let running = all_keys(&state.running);
    let retries = all_keys(&state.retry_attempts);
    proof {
        state.running.size();
        state.retry_attempts.size();
        assert(state@.running.dom() =~= state.running@.dom());
        assert(state@.retries.dom() =~= state.retry_attempts@.dom());
    }
    (running, retries)
}

fn all_keys<V>(table: &crate::table::TextMap<V>) -> (r: Vec<String>)
    ensures
        texts(r@) == table.keys(),
{
    let mut out: Vec<String> = Vec::new();
    let mut i: usize = 0;
    while i < table.entries.len()
        invariant
            i <= table.entries@.len(),
            texts(out@) == table.keys().take(i as int),
        decreases table.entries@.len() - i,
    {
        let ghost before = texts(out@);
        out.push(table.entries[i].0.clone());
        assert(texts(out@) =~= before.push(table.keys()[i as int]));
        assert(table.keys().take(i + 1) =~= before.push(table.keys()[i as int]));
        i = i + 1;
    }
    assert(table.keys().take(i as int) =~= table.keys());
    out
}

} // verus!
