//! The configuration that a workflow file resolves to.
use vstd::prelude::*;

use crate::table::TextMap;
use crate::text::{clone_texts, eq_ignore_case, same_ignoring_case, texts};

verus! {

/// How to reach a GitHub project.
#[derive(Clone, Debug)]
pub struct GitHubProjectTrackerConfig {
    pub owner: String,
    pub project_number: u32,
    pub status_field: String,
    pub priority_field: String,
    pub gh_command: String,
    pub active_states: Vec<String>,
    pub terminal_states: Vec<String>,
}

/// How to reach the local tracker.
#[derive(Clone, Debug)]
pub struct AsahiTrackerConfig {
    pub endpoint: String,
    pub db: Option<String>,
    pub port: Option<u16>,
}

/// Where the issues come from.
#[derive(Clone, Debug)]
pub enum TrackerConfig {
    GitHubProject(GitHubProjectTrackerConfig),
    Asahi(AsahiTrackerConfig),
}

/// The Codex runner. The two policies are JSON texts.
#[derive(Clone, Debug)]
pub struct CodexRunner {
    pub command: String,
    pub args: Vec<String>,
    pub approval_policy: Option<String>,
    pub thread_sandbox: Option<String>,
    pub turn_sandbox_policy: Option<String>,
    pub turn_timeout_ms: u64,
    pub read_timeout_ms: u64,
    pub stall_timeout_ms: i64,
}

/// The Opencode runner.
#[derive(Clone, Debug)]
pub struct OpencodeRunner {
    pub command: String,
    pub args: Vec<String>,
    pub turn_timeout_ms: u64,
    pub read_timeout_ms: u64,
    pub stall_timeout_ms: i64,
}

/// A runner that speaks the agent client protocol.
#[derive(Clone, Debug)]
pub struct AcpRunner {
    pub command: String,
    pub turn_timeout_ms: u64,
    pub read_timeout_ms: u64,
    pub stall_timeout_ms: i64,
}

/// What runs the agents.
#[derive(Clone, Debug)]
pub enum RunnerConfig {
    Codex(CodexRunner),
    Opencode(OpencodeRunner),
    Acp(AcpRunner),
}

/// How many agents run, for how long, and how failures are retried. The limits by
/// state are keyed by the lower case of a state's name.
#[derive(Debug)]
pub struct SchedulerConfig {
    pub max_concurrent: usize,
    pub max_turns: u32,
    pub retry_backoff_ms: u64,
    pub max_concurrent_by_state: TextMap<usize>,
}

/// The shell commands that run around an agent's work.
#[derive(Clone, Debug)]
pub struct HooksConfig {
    pub after_create: Option<String>,
    pub before_run: Option<String>,
    pub after_run: Option<String>,
    pub before_remove: Option<String>,
    pub timeout_ms: u64,
}

/// The whole configuration.
#[derive(Debug)]
pub struct ServiceConfig {
    pub tracker: TrackerConfig,
    pub runner: RunnerConfig,
    pub scheduler: SchedulerConfig,
    pub hooks: HooksConfig,
    pub poll_interval_ms: u64,
    pub workspace_root: String,
    pub workflow_dir: String,
    pub shell_activity_patterns: Vec<String>,
}

/// Whether `name` is one of `names`, in any case.
pub open spec fn listed(names: Seq<Seq<char>>, name: Seq<char>) -> bool {
    exists|i: int| 0 <= i < names.len() && same_ignoring_case(#[trigger] names[i], name)
}

/// Whether `name` is one of `names`, in any case.
pub fn is_listed(names: &[String], name: &str) -> (r: bool)
    ensures
        r == listed(texts(names@), name@),
{
    let mut i: usize = 0;
    while i < names.len()
        invariant
            i <= names@.len(),
            forall|k: int|
                0 <= k < i ==> !same_ignoring_case(#[trigger] texts(names@)[k], name@),
        decreases names@.len() - i,
    {
        if eq_ignore_case(names[i].as_str(), name) {
            assert(same_ignoring_case(texts(names@)[i as int], name@));
            return true;
        }
        i = i + 1;
    }
    false
}

impl GitHubProjectTrackerConfig {
    /// Whether an issue in this state is to be worked on.
    pub fn is_active_state(&self, state: &str) -> (r: bool)
        ensures
            r == listed(texts(self.active_states@), state@),
    {
        is_listed(self.active_states.as_slice(), state)
    }

    /// Whether an issue in this state is finished.
    pub fn is_terminal_state(&self, state: &str) -> (r: bool)
        ensures
            r == listed(texts(self.terminal_states@), state@),
    {
        is_listed(self.terminal_states.as_slice(), state)
    }
}

impl TrackerConfig {
    /// The states in which an issue is to be worked on.
    pub open spec fn active(self) -> Seq<Seq<char>> {
        match self {
            TrackerConfig::GitHubProject(c) => texts(c.active_states@),
            TrackerConfig::Asahi(_) => seq!["Todo"@, "In Progress"@],
        }
    }

    /// The states in which an issue is finished.
    pub open spec fn terminal(self) -> Seq<Seq<char>> {
        match self {
            TrackerConfig::GitHubProject(c) => texts(c.terminal_states@),
            TrackerConfig::Asahi(_) => seq!["Done"@],
        }
    }

    /// The states in which an issue is to be worked on.
    pub fn active_states(&self) -> (r: Vec<String>)
        ensures
            texts(r@) == self.active(),
    {
        match self {
            TrackerConfig::GitHubProject(c) => clone_texts(c.active_states.as_slice()),
            TrackerConfig::Asahi(_) => {
                let mut out: Vec<String> = Vec::new();
                out.push("Todo".to_owned());
                out.push("In Progress".to_owned());
                assert(texts(out@) =~= seq!["Todo"@, "In Progress"@]);
                out
            },
        }
    }

    /// The states in which an issue is finished.
    pub fn terminal_states(&self) -> (r: Vec<String>)
        ensures
            texts(r@) == self.terminal(),
    {
        match self {
            TrackerConfig::GitHubProject(c) => clone_texts(c.terminal_states.as_slice()),
            TrackerConfig::Asahi(_) => {
                let mut out: Vec<String> = Vec::new();
                out.push("Done".to_owned());
                assert(texts(out@) =~= seq!["Done"@]);
                out
            },
        }
    }

    /// Whether an issue in this state is to be worked on.
    pub fn is_active_state(&self, state: &str) -> (r: bool)
        ensures
            r == listed(self.active(), state@),
    {
        let states = self.active_states();
        is_listed(states.as_slice(), state)
    }

    /// Whether an issue in this state is finished.
    pub fn is_terminal_state(&self, state: &str) -> (r: bool)
        ensures
            r == listed(self.terminal(), state@),
    {
        let states = self.terminal_states();
        is_listed(states.as_slice(), state)
    }
}

/// Which states count does not depend on the case in which they are written.
pub proof fn listed_in_any_case(names: Seq<Seq<char>>, a: Seq<char>, b: Seq<char>)
    requires
        same_ignoring_case(a, b),
    ensures
        listed(names, a) == listed(names, b),
{
    if listed(names, a) {
        let i = choose|i: int| 0 <= i < names.len() && same_ignoring_case(#[trigger] names[i], a);
        assert(same_ignoring_case(names[i], b));
    }
    if listed(names, b) {
        let i = choose|i: int| 0 <= i < names.len() && same_ignoring_case(#[trigger] names[i], b);
        assert(same_ignoring_case(names[i], a));
    }
}

/// What the scheduling rules read of a configuration.
pub ghost struct Policy {
    pub active: Seq<Seq<char>>,
    pub terminal: Seq<Seq<char>>,
    pub max_concurrent: usize,
    pub max_by_state: Map<Seq<char>, usize>,
    pub retry_backoff_ms: u64,
    pub stall_timeout_ms: i64,
}

impl ServiceConfig {
    /// What the scheduling rules read of the configuration.
    pub open spec fn policy(&self) -> Policy {
        Policy {
            active: self.tracker.active(),
            terminal: self.tracker.terminal(),
            max_concurrent: self.scheduler.max_concurrent,
            max_by_state: self.scheduler.max_concurrent_by_state@,
            retry_backoff_ms: self.scheduler.retry_backoff_ms,
            stall_timeout_ms: self.runner.stall_timeout(),
        }
    }

    /// No state has two limits.
    pub open spec fn wf(&self) -> bool {
        self.scheduler.max_concurrent_by_state.wf()
    }
}

impl RunnerConfig {
    /// How long a silent agent is waited for; not at all where it is not positive.
    pub open spec fn stall_timeout(self) -> i64 {
        match self {
            RunnerConfig::Codex(c) => c.stall_timeout_ms,
            RunnerConfig::Opencode(c) => c.stall_timeout_ms,
            RunnerConfig::Acp(c) => c.stall_timeout_ms,
        }
    }

    /// How long a silent agent is waited for.
    pub fn stall_timeout_ms(&self) -> (r: i64)
        ensures
            r == self.stall_timeout(),
    {
        match self {
            RunnerConfig::Codex(c) => c.stall_timeout_ms,
            RunnerConfig::Opencode(c) => c.stall_timeout_ms,
            RunnerConfig::Acp(c) => c.stall_timeout_ms,
        }
    }
}

/// The shell commands that are told to the tracker where the workflow names none:
/// those that look at the checks of a pull request.
pub fn default_shell_activity_patterns() -> (r: Vec<String>)
    ensures
        texts(r@) == seq!["gh pr checks"@],
{
    let mut patterns: Vec<String> = Vec::new();
    patterns.push("gh pr checks".to_owned());
    assert(texts(patterns@) =~= seq!["gh pr checks"@]);
    patterns
}

} // verus!
