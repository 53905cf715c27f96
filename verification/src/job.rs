//! One-off jobs.
use vstd::prelude::*;

use crate::agent::angel_runtime::{ends_turn, RuntimeOptions, TextRequest, TurnRunEvent};
use crate::agent::command_line::{command_words, open_quote_error, split_command};
use crate::config::RunnerConfig;
use crate::error::{ErrorView, LunaError};
use crate::model::WorkspaceAssignment;
use crate::text::{
    alphanumeric, cat, chars_of, clone_opt, decimal, is_alphanumeric, join, joined, lines, lines_of,
    lower_char, opt_text, same_text, signed_decimal, signed_text, texts, to_lower_char, trim,
    trimmed, unsigned_text,
};
use crate::time::{format_stamp, stamp_of, utc_now, LAST_SECOND};
use crate::workspace::{key_char, proper_name, sanitize_workspace_key, workspace_key};

verus! {

/// Where a job runs.
#[derive(Clone, Copy, Debug, PartialEq, Eq, Structural)]
pub enum JobWorkspaceMode {
    /// In a directory of its own.
    Temporary,
    /// In the directory of the workflow.
    Repo,
    /// In a prepared workspace.
    Worktree,
}

/// What job is run, and where.
#[derive(Debug)]
pub struct JobOptions {
    pub workflow_path: String,
    pub prompt: String,
    pub workspace: JobWorkspaceMode,
}

// ---------------------------------------------------------------------------
// Names of job workspaces
// ---------------------------------------------------------------------------

/// How much of a prompt's first line goes into a workspace's name.
pub const SLUG_LIMIT: usize = 48;

/// The first line that is not blank, or `job`.
pub open spec fn first_line(lines: Seq<Seq<char>>) -> Seq<char>
    decreases lines.len(),
{
    if lines.len() == 0 {
        "job"@
    } else if trimmed(lines[0]).len() > 0 {
        lines[0]
    } else {
        first_line(lines.drop_first())
    }
}

/// The words of a text in lower case: the runs of ASCII letters and digits. The last
/// run may still go on.
pub open spec fn words_of(s: Seq<char>) -> (Seq<Seq<char>>, Seq<char>)
    decreases s.len(),
{
    if s.len() == 0 {
        (Seq::empty(), Seq::empty())
    } else {
        let (done, run) = words_of(s.drop_last());
        if alphanumeric(s.last()) {
            (done, run.push(lower_char(s.last())))
        } else if run.len() > 0 {
            (done.push(run), Seq::empty())
        } else {
            (done, run)
        }
    }
}

/// The words of a text with dashes between them.
pub open spec fn dashed(s: Seq<char>) -> Seq<char> {
    let (done, run) = words_of(s);
    joined(
        if run.len() > 0 {
            done.push(run)
        } else {
            done
        },
        "-"@,
    )
}

/// The short name of a prompt.
pub open spec fn slug(prompt: Seq<char>) -> Seq<char> {
    let line = first_line(lines_of(prompt));
    let words = dashed(
        if line.len() > SLUG_LIMIT {
            line.take(SLUG_LIMIT as int)
        } else {
            line
        },
    );
    if words.len() == 0 {
        "job"@
    } else {
        words
    }
}

/// The name of the workspace of a job that was started at `stamp`.
pub open spec fn job_key(prompt: Seq<char>, stamp: Seq<char>) -> Seq<char> {
    workspace_key("JOB-"@ + stamp + "-"@ + slug(prompt))
}

fn find_first_line(all: &Vec<String>) -> (r: String)
    ensures
        r@ == first_line(texts(all@)),
{
    let ghost s = texts(all@);
    let mut i: usize = 0;
    assert(s.skip(0) =~= s);
    while i < all.len()
        invariant
            i <= all@.len(),
            s == texts(all@),
            first_line(s) == first_line(s.skip(i as int)),
        decreases all@.len() - i,
    {
        assert(s.skip(i as int)[0] == all@[i as int]@);
        assert(s.skip(i as int).drop_first() =~= s.skip(i + 1));
        let bare = trim(all[i].as_str());
        if !bare.as_str().is_empty() {
            return all[i].clone();
        }
        i = i + 1;
    }
    "job".to_owned()
}

fn dashed_words(s: &str, limit: usize) -> (r: String)
    ensures
        r@ == dashed(
            if s@.len() > limit {
                s@.take(limit as int)
            } else {
                s@
            },
        ),
{
    let v = chars_of(s);
    let n: usize = if v.len() > limit {
        limit
    } else {
        v.len()
    };
    let mut done: Vec<String> = Vec::new();
    let mut run = String::new();
    let mut i: usize = 0;
    assert(texts(done@) =~= Seq::<Seq<char>>::empty());
    while i < n
        invariant
            v@ == s@,
            i <= n <= v@.len(),
            (texts(done@), run@) == words_of(s@.take(i as int)),
        decreases n - i,
    {
        let ghost before = texts(done@);
        assert(s@.take(i + 1).drop_last() =~= s@.take(i as int));
        if is_alphanumeric(v[i]) {
            run.push(to_lower_char(v[i]));
        } else if !run.as_str().is_empty() {
            let ghost word = run@;
            done.push(run);
            assert(texts(done@) =~= before.push(word));
            run = String::new();
        }
        i = i + 1;
    }
    assert(s@.take(s@.len() as int) =~= s@);
    if !run.as_str().is_empty() {
        let ghost before = texts(done@);
        let ghost word = run@;
        done.push(run);
        assert(texts(done@) =~= before.push(word));
    }
    join(done.as_slice(), "-")
}

/// The name of the workspace of a job that was started at `stamp`.
pub fn job_workspace_key_at(prompt: &str, stamp: &str) -> (r: String)
    ensures
        r@ == job_key(prompt@, stamp@),
{
    let all = lines(prompt);
    let line = find_first_line(&all);
    let words = dashed_words(line.as_str(), SLUG_LIMIT);
    let slug = if words.as_str().is_empty() {
        "job".to_owned()
    } else {
        words
    };
    let mut name = "JOB-".to_owned();
    name.append(stamp);
    name.append("-");
    name.append(slug.as_str());
    sanitize_workspace_key(name.as_str())
}

/// How the second at which a job is started is written.
pub const STAMP_FORMAT: &'static str = "%Y%m%d-%H%M%S";

/// The second at which a job is started, as its workspace's name shows it.
pub open spec fn job_stamp(secs: i64) -> Seq<char> {
    stamp_of(secs, STAMP_FORMAT@)
}

/// The name of the workspace of a job that is started now.
pub fn job_workspace_key(prompt: &str) -> (r: String)
    ensures
        exists|secs: i64|
            0 <= secs <= LAST_SECOND && r@ == job_key(prompt@, #[trigger] job_stamp(secs)),
{
    let now = utc_now();
    proof {
        reveal_strlit("%Y%m%d-%H%M%S");
    }
    let stamp = format_stamp(now.secs, STAMP_FORMAT);
    assert(stamp@ == job_stamp(now.secs));
    job_workspace_key_at(prompt, stamp.as_str())
}

proof fn words_are_words(s: Seq<char>)
    ensures
        forall|i: int, j: int|
            0 <= i < words_of(s).0.len() && 0 <= j < words_of(s).0[i].len() ==> key_char(
                #[trigger] words_of(s).0[i][j],
            ),
        forall|j: int| 0 <= j < words_of(s).1.len() ==> key_char(#[trigger] words_of(s).1[j]),
    decreases s.len(),
{
    if s.len() > 0 {
        words_are_words(s.drop_last());
        let (done, run) = words_of(s.drop_last());
        let (done2, run2) = words_of(s);
        assert forall|i: int, j: int|
            0 <= i < done2.len() && 0 <= j < done2[i].len() implies key_char(
            #[trigger] done2[i][j],
        ) by {
            if i < done.len() {
                assert(done2[i] == done[i]);
                assert(key_char(done[i][j]));
            } else {
                assert(done2[i] == run);
                assert(key_char(run[j]));
            }
        }
        assert forall|j: int| 0 <= j < run2.len() implies key_char(#[trigger] run2[j]) by {
            if j < run.len() {
                assert(run2[j] == run[j]);
            } else {
                assert(run2[j] == lower_char(s.last()));
            }
        }
    }
}

proof fn joined_chars(parts: Seq<Seq<char>>)
    requires
        forall|i: int, j: int|
            0 <= i < parts.len() && 0 <= j < parts[i].len() ==> key_char(#[trigger] parts[i][j]),
    ensures
        forall|j: int| 0 <= j < joined(parts, "-"@).len() ==> key_char(#[trigger] joined(parts, "-"@)[j]),
    decreases parts.len(),
{
    reveal_strlit("-");
    if parts.len() == 1 {
        assert forall|j: int| 0 <= j < joined(parts, "-"@).len() implies key_char(
            #[trigger] joined(parts, "-"@)[j],
        ) by {
            assert(joined(parts, "-"@)[j] == parts[0][j]);
        }
    } else if parts.len() > 1 {
        let head = parts.drop_last();
        assert forall|i: int, j: int| 0 <= i < head.len() && 0 <= j < head[i].len() implies key_char(
            #[trigger] head[i][j],
        ) by {
            assert(key_char(parts[i][j]));
        }
        joined_chars(head);
        let a = joined(head, "-"@);
        let whole = joined(parts, "-"@);
        assert forall|j: int| 0 <= j < whole.len() implies key_char(#[trigger] whole[j]) by {
            if j < a.len() {
                assert(whole[j] == a[j]);
            } else if j == a.len() {
                assert(whole[j] == '-');
            } else {
                assert(whole[j] == parts[parts.len() - 1][j - a.len() - 1]);
            }
        }
    }
}

/// The name of a job's workspace begins with `JOB-`, ends with the short name of the
/// prompt, is its own workspace's name, and is a proper one.
pub proof fn job_key_shows_the_prompt(prompt: Seq<char>, stamp: Seq<char>)
    ensures
        "JOB-"@.is_prefix_of(job_key(prompt, stamp)),
        slug(prompt).is_suffix_of(job_key(prompt, stamp)),
        workspace_key(job_key(prompt, stamp)) == job_key(prompt, stamp),
        proper_name(job_key(prompt, stamp)),
        slug(prompt).len() > 0,
{
    reveal_strlit("JOB-");
    reveal_strlit("-");
    reveal_strlit("job");
    let name = "JOB-"@ + stamp + "-"@ + slug(prompt);
    let key = job_key(prompt, stamp);
    crate::workspace::workspace_key_is_settled(name);
    let line = first_line(lines_of(prompt));
    let cut = if line.len() > SLUG_LIMIT {
        line.take(SLUG_LIMIT as int)
    } else {
        line
    };
    let (done, run) = words_of(cut);
    words_are_words(cut);
    let all = if run.len() > 0 {
        done.push(run)
    } else {
        done
    };
    assert forall|i: int, j: int| 0 <= i < all.len() && 0 <= j < all[i].len() implies key_char(
        #[trigger] all[i][j],
    ) by {
        if i < done.len() {
            assert(all[i] == done[i]);
            assert(key_char(done[i][j]));
        } else {
            assert(key_char(run[j]));
        }
    }
    joined_chars(all);
    let s = slug(prompt);
    assert forall|j: int| 0 <= j < s.len() implies key_char(#[trigger] s[j]) by {}
    assert(key.subrange(0, 4) =~= "JOB-"@);
    let start = key.len() - s.len();
    assert(key.subrange(start, key.len() as int) =~= s) by {
        assert forall|j: int| 0 <= j < s.len() implies key[start + j] == s[j] by {
            assert(name[start + j] == s[j]);
            assert(key_char(s[j]));
        }
    }
}

/// Every name that a job's workspace gets at some second shows the prompt.
pub proof fn job_key_at_any_second_shows_the_prompt(prompt: Seq<char>, secs: i64)
    ensures
        "JOB-"@.is_prefix_of(job_key(prompt, job_stamp(secs))),
        slug(prompt).is_suffix_of(job_key(prompt, job_stamp(secs))),
{
    job_key_shows_the_prompt(prompt, job_stamp(secs));
}

// ---------------------------------------------------------------------------
// Workspaces
// ---------------------------------------------------------------------------

/// The workspace of a job before it is made.
#[derive(Debug)]
pub enum JobWorkspacePlan {
    /// A directory of its own is made for the job, and removed behind it.
    Temporary,
    /// The job runs in a directory that is there.
    Existing(WorkspaceAssignment),
    /// A workspace of this name is prepared, and cleaned up behind the job.
    Worktree(String),
}

/// The workspace of a job.
#[derive(Debug)]
pub struct ResolvedJobWorkspace {
    pub path: String,
    pub temp_path: Option<String>,
    pub managed: bool,
    pub assignment: WorkspaceAssignment,
}

/// The workspace that a job asks for. The name of a worktree shows the prompt.
pub fn plan_job_workspace(options: &JobOptions, workflow_dir: &str) -> (r: JobWorkspacePlan)
    ensures
        match options.workspace {
            JobWorkspaceMode::Temporary => r is Temporary,
            JobWorkspaceMode::Repo => r matches JobWorkspacePlan::Existing(a) && a.path@
                == workflow_dir@ && a.workspace_key@ == "repo"@ && !a.created_now,
            JobWorkspaceMode::Worktree => r matches JobWorkspacePlan::Worktree(key) && exists|
                secs: i64,
            |
                0 <= secs <= LAST_SECOND && key@ == job_key(
                    options.prompt@,
                    #[trigger] job_stamp(secs),
                ),
        },
{
    match options.workspace {
        JobWorkspaceMode::Temporary => JobWorkspacePlan::Temporary,
        JobWorkspaceMode::Repo => JobWorkspacePlan::Existing(
            WorkspaceAssignment {
                path: workflow_dir.to_owned(),
                workspace_key: "repo".to_owned(),
                created_now: false,
            },
        ),
        JobWorkspaceMode::Worktree => JobWorkspacePlan::Worktree(
            job_workspace_key(options.prompt.as_str()),
        ),
    }
}

/// The workspace of a job that runs in a directory of its own.
pub fn temporary_workspace(path: &str) -> (r: ResolvedJobWorkspace)
    ensures
        r.path@ == path@,
        opt_text(r.temp_path) == Some(path@),
        !r.managed,
        r.assignment.path@ == path@,
        r.assignment.workspace_key@ == "none"@,
        r.assignment.created_now,
{
    ResolvedJobWorkspace {
        path: path.to_owned(),
        temp_path: Some(path.to_owned()),
        managed: false,
        assignment: WorkspaceAssignment {
            path: path.to_owned(),
            workspace_key: "none".to_owned(),
            created_now: true,
        },
    }
}

/// The workspace of a job that runs in a directory that is there.
pub fn existing_workspace(assignment: WorkspaceAssignment) -> (r: ResolvedJobWorkspace)
    ensures
        r.path@ == assignment.path@,
        r.temp_path is None,
        !r.managed,
        r.assignment == assignment,
{
    ResolvedJobWorkspace {
        path: assignment.path.clone(),
        temp_path: None,
        managed: false,
        assignment,
    }
}

/// The workspace of a job that runs in a worktree, once the hook before the run has
/// run. Where the hook failed, the workspace of the given name is cleaned up, and the
/// job fails for that reason.
pub fn worktree_workspace(assignment: WorkspaceAssignment, before_run: Result<(), LunaError>) -> (r:
    Result<ResolvedJobWorkspace, (LunaError, String)>)
    ensures
        match before_run {
            Ok(()) => r matches Ok(w) && w.path@ == assignment.path@ && w.temp_path is None
                && w.managed && w.assignment == assignment,
            Err(e) => r matches Err((why, key)) && why == e && key@ == assignment.workspace_key@,
        },
{
    match before_run {
        Ok(()) => Ok(
            ResolvedJobWorkspace {
                path: assignment.path.clone(),
                temp_path: None,
                managed: true,
                assignment,
            },
        ),
        Err(e) => Err((e, assignment.workspace_key)),
    }
}

/// What is put away behind a job: whether the hook after the run runs, which
/// workspace is cleaned up, and which directory is removed.
#[derive(Debug)]
pub struct JobTeardown {
    pub after_run: bool,
    pub cleanup_key: Option<String>,
    pub remove_dir: Option<String>,
}

/// What is put away behind a job, however it went.
pub fn job_teardown(workspace: &ResolvedJobWorkspace) -> (r: JobTeardown)
    ensures
        r.after_run == workspace.managed,
        opt_text(r.cleanup_key) == if workspace.managed {
            Some(workspace.assignment.workspace_key@)
        } else {
            None
        },
        opt_text(r.remove_dir) == opt_text(workspace.temp_path),
{
    JobTeardown {
        after_run: workspace.managed,
        cleanup_key: if workspace.managed {
            Some(workspace.assignment.workspace_key.clone())
        } else {
            None
        },
        remove_dir: clone_opt(&workspace.temp_path),
    }
}

/// The name of the directory of a job, for a process and an instant.
pub fn temp_dir_name(process_id: u32, nanos: i64) -> (r: String)
    ensures
        r@ == "luna-job-"@ + decimal(process_id as nat) + "-"@ + signed_decimal(nanos as int),
{
    let mut out = "luna-job-".to_owned();
    let pid = unsigned_text(process_id as u64);
    out.append(pid.as_str());
    out.append("-");
    let time = signed_text(nanos);
    out.append(time.as_str());
    out
}

// ---------------------------------------------------------------------------
// Runtimes
// ---------------------------------------------------------------------------

/// How an agent is launched for a job.
#[derive(Debug)]
pub struct JobLaunch {
    pub options: RuntimeOptions,
    pub permission_mode: String,
    pub turn_timeout_ms: u64,
}

/// What a job takes from a runner: its name, command, arguments and time for a turn.
pub open spec fn job_runner(runner: RunnerConfig) -> Option<
    (Seq<char>, Seq<char>, Seq<Seq<char>>, u64),
> {
    match runner {
        RunnerConfig::Codex(c) => Some(
            ("codex"@, c.command@, texts(c.args@), c.turn_timeout_ms),
        ),
        RunnerConfig::Opencode(c) => Some(
            ("opencode"@, c.command@, texts(c.args@), c.turn_timeout_ms),
        ),
        RunnerConfig::Acp(_) => None,
    }
}

/// The mode in which a runtime asks for permission: never, or it bypasses
/// permissions.
pub open spec fn permission_mode_of(runtime_name: Seq<char>) -> Seq<char> {
    if runtime_name == "opencode"@ {
        "bypassPermissions"@
    } else {
        "never"@
    }
}

/// The mode in which a runtime asks for permission.
pub fn default_permission_mode(runtime_name: &str) -> (r: &'static str)
    ensures
        r@ == permission_mode_of(runtime_name@),
{
    if same_text(runtime_name, "opencode") {
        "bypassPermissions"
    } else {
        "never"
    }
}

/// How an agent is launched for a job in a workspace. Only the runtimes that the
/// runtime client drives can run jobs, and a command that cannot be split is refused.
pub fn run_job_in_workspace(runner: &RunnerConfig, workspace_path: &str) -> (r: Result<
    JobLaunch,
    LunaError,
>)
    ensures
        match job_runner(*runner) {
            None => r matches Err(e) && e@ == ErrorView::Agent(
                "luna job only supports angel-engine runners: codex, opencode"@,
            ),
            Some((name, command, args, timeout)) => match command_words(command) {
                Err(q) => r matches Err(e) && e@ == open_quote_error(q),
                Ok(words) => if words.len() == 0 {
                    r matches Err(e) && e@ == ErrorView::InvalidConfig(
                        "runner command must be non-empty"@,
                    )
                } else {
                    let o = r->Ok_0.options;
                    &&& r is Ok
                    &&& o.runtime@ == name
                    &&& o.command@ == words[0]
                    &&& texts(o.args@) == words.skip(1) + args
                    &&& o.cwd@ == workspace_path@
                    &&& o.process_label@ == "luna:job:"@ + name
                    &&& o.client_name@ == "luna"@
                    &&& o.client_title@ == "Luna"@
                    &&& o.default_reasoning_effort is None
                    &&& r->Ok_0.permission_mode@ == permission_mode_of(name)
                    &&& r->Ok_0.turn_timeout_ms == timeout
                },
            },
        },
{
    let (name, command, args, turn_timeout_ms): (&str, &String, &Vec<String>, u64) = match runner {
        RunnerConfig::Codex(c) => ("codex", &c.command, &c.args, c.turn_timeout_ms),
        RunnerConfig::Opencode(c) => ("opencode", &c.command, &c.args, c.turn_timeout_ms),
        RunnerConfig::Acp(_) => {
            return Err(
                LunaError::Agent(
                    "luna job only supports angel-engine runners: codex, opencode".to_owned(),
                ),
            );
        },
    };
    let (command, args) = match split_command(command.as_str(), args.as_slice()) {
        Ok(found) => found,
        Err(e) => return Err(e),
    };
    Ok(
        JobLaunch {
            options: RuntimeOptions {
                runtime: name.to_owned(),
                command,
                args,
                cwd: workspace_path.to_owned(),
                process_label: cat("luna:job:", name),
                client_name: "luna".to_owned(),
                client_title: "Luna".to_owned(),
                default_reasoning_effort: None,
            },
            permission_mode: default_permission_mode(name).to_owned(),
            turn_timeout_ms,
        },
    )
}

/// The question that an event asks, where it asks for permission.
pub open spec fn permission_question(event: TurnRunEvent) -> Option<Seq<char>> {
    match event {
        TurnRunEvent::Elicitation { elicitation } => if elicitation.kind@ == "approval"@
            || elicitation.kind@ == "permissionProfile"@ {
            Some(elicitation.id@)
        } else {
            None
        },
        _ => None,
    }
}

/// The question that an event asks, where it asks for permission.
pub fn permission_elicitation_id(event: &TurnRunEvent) -> (r: Option<String>)
    ensures
        opt_text(r) == permission_question(*event),
{
    match event {
        TurnRunEvent::Elicitation { elicitation } => if same_text(
            elicitation.kind.as_str(),
            "approval",
        ) || same_text(elicitation.kind.as_str(), "permissionProfile") {
            Some(elicitation.id.clone())
        } else {
            None
        },
        _ => None,
    }
}

// ---------------------------------------------------------------------------
// The session of a job
// ---------------------------------------------------------------------------

/// How long one wait for the next event lasts, in milliseconds.
pub const POLL_MS: u64 = 250;

/// The outside work that a job waits for.
#[derive(Debug)]
pub enum JobPhase {
    Starting,
    WritingStart,
    Checking,
    Polling,
    Writing { approval: Option<String>, done: bool },
    Resolving { done: bool },
    WritingResolved { done: bool },
    Closing { timed_out: bool },
    Finished,
}

/// The outside work that is to be done next.
#[derive(Debug)]
pub enum JobAction {
    /// Start the turn with this request.
    StartTurn(TextRequest),
    /// Write the events that have just come, one line each.
    WriteEvents,
    /// See how many milliseconds have passed since the events of the start were
    /// written.
    ReadClock,
    /// Wait for the next event, no longer than so many milliseconds.
    PollEvent(u64),
    /// Allow what this question asks, for the whole session.
    AllowForSession(String),
    /// Close the session.
    Close,
    /// The job has ended like this.
    Finish(Result<(), LunaError>),
}

/// How the outside work went.
#[derive(Debug)]
pub enum JobEvent {
    /// It was done; the events that came with it are to be written.
    Done,
    /// It failed.
    Failed(LunaError),
    /// So many milliseconds have passed.
    Elapsed(u64),
    /// An event came, or none.
    Polled(Option<TurnRunEvent>),
}

/// The model of a phase.
pub ghost enum JobPhaseView {
    Starting,
    WritingStart,
    Checking,
    Polling,
    Writing { approval: Option<Seq<char>>, done: bool },
    Resolving { done: bool },
    WritingResolved { done: bool },
    Closing { timed_out: bool },
    Finished,
}

/// The model of an action.
pub ghost enum JobActionView {
    StartTurn { text: Seq<char>, cwd: Seq<char>, permission_mode: Seq<char> },
    WriteEvents,
    ReadClock,
    PollEvent(u64),
    AllowForSession(Seq<char>),
    Close,
    Finish(Result<(), ErrorView>),
}

impl JobPhase {
    /// The model of the phase.
    pub open spec fn view(&self) -> JobPhaseView {
        match self {
            JobPhase::Starting => JobPhaseView::Starting,
            JobPhase::WritingStart => JobPhaseView::WritingStart,
            JobPhase::Checking => JobPhaseView::Checking,
            JobPhase::Polling => JobPhaseView::Polling,
            JobPhase::Writing { approval, done } => JobPhaseView::Writing {
                approval: opt_text(*approval),
                done: *done,
            },
            JobPhase::Resolving { done } => JobPhaseView::Resolving { done: *done },
            JobPhase::WritingResolved { done } => JobPhaseView::WritingResolved { done: *done },
            JobPhase::Closing { timed_out } => JobPhaseView::Closing { timed_out: *timed_out },
            JobPhase::Finished => JobPhaseView::Finished,
        }
    }
}

impl JobAction {
    /// The model of the action.
    pub open spec fn view(&self) -> JobActionView {
        match self {
            JobAction::StartTurn(request) => JobActionView::StartTurn {
                text: request.text@,
                cwd: request.cwd@,
                permission_mode: request.permission_mode@,
            },
            JobAction::WriteEvents => JobActionView::WriteEvents,
            JobAction::ReadClock => JobActionView::ReadClock,
            JobAction::PollEvent(ms) => JobActionView::PollEvent(*ms),
            JobAction::AllowForSession(id) => JobActionView::AllowForSession(id@),
            JobAction::Close => JobActionView::Close,
            JobAction::Finish(result) => JobActionView::Finish(
                match *result {
                    Ok(()) => Ok(()),
                    Err(e) => Err(e@),
                },
            ),
        }
    }
}

/// Which events answer the work of a phase.
pub open spec fn job_answers(phase: JobPhaseView, event: JobEvent) -> bool {
    match phase {
        JobPhaseView::Checking => event is Elapsed,
        JobPhaseView::Polling => event is Polled || event is Failed,
        JobPhaseView::Closing { timed_out } => event is Done,
        JobPhaseView::Finished => false,
        _ => event is Done || event is Failed,
    }
}

/// After the events of a turn are dealt with: the session is closed if the turn is
/// done, else the clock is read.
pub open spec fn job_goes_on(done: bool) -> (JobPhaseView, JobActionView) {
    if done {
        (JobPhaseView::Closing { timed_out: false }, JobActionView::Close)
    } else {
        (JobPhaseView::Checking, JobActionView::ReadClock)
    }
}

/// What the job does when it learns how the work of its phase went.
pub open spec fn job_step(phase: JobPhaseView, timeout_ms: u64, event: JobEvent) -> (
    JobPhaseView,
    JobActionView,
) {
    match (phase, event) {
        (_, JobEvent::Failed(e)) => (JobPhaseView::Finished, JobActionView::Finish(Err(e@))),
        (JobPhaseView::Starting, _) => (JobPhaseView::WritingStart, JobActionView::WriteEvents),
        (JobPhaseView::WritingStart, _) => job_goes_on(false),
        (JobPhaseView::Checking, JobEvent::Elapsed(ms)) => if ms > timeout_ms {
            (JobPhaseView::Closing { timed_out: true }, JobActionView::Close)
        } else {
            (JobPhaseView::Polling, JobActionView::PollEvent(POLL_MS))
        },
        (JobPhaseView::Polling, JobEvent::Polled(Some(e))) => (
            JobPhaseView::Writing { approval: permission_question(e), done: e is Result },
            JobActionView::WriteEvents,
        ),
        (JobPhaseView::Polling, _) => job_goes_on(false),
        (JobPhaseView::Writing { approval: Some(id), done }, _) => (
            JobPhaseView::Resolving { done },
            JobActionView::AllowForSession(id),
        ),
        (JobPhaseView::Writing { approval: None, done }, _) => job_goes_on(done),
        (JobPhaseView::Resolving { done }, _) => (
            JobPhaseView::WritingResolved { done },
            JobActionView::WriteEvents,
        ),
        (JobPhaseView::WritingResolved { done }, _) => job_goes_on(done),
        (JobPhaseView::Closing { timed_out }, _) => (
            JobPhaseView::Finished,
            JobActionView::Finish(
                if timed_out {
                    Err(ErrorView::Agent("job turn timed out"@))
                } else {
                    Ok(())
                },
            ),
        ),
        _ => (phase, JobActionView::ReadClock),
    }
}

/// The session of a job.
#[derive(Debug)]
pub struct JobSession {
    pub timeout_ms: u64,
    pub phase: JobPhase,
}

impl JobSession {
    /// A fresh session. Its first work is to start the turn.
    pub fn begin(runtime_name: &str, workspace_path: &str, prompt: &str, timeout_ms: u64) -> (r: (
        JobSession,
        JobAction,
    ))
        ensures
            r.0.timeout_ms == timeout_ms,
            r.0.phase@ == JobPhaseView::Starting,
            r.1@ == (JobActionView::StartTurn {
                text: prompt@,
                cwd: workspace_path@,
                permission_mode: permission_mode_of(runtime_name@),
            }),
    {
        let request = TextRequest {
            text: prompt.to_owned(),
            cwd: workspace_path.to_owned(),
            permission_mode: default_permission_mode(runtime_name).to_owned(),
        };
        (JobSession { timeout_ms, phase: JobPhase::Starting }, JobAction::StartTurn(request))
    }

    fn go_on(&mut self, done: bool) -> (r: JobAction)
        ensures
            (final(self).phase@, r@) == job_goes_on(done),
            final(self).timeout_ms == old(self).timeout_ms,
    {
        if done {
            self.phase = JobPhase::Closing { timed_out: false };
            JobAction::Close
        } else {
            self.phase = JobPhase::Checking;
            JobAction::ReadClock
        }
    }

    /// Tells the session how the work of its phase went, and gives the next work.
    #[verifier::spinoff_prover]
    pub fn step(&mut self, event: JobEvent) -> (r: JobAction)
        requires
            job_answers(old(self).phase@, event),
        ensures
            (final(self).phase@, r@) == job_step(old(self).phase@, old(self).timeout_ms, event),
            final(self).timeout_ms == old(self).timeout_ms,
    {
        if let JobEvent::Failed(e) = event {
            self.phase = JobPhase::Finished;
            return JobAction::Finish(Err(e));
        }
        match &self.phase {
            JobPhase::Starting => {
                self.phase = JobPhase::WritingStart;
                JobAction::WriteEvents
            },
            JobPhase::WritingStart => self.go_on(false),
            JobPhase::Checking => match event {
                JobEvent::Elapsed(ms) => if ms > self.timeout_ms {
                    self.phase = JobPhase::Closing { timed_out: true };
                    JobAction::Close
                } else {
                    self.phase = JobPhase::Polling;
                    JobAction::PollEvent(POLL_MS)
                },
                _ => JobAction::ReadClock,
            },
            JobPhase::Polling => match event {
                JobEvent::Polled(Some(e)) => {
                    let approval = permission_elicitation_id(&e);
                    let done = ends_turn(&e);
                    self.phase = JobPhase::Writing { approval, done };
                    JobAction::WriteEvents
                },
                _ => self.go_on(false),
            },
            JobPhase::Writing { approval, done } => {
                let done = *done;
                match clone_opt(approval) {
                    Some(id) => {
                        self.phase = JobPhase::Resolving { done };
                        JobAction::AllowForSession(id)
                    },
                    None => self.go_on(done),
                }
            },
            JobPhase::Resolving { done } => {
                let done = *done;
                self.phase = JobPhase::WritingResolved { done };
                JobAction::WriteEvents
            },
            JobPhase::WritingResolved { done } => {
                let done = *done;
                self.go_on(done)
            },
            JobPhase::Closing { timed_out } => {
                let timed_out = *timed_out;
                self.phase = JobPhase::Finished;
                if timed_out {
                    JobAction::Finish(Err(LunaError::Agent("job turn timed out".to_owned())))
                } else {
                    JobAction::Finish(Ok(()))
                }
            },
            JobPhase::Finished => JobAction::ReadClock,
        }
    }
}

/// A job succeeds only after its session was closed, and it is closed only after the
/// result of the turn was written, or when the time is up.
pub proof fn job_succeeds_after_its_result(phase: JobPhaseView, timeout_ms: u64, event: JobEvent)
    requires
        job_answers(phase, event),
    ensures
        job_step(phase, timeout_ms, event).1 == JobActionView::Finish(Ok(())) ==> phase
            == (JobPhaseView::Closing { timed_out: false }),
        job_step(phase, timeout_ms, event).1 is Close ==> {
            ||| phase is Checking && event is Elapsed && event->Elapsed_0 > timeout_ms
            ||| phase matches JobPhaseView::Writing { approval, done } && done && approval is None
            ||| phase matches JobPhaseView::WritingResolved { done } && done
        },
{
}

/// A job allows only what an event that asks for permission asks for.
pub proof fn job_allows_only_permissions(phase: JobPhaseView, timeout_ms: u64, event: JobEvent)
    requires
        job_answers(phase, event),
    ensures
        job_step(phase, timeout_ms, event).1 is AllowForSession ==> phase is Writing
            && phase->approval == Some(job_step(phase, timeout_ms, event).1->AllowForSession_0),
        job_step(phase, timeout_ms, event).0 is Writing ==> event is Polled && event->Polled_0
            is Some && job_step(phase, timeout_ms, event).0->approval == permission_question(
            event->Polled_0->Some_0,
        ),
{
}

} // verus!
