//! The files that a new project starts with.
use vstd::prelude::*;

use crate::init::{is_asahi, InitContext, InitView};
use crate::text::{cat, decimal, same_text, unsigned_text};

verus! {

/// What stands before the tracker's settings.
pub const HEAD: &'static str = "---
";

/// What stands between the tracker's settings and the notes on the project.
pub const MIDDLE: &'static str = "

polling:
  interval_ms: 30000

workspace:
  root: ./.luna/workspaces

hooks:
  timeout_ms: 60000

scheduler:
  max_concurrent: 4
  max_turns: 20
  retry_backoff_ms: 300000

runner:
  kind: codex
  command: codex app-server
  # Alternative:
  # kind: opencode      # command: opencode acp
  approval_policy: never
  thread_sandbox: danger-full-access
  turn_sandbox_policy:
    type: dangerFullAccess
---
# Luna Workflow

You are Luna, an autonomous coding agent working on a tracker item.

Project context:
";

/// What stands behind the notes on the project.
pub const TAIL: &'static str = "

Issue: {{ issue.identifier }} - {{ issue.title }}
URL: {{ issue.url or \"\" }}
State: {{ issue.state }}
Priority: {{ issue.priority if issue.priority is not none else \"unprioritized\" }}

Description:
{{ issue.description or \"(no description provided)\" }}

Blocked by:
{% if issue.blocked_by %}
{% for blocker in issue.blocked_by %}
- {{ blocker.identifier or blocker.id or \"unknown\" }} (state: {{ blocker.state or \"unknown\" }})
{% endfor %}
{% else %}
- none
{% endif %}

Attempt:
{{ attempt if attempt is not none else \"first run\" }}

Execution rules:
- Work only inside the current workspace.
- The repository checkout already lives in the current workspace; run commands from the current working directory and do not construct nested `.luna/workspaces/...` paths yourself.
- Do not guess Luna CLI usage. Check the real interface with `luna --help`, and inspect subcommand details with commands like `luna comment --help` whenever you need exact flags or behavior.
- At the start of every run, sync the workspace with the latest upstream code before making changes. Prefer `git pull --ff-only`; if the workspace is detached or has no upstream tracking branch, fetch the latest remote state and update from the correct base branch before continuing.
- Inspect the current tracker item with `luna show` before editing code.
- Use `luna comment` to post meaningful progress updates, blockers, and the final handoff summary so the workflow stays tracker-agnostic.
- Use `luna move \"<state>\"` when you need to advance the tracker state through the workflow.
- When the implementation is ready, open or update a PR with `gh pr create`, `gh pr view`, `gh pr edit`, and `gh pr comment`.
- After a PR exists, check review status and CI with `gh pr view`, `gh pr checks`, or `gh run watch`.
- Once the required review is satisfied and CI is green, merge the PR with `gh pr merge` instead of stopping at a local code change.
- Use `luna`, `gh pr`, and git commands whenever you need to inspect or update project state.
- Validate changes before stopping.
- Move the project item or backing issue to the next workflow-defined handoff state when appropriate.
";

/// The file for secrets.
pub const ENV_TEMPLATE: &'static str = "# Luna runtime secrets
# `gh` can use these if you don't want to rely on `gh auth login`.
GH_TOKEN=
GITHUB_TOKEN=
";

/// A part of a template.
pub const ASAHI_FRONT_1: &'static str = "tracker:
  kind: asahi
  db: ";

/// A part of a template.
pub const ASAHI_FRONT_2: &'static str = "
  port: ";

/// A part of a template.
pub const GITHUB_FRONT_1: &'static str = "tracker:
  kind: github_project
  owner: ";

/// A part of a template.
pub const GITHUB_FRONT_2: &'static str = "
  project_number: ";

/// A part of a template.
pub const GITHUB_FRONT_3: &'static str = "
  status_field: Status
  priority_field: Priority
  gh_command: gh
  active_states:
    - Todo
    - In Progress
  terminal_states:
    - Done";

/// A part of a template.
pub const ASAHI_CONTEXT_1: &'static str = "- Tracker: Asahi (local)
- Project title: `";

/// A part of a template.
pub const ASAHI_CONTEXT_2: &'static str = "`
- Database: `";

/// A part of a template.
pub const ASAHI_CONTEXT_3: &'static str = "`
- Port: `";

/// A part of a template.
pub const ASAHI_CONTEXT_4: &'static str = "`
- Start asahi manually with: `ROCKET_PORT=";

/// A part of a template.
pub const ASAHI_CONTEXT_5: &'static str = " asahi` (or let luna embed it automatically)
- Browse the project wiki with `luna wiki <command>` — it runs inside a virtual bash sandbox with the full wiki mounted as a filesystem, so most standard Unix commands work (ls, tree, cat, grep, find, wc, head, tail, sort, uniq, sed, awk, jq, etc.), including pipes and redirections. Examples:
  - `luna wiki ls` or `luna wiki ls -la`
  - `luna wiki tree`
  - `luna wiki cat <page>.md`
  - `luna wiki grep -r \"TODO\" .`
  - `luna wiki cat design.md | grep \"API\"`
  - `luna wiki find . -name \"*.md\" | wc -l`";

/// A part of a template.
pub const GITHUB_CONTEXT_1: &'static str = "- GitHub Project owner: `";

/// A part of a template.
pub const GITHUB_CONTEXT_2: &'static str = "`
- GitHub Project number: `";

/// A part of a template.
pub const GITHUB_CONTEXT_3: &'static str = "`
- GitHub Project title: `";

/// A part of a template.
pub const GITHUB_CONTEXT_4: &'static str = "`
- Open the project in the browser with: `gh project view ";

/// A part of a template.
pub const GITHUB_CONTEXT_5: &'static str = " --owner ";

/// A part of a template.
pub const GITHUB_CONTEXT_6: &'static str = " --web`
- Inspect project items with: `gh project item-list ";

/// A part of a template.
pub const GITHUB_CONTEXT_7: &'static str = " --format json`
- If this item corresponds to a repository issue, inspect it with commands like:
  `luna show`
  `luna comment \"...\"`
  `luna move \"In Progress\"`
- Open, inspect, and update pull requests with commands like:
  `gh pr create -R ";

/// A part of a template.
pub const GITHUB_CONTEXT_8: &'static str = " --fill`
  `gh pr view -R ";

/// A part of a template.
pub const GITHUB_CONTEXT_9: &'static str = " --json number,url,reviewDecision,statusCheckRollup`
  `gh pr comment <number> -R ";

/// A part of a template.
pub const GITHUB_CONTEXT_10: &'static str = " --body \"...\"`
  `gh pr checks <number> -R ";

/// A part of a template.
pub const GITHUB_CONTEXT_11: &'static str = " --watch`
  `gh pr merge <number> -R ";

/// A part of a template.
pub const GITHUB_CONTEXT_12: &'static str = " --squash --delete-branch`";

/// The database that is shown.
pub open spec fn shown_db(c: InitView) -> Seq<char> {
    match c.asahi_db {
        Some(db) => db,
        None => "./asahi.db"@,
    }
}

/// The port that is shown.
pub open spec fn shown_port(c: InitView) -> u16 {
    match c.asahi_port {
        Some(port) => port,
        None => 8080,
    }
}

/// The repository that is shown.
pub open spec fn repo_hint(c: InitView) -> Seq<char> {
    match c.repo_name_with_owner {
        Some(repo) => repo,
        None => "owner/repo"@,
    }
}

/// The tracker's settings.
pub open spec fn tracker_front_matter(c: InitView) -> Seq<char> {
    if is_asahi(c.tracker_kind) {
        ASAHI_FRONT_1@ + shown_db(c) + ASAHI_FRONT_2@ + decimal(shown_port(c) as nat)
    } else {
        GITHUB_FRONT_1@ + c.owner + GITHUB_FRONT_2@ + decimal(c.project_number as nat) + GITHUB_FRONT_3@
    }
}

/// The notes on the project.
pub open spec fn project_context(c: InitView) -> Seq<char> {
    if is_asahi(c.tracker_kind) {
        ASAHI_CONTEXT_1@ + c.project_title + ASAHI_CONTEXT_2@ + shown_db(c) + ASAHI_CONTEXT_3@ + decimal(shown_port(c) as nat) + ASAHI_CONTEXT_4@ + decimal(shown_port(c) as nat) + ASAHI_CONTEXT_5@
    } else {
        GITHUB_CONTEXT_1@ + c.owner + GITHUB_CONTEXT_2@ + decimal(c.project_number as nat) + GITHUB_CONTEXT_3@ + c.project_title + GITHUB_CONTEXT_4@ + decimal(c.project_number as nat) + GITHUB_CONTEXT_5@ + c.owner + GITHUB_CONTEXT_6@ + decimal(c.project_number as nat) + GITHUB_CONTEXT_5@ + c.owner + GITHUB_CONTEXT_7@ + repo_hint(c) + GITHUB_CONTEXT_8@ + repo_hint(c) + GITHUB_CONTEXT_9@ + repo_hint(c) + GITHUB_CONTEXT_10@ + repo_hint(c) + GITHUB_CONTEXT_11@ + repo_hint(c) + GITHUB_CONTEXT_12@
    }
}

/// The workflow file.
pub open spec fn workflow_text(c: InitView) -> Seq<char> {
    HEAD@ + tracker_front_matter(c) + MIDDLE@ + project_context(c) + TAIL@
}

fn db_text(context: &InitContext) -> (r: String)
    ensures
        r@ == shown_db(context@),
{
    match &context.asahi_db {
        Some(db) => db.clone(),
        None => "./asahi.db".to_owned(),
    }
}

fn port_text(context: &InitContext) -> (r: String)
    ensures
        r@ == decimal(shown_port(context@) as nat),
{
    let port: u16 = match context.asahi_port {
        Some(port) => port,
        None => 8080,
    };
    unsigned_text(port as u64)
}

fn repo_text(context: &InitContext) -> (r: String)
    ensures
        r@ == repo_hint(context@),
{
    match &context.repo_name_with_owner {
        Some(repo) => repo.clone(),
        None => "owner/repo".to_owned(),
    }
}

fn asahi_front_matter(context: &InitContext) -> (r: String)
    requires
        is_asahi(context@.tracker_kind),
    ensures
        r@ == tracker_front_matter(context@),
{
    let db = db_text(context);
    let port = port_text(context);
    let mut out = String::new();
    out.append(ASAHI_FRONT_1);
    out.append(db.as_str());
    out.append(ASAHI_FRONT_2);
    out.append(port.as_str());
    assert(out@ =~= tracker_front_matter(context@));
    out
}

fn github_front_matter(context: &InitContext) -> (r: String)
    requires
        !is_asahi(context@.tracker_kind),
    ensures
        r@ == tracker_front_matter(context@),
{
    let number = unsigned_text(context.project_number as u64);
    let mut out = String::new();
    out.append(GITHUB_FRONT_1);
    out.append(context.owner.as_str());
    out.append(GITHUB_FRONT_2);
    out.append(number.as_str());
    out.append(GITHUB_FRONT_3);
    assert(out@ =~= tracker_front_matter(context@));
    out
}

fn asahi_project_context(context: &InitContext) -> (r: String)
    requires
        is_asahi(context@.tracker_kind),
    ensures
        r@ == project_context(context@),
{
    let db = db_text(context);
    let port = port_text(context);
    let mut out = String::new();
    out.append(ASAHI_CONTEXT_1);
    out.append(context.project_title.as_str());
    out.append(ASAHI_CONTEXT_2);
    out.append(db.as_str());
    out.append(ASAHI_CONTEXT_3);
    out.append(port.as_str());
    out.append(ASAHI_CONTEXT_4);
    out.append(port.as_str());
    out.append(ASAHI_CONTEXT_5);
    assert(out@ =~= project_context(context@));
    out
}

fn github_project_context(context: &InitContext) -> (r: String)
    requires
        !is_asahi(context@.tracker_kind),
    ensures
        r@ == project_context(context@),
{
    let number = unsigned_text(context.project_number as u64);
    let repo = repo_text(context);
    let mut out = String::new();
    out.append(GITHUB_CONTEXT_1);
    out.append(context.owner.as_str());
    out.append(GITHUB_CONTEXT_2);
    out.append(number.as_str());
    out.append(GITHUB_CONTEXT_3);
    out.append(context.project_title.as_str());
    out.append(GITHUB_CONTEXT_4);
    out.append(number.as_str());
    out.append(GITHUB_CONTEXT_5);
    out.append(context.owner.as_str());
    out.append(GITHUB_CONTEXT_6);
    out.append(number.as_str());
    out.append(GITHUB_CONTEXT_5);
    out.append(context.owner.as_str());
    out.append(GITHUB_CONTEXT_7);
    out.append(repo.as_str());
    out.append(GITHUB_CONTEXT_8);
    out.append(repo.as_str());
    out.append(GITHUB_CONTEXT_9);
    out.append(repo.as_str());
    out.append(GITHUB_CONTEXT_10);
    out.append(repo.as_str());
    out.append(GITHUB_CONTEXT_11);
    out.append(repo.as_str());
    out.append(GITHUB_CONTEXT_12);
    assert(out@ =~= project_context(context@));
    out
}

/// The workflow file of a new project.
pub fn render_workflow_template(context: &InitContext) -> (r: String)
    ensures
        r@ == workflow_text(context@),
{
    let asahi = same_text(context.tracker_kind.as_str(), "asahi");
    let front = if asahi {
        asahi_front_matter(context)
    } else {
        github_front_matter(context)
    };
    let notes = if asahi {
        asahi_project_context(context)
    } else {
        github_project_context(context)
    };
    let mut out = HEAD.to_owned();
    out.append(front.as_str());
    out.append(MIDDLE);
    out.append(notes.as_str());
    out.append(TAIL);
    out
}

} // verus!
