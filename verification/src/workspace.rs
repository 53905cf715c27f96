//! The directories that agents work in.
use vstd::prelude::*;

use crate::config::HooksConfig;
use crate::error::{ErrorView, LunaError};
use crate::model::WorkspaceAssignment;
use crate::path::{
    absolute, join_adds_a_name, join_path, join_stays_below, joined_path, normalize, parts, path_of,
    starts_with, Part,
};
use crate::text::{
    alphanumeric, cat, chars_of, cut, cut_text, cuttable, debug_text, decimal, decimal_reads_back,
    digit, from_utf8_lossy, is_alphanumeric, is_cuttable, lossy, opt_text, quoted, same_text,
    signed_decimal, signed_decimals_differ, trim, trimmed,
};
use crate::tracker::github_item::issue_identifier;

verus! {

/// How many bytes of a hook's output an error message shows.
pub const HOOK_OUTPUT_LIMIT: usize = 4096;

/// The characters that a workspace's name keeps.
pub open spec fn key_char(c: char) -> bool {
    alphanumeric(c) || c == '.' || c == '_' || c == '-'
}

/// The name of the workspace of an issue: the identifier, with an underscore for
/// every character that a name does not keep.
pub open spec fn workspace_key(identifier: Seq<char>) -> Seq<char> {
    Seq::new(
        identifier.len(),
        |i: int|
            if key_char(identifier[i]) {
                identifier[i]
            } else {
                '_'
            },
    )
}

/// The path of the workspace of an issue.
pub open spec fn workspace_path(root: Seq<char>, identifier: Seq<char>) -> Seq<char> {
    joined_path(root, workspace_key(identifier))
}

/// The name of the workspace of an issue.
pub fn sanitize_workspace_key(issue_identifier: &str) -> (r: String)
    ensures
        r@ == workspace_key(issue_identifier@),
{
    let v = chars_of(issue_identifier);
    let mut out = String::new();
    let mut i: usize = 0;
    while i < v.len()
        invariant
            v@ == issue_identifier@,
            i <= v@.len(),
            out@ == workspace_key(issue_identifier@.take(i as int)),
        decreases v@.len() - i,
    {
        let c = v[i];
        if is_alphanumeric(c) || c == '.' || c == '_' || c == '-' {
            out.push(c);
        } else {
            out.push('_');
        }
        i = i + 1;
        assert(workspace_key(issue_identifier@.take(i as int)) =~= workspace_key(
            issue_identifier@.take(i - 1),
        ).push(workspace_key(issue_identifier@)[i - 1]));
    }
    assert(issue_identifier@.take(i as int) =~= issue_identifier@);
    out
}

/// A workspace's name has one character for each of the identifier's, all of them
/// characters that a name keeps, and it is its own workspace's name.
pub proof fn workspace_key_is_settled(identifier: Seq<char>)
    ensures
        workspace_key(identifier).len() == identifier.len(),
        forall|i: int|
            0 <= i < identifier.len() ==> key_char(#[trigger] workspace_key(identifier)[i]),
        workspace_key(workspace_key(identifier)) == workspace_key(identifier),
{
    assert(workspace_key(workspace_key(identifier)) =~= workspace_key(identifier));
}

/// The path of a workspace begins with the parts of the root.
pub proof fn workspace_stays_below_root(root: Seq<char>, identifier: Seq<char>)
    ensures
        parts(root).is_prefix_of(parts(workspace_path(root, identifier))),
{
    workspace_key_is_settled(identifier);
    let key = workspace_key(identifier);
    assert(!absolute(key)) by {
        if key.len() > 0 {
            assert(key_char(key[0]));
        }
    }
    if root.len() > 0 {
        join_stays_below(root, key);
    } else {
        assert(crate::path::piece_part(root, true) is None);
        assert(crate::text::first_of(root, '/') == 0);
        assert(parts(root) =~= Seq::<crate::path::Part>::empty());
    }
}

/// Whether a name names a directory of its own.
pub open spec fn proper_name(key: Seq<char>) -> bool {
    key.len() > 0 && key != seq!['.'] && key != seq!['.', '.']
}

/// A workspace is a directory of its own right below the root, unless its name is
/// empty or made of one or two dots.
pub proof fn workspace_is_one_below_root(root: Seq<char>, identifier: Seq<char>)
    requires
        proper_name(workspace_key(identifier)),
    ensures
        parts(workspace_path(root, identifier)) == parts(root).push(
            Part::Normal(workspace_key(identifier)),
        ),
{
    workspace_key_is_settled(identifier);
    let key = workspace_key(identifier);
    assert(!key.contains('/')) by {
        if key.contains('/') {
            let i = key.index_of('/');
            assert(key_char(key[i]));
        }
    }
    join_adds_a_name(root, key);
}

/// Issues whose workspaces have different names have workspaces of their own.
pub proof fn workspaces_are_apart(root: Seq<char>, a: Seq<char>, b: Seq<char>)
    requires
        workspace_key(a) != workspace_key(b),
        proper_name(workspace_key(a)),
        proper_name(workspace_key(b)),
    ensures
        workspace_path(root, a) != workspace_path(root, b),
        parts(workspace_path(root, a)) != parts(workspace_path(root, b)),
{
    workspace_is_one_below_root(root, a);
    workspace_is_one_below_root(root, b);
    assert(parts(workspace_path(root, a)).last() != parts(workspace_path(root, b)).last());
}

/// Two issues of one repository have workspaces with proper and different names.
pub proof fn numbers_have_names_of_their_own(repo: Seq<char>, m: int, n: int)
    requires
        m != n,
    ensures
        proper_name(workspace_key(issue_identifier(repo, m))),
        proper_name(workspace_key(issue_identifier(repo, n))),
        workspace_key(issue_identifier(repo, m)) != workspace_key(issue_identifier(repo, n)),
{
    number_is_kept(repo, m);
    number_is_kept(repo, n);
    signed_decimals_differ(m, n);
    let k: int = repo.len() as int + 1;
    let a = workspace_key(issue_identifier(repo, m));
    let b = workspace_key(issue_identifier(repo, n));
    assert(a.skip(k) != b.skip(k));
}

proof fn number_is_kept(repo: Seq<char>, n: int)
    ensures
        workspace_key(issue_identifier(repo, n)).skip(repo.len() as int + 1) == signed_decimal(n),
        proper_name(workspace_key(issue_identifier(repo, n))),
{
    reveal_strlit("#");
    let id = issue_identifier(repo, n);
    let d = signed_decimal(n);
    let k: int = repo.len() as int + 1;
    decimal_reads_back(
        if n < 0 {
            (-n) as nat
        } else {
            n as nat
        },
    );
    assert forall|i: int| 0 <= i < d.len() implies key_char(#[trigger] d[i]) by {
        if n < 0 && i > 0 {
            assert(digit(decimal((-n) as nat)[i - 1]));
        } else if n >= 0 {
            assert(digit(decimal(n as nat)[i]));
        }
    }
    let key = workspace_key(id);
    assert(id.skip(k) =~= d);
    assert forall|i: int| 0 <= i < d.len() implies key.skip(k)[i] == d[i] by {
        assert(id.skip(k)[i] == id[k + i]);
        assert(key_char(d[i]));
    }
    assert(key.skip(k) =~= d);
    assert(key[k - 1] == '_');
}

/// The name of the file beside a workspace that says whose it is.
pub open spec fn record_name(key: Seq<char>) -> Seq<char> {
    key + "#issue"@
}

/// The path of the file that says whose workspace the one of an issue is.
pub open spec fn record_path(root: Seq<char>, identifier: Seq<char>) -> Seq<char> {
    joined_path(root, record_name(workspace_key(identifier)))
}

/// A record stands right below the root, where no workspace and no other record
/// stands.
pub proof fn records_are_apart(root: Seq<char>, a: Seq<char>, b: Seq<char>)
    ensures
        parts(record_path(root, a)) == parts(root).push(
            Part::Normal(record_name(workspace_key(a))),
        ),
        proper_name(workspace_key(b)) ==> parts(record_path(root, a)) != parts(
            workspace_path(root, b),
        ),
        workspace_key(a) != workspace_key(b) ==> parts(record_path(root, a)) != parts(
            record_path(root, b),
        ),
{
    record_is_one_below_root(root, a);
    record_is_one_below_root(root, b);
    let x = record_name(workspace_key(a));
    let y = record_name(workspace_key(b));
    assert(parts(record_path(root, a)).last() == Part::Normal(x));
    assert(parts(record_path(root, b)).last() == Part::Normal(y));
    reveal_strlit("#issue");
    if proper_name(workspace_key(b)) {
        workspace_is_one_below_root(root, b);
        workspace_key_is_settled(b);
        assert(parts(workspace_path(root, b)).last() == Part::Normal(workspace_key(b)));
        if x == workspace_key(b) {
            let i: int = workspace_key(a).len() as int;
            assert(x[i] == '#');
            assert(key_char(workspace_key(b)[i]));
        }
    }
    if workspace_key(a) != workspace_key(b) {
        assert(x.take(x.len() - 6) =~= workspace_key(a));
        assert(y.take(y.len() - 6) =~= workspace_key(b));
    }
}

proof fn record_is_one_below_root(root: Seq<char>, identifier: Seq<char>)
    ensures
        parts(record_path(root, identifier)) == parts(root).push(
            Part::Normal(record_name(workspace_key(identifier))),
        ),
{
    reveal_strlit("#issue");
    workspace_key_is_settled(identifier);
    let key = workspace_key(identifier);
    let name = record_name(key);
    assert(!name.contains('/')) by {
        if name.contains('/') {
            let i = name.index_of('/');
            if i < key.len() {
                assert(key_char(key[i]));
            } else {
                assert(name[i] == "#issue"@[i - key.len()]);
            }
        }
    }
    assert(name.len() >= 6);
    assert(seq!['.'].len() == 1 && seq!['.', '.'].len() == 2);
    join_adds_a_name(root, name);
}

/// The message for a path that does not lie below the root.
pub open spec fn escaped_root(root: Seq<char>, path: Seq<char>) -> Seq<char> {
    "workspace path escaped root: "@ + path_of(parts(path)) + " not under "@ + path_of(parts(root))
}

/// Refuses a path that does not lie below `root`.
pub fn ensure_within_root(root: &str, path: &str) -> (r: Result<(), LunaError>)
    ensures
        match r {
            Ok(()) => parts(root@).is_prefix_of(parts(path@)),
            Err(e) => !parts(root@).is_prefix_of(parts(path@)) && e@ == ErrorView::Workspace(
                escaped_root(root@, path@),
            ),
        },
{
    if starts_with(path, root) {
        return Ok(());
    }
    Err(outside_root(root, path))
}

fn outside_root(root: &str, path: &str) -> (r: LunaError)
    ensures
        r@ == ErrorView::Workspace(escaped_root(root@, path@)),
{
    let mut message = "workspace path escaped root: ".to_owned();
    let path = normalize(path);
    message.append(path.as_str());
    message.append(" not under ");
    let root = normalize(root);
    message.append(root.as_str());
    LunaError::Workspace(message)
}

/// Whether a name names a directory of its own.
fn is_proper_name(key: &str) -> (r: bool)
    ensures
        r == proper_name(key@),
{
    let v = chars_of(key);
    proof {
        assert(v@.len() == 1 && v@[0] == '.' ==> key@ =~= seq!['.']);
        assert(v@.len() == 2 && v@[0] == '.' && v@[1] == '.' ==> key@ =~= seq!['.', '.']);
    }
    !(v.len() == 0 || (v.len() == 1 && v[0] == '.') || (v.len() == 2 && v[0] == '.' && v[1]
        == '.'))
}

/// A hook's output as an error message shows it.
pub fn truncate_output(output: &str) -> (r: String)
    requires
        cuttable(trimmed(output@), HOOK_OUTPUT_LIMIT as int),
    ensures
        r@ == cut(trimmed(output@), HOOK_OUTPUT_LIMIT as int),
{
    let bare = trim(output);
    cut_text(bare.as_str(), HOOK_OUTPUT_LIMIT)
}

/// What stands at a path: of a directory, also whose workspace it is, where that is
/// known.
#[derive(Clone, Debug, PartialEq, Eq)]
pub enum PathState {
    Missing,
    Directory { owner: Option<String> },
    Other,
}

/// The model of what stands at a path.
pub ghost enum PathView {
    Missing,
    Directory { owner: Option<Seq<char>> },
    Other,
}

impl PathState {
    /// The model of what stands at the path.
    pub open spec fn view(&self) -> PathView {
        match self {
            PathState::Missing => PathView::Missing,
            PathState::Directory { owner } => PathView::Directory { owner: opt_text(*owner) },
            PathState::Other => PathView::Other,
        }
    }
}

/// Whose workspace stands at a path, where it is not that of `identifier`.
pub open spec fn other_owner(found: PathView, identifier: Seq<char>) -> Option<Seq<char>> {
    match found {
        PathView::Directory { owner: Some(owner) } => if owner == identifier {
            None
        } else {
            Some(owner)
        },
        _ => None,
    }
}

/// What stands at the path of a workspace once it was made ready for an issue.
pub open spec fn kept_for(identifier: Seq<char>) -> PathView {
    PathView::Directory { owner: Some(identifier) }
}

/// The error for a path at which the workspace of another issue stands.
pub open spec fn taken_error(path: Seq<char>, owner: Seq<char>) -> ErrorView {
    ErrorView::Workspace("workspace belongs to another issue: "@ + path + " is kept for "@ + owner)
}

/// A hook that is to run.
#[derive(Clone, Debug)]
pub struct HookRun {
    pub name: String,
    pub script: String,
    pub cwd: String,
    pub timeout_ms: u64,
    pub fatal: bool,
}

/// The model of a hook that is to run.
pub struct HookView {
    pub name: Seq<char>,
    pub script: Seq<char>,
    pub cwd: Seq<char>,
    pub timeout_ms: u64,
    pub fatal: bool,
}

impl View for HookRun {
    type V = HookView;

    open spec fn view(&self) -> HookView {
        HookView {
            name: self.name@,
            script: self.script@,
            cwd: self.cwd@,
            timeout_ms: self.timeout_ms,
            fatal: self.fatal,
        }
    }
}

/// The model of an optional hook.
pub open spec fn opt_hook(h: Option<HookRun>) -> Option<HookView> {
    match h {
        Some(h) => Some(h@),
        None => None,
    }
}

/// The hook that runs where a script is configured.
pub open spec fn hook_for(
    name: Seq<char>,
    script: Option<String>,
    cwd: Seq<char>,
    timeout_ms: u64,
    fatal: bool,
) -> Option<HookView> {
    match script {
        Some(s) => Some(HookView { name, script: s@, cwd, timeout_ms, fatal }),
        None => None,
    }
}

/// A workspace as it is to be made ready. First the issue's identifier is written to
/// the file `record`.
#[derive(Clone, Debug)]
pub struct PreparedWorkspace {
    pub assignment: WorkspaceAssignment,
    pub record: String,
    pub make_directory: bool,
    pub hook: Option<HookRun>,
}

/// The model of a workspace as it is to be made ready.
pub ghost struct PreparedView {
    pub path: Seq<char>,
    pub workspace_key: Seq<char>,
    pub created_now: bool,
    pub record: Seq<char>,
    pub make_directory: bool,
    pub hook: Option<HookView>,
}

impl PreparedWorkspace {
    /// The model of the workspace.
    pub open spec fn view(&self) -> PreparedView {
        PreparedView {
            path: self.assignment.path@,
            workspace_key: self.assignment.workspace_key@,
            created_now: self.assignment.created_now,
            record: self.record@,
            make_directory: self.make_directory,
            hook: opt_hook(self.hook),
        }
    }
}

/// A workspace as it is to be removed, and after it the file `record`.
#[derive(Clone, Debug)]
pub struct CleanupPlan {
    pub path: String,
    pub record: String,
    pub hook: Option<HookRun>,
}

/// The model of a workspace as it is to be removed.
pub ghost struct CleanupView {
    pub path: Seq<char>,
    pub record: Seq<char>,
    pub hook: Option<HookView>,
}

impl CleanupPlan {
    /// The model of the plan.
    pub open spec fn view(&self) -> CleanupView {
        CleanupView { path: self.path@, record: self.record@, hook: opt_hook(self.hook) }
    }
}

/// The model of an optional plan.
pub open spec fn opt_plan(plan: Option<CleanupPlan>) -> Option<CleanupView> {
    match plan {
        Some(plan) => Some(plan@),
        None => None,
    }
}

/// How the workspace of an issue is made ready below `root`, given what stands at its
/// path.
pub open spec fn preparation(
    root: Seq<char>,
    hooks: HooksConfig,
    identifier: Seq<char>,
    found: PathView,
) -> Result<PreparedView, ErrorView> {
    let path = workspace_path(root, identifier);
    let missing = found is Missing;
    if !proper_name(workspace_key(identifier)) {
        Err(ErrorView::Workspace(escaped_root(root, path)))
    } else if found is Other {
        Err(ErrorView::Workspace("workspace path exists but is not a directory: "@ + path))
    } else {
        match other_owner(found, identifier) {
            Some(owner) => Err(taken_error(path, owner)),
            None => Ok(
                PreparedView {
                    path,
                    workspace_key: workspace_key(identifier),
                    created_now: missing,
                    record: record_path(root, identifier),
                    make_directory: missing,
                    hook: if missing {
                        hook_for(
                            "after_create"@,
                            hooks.after_create,
                            path,
                            hooks.timeout_ms,
                            true,
                        )
                    } else {
                        None
                    },
                },
            ),
        }
    }
}

/// What is removed for an issue below `root`, given what stands at the path of its
/// workspace: nothing where nothing stands there.
pub open spec fn removal(
    root: Seq<char>,
    hooks: HooksConfig,
    identifier: Seq<char>,
    found: PathView,
) -> Result<Option<CleanupView>, ErrorView> {
    let path = workspace_path(root, identifier);
    if !proper_name(workspace_key(identifier)) {
        Err(ErrorView::Workspace(escaped_root(root, path)))
    } else {
        match other_owner(found, identifier) {
            Some(owner) => Err(taken_error(path, owner)),
            None => Ok(
                if found is Missing {
                    None
                } else {
                    Some(
                        CleanupView {
                            path,
                            record: record_path(root, identifier),
                            hook: hook_for(
                                "before_remove"@,
                                hooks.before_remove,
                                path,
                                hooks.timeout_ms,
                                false,
                            ),
                        },
                    )
                },
            ),
        }
    }
}

/// Each issue has a workspace of its own: while the workspace of one issue is kept,
/// no other issue is given it, and none has it removed. `disk` says what stands at
/// each path.
pub proof fn each_issue_has_its_own_workspace(
    root: Seq<char>,
    hooks: HooksConfig,
    a: Seq<char>,
    b: Seq<char>,
    found: PathView,
    disk: spec_fn(Seq<char>) -> PathView,
)
    requires
        a != b,
        preparation(root, hooks, a, found) is Ok,
        disk(preparation(root, hooks, a, found)->Ok_0.path) == kept_for(a),
    ensures
        preparation(root, hooks, b, disk(workspace_path(root, b))) matches Ok(p) ==> {
            &&& p.path != preparation(root, hooks, a, found)->Ok_0.path
            &&& parts(p.path) != parts(preparation(root, hooks, a, found)->Ok_0.path)
        },
        removal(root, hooks, b, disk(workspace_path(root, b))) matches Ok(Some(plan)) ==> {
            &&& plan.path != preparation(root, hooks, a, found)->Ok_0.path
            &&& parts(plan.path) != parts(preparation(root, hooks, a, found)->Ok_0.path)
            &&& parts(plan.record) != parts(preparation(root, hooks, a, found)->Ok_0.path)
            &&& parts(plan.record) != parts(preparation(root, hooks, a, found)->Ok_0.record)
        },
{
    if workspace_key(a) != workspace_key(b) && proper_name(workspace_key(b)) {
        workspaces_are_apart(root, a, b);
        records_are_apart(root, b, a);
    }
}

/// The issue that a workspace is kept for goes on in it, without anything being made
/// anew, and can have it removed.
pub proof fn kept_workspace_is_used_again(
    root: Seq<char>,
    hooks: HooksConfig,
    identifier: Seq<char>,
    found: PathView,
)
    requires
        preparation(root, hooks, identifier, found) is Ok,
    ensures
        ({
            let first = preparation(root, hooks, identifier, found)->Ok_0;
            let again = preparation(root, hooks, identifier, kept_for(identifier));
            let plan = removal(root, hooks, identifier, kept_for(identifier));
            &&& again is Ok
            &&& again->Ok_0.path == first.path
            &&& !again->Ok_0.make_directory
            &&& again->Ok_0.hook is None
            &&& plan matches Ok(Some(p)) && p.path == first.path && p.record == first.record
        }),
{
}

/// What is removed for an issue is one directory right below the root, and the record
/// beside it: neither the root nor anything above it.
pub proof fn removal_stays_right_below_root(
    root: Seq<char>,
    hooks: HooksConfig,
    identifier: Seq<char>,
    found: PathView,
)
    ensures
        removal(root, hooks, identifier, found) matches Ok(Some(plan)) ==> {
            &&& parts(plan.path) == parts(root).push(Part::Normal(workspace_key(identifier)))
            &&& parts(plan.record) == parts(root).push(
                Part::Normal(record_name(workspace_key(identifier))),
            )
        },
{
    if proper_name(workspace_key(identifier)) {
        workspace_is_one_below_root(root, identifier);
        record_is_one_below_root(root, identifier);
    }
}

/// How a hook ended.
#[derive(Clone, Debug)]
pub enum HookEnd {
    TimedOut,
    NotStarted(String),
    Succeeded,
    Failed { status: String, stdout: String, stderr: String },
}

/// Keeps the workspaces below one root.
#[derive(Clone, Debug)]
pub struct WorkspaceManager {
    pub root: String,
    pub hooks: HooksConfig,
}

impl WorkspaceManager {
    /// A manager for the workspaces below `root`.
    pub fn new(root: String, hooks: HooksConfig) -> (r: WorkspaceManager)
        ensures
            r.root == root,
            r.hooks == hooks,
    {
        WorkspaceManager { root, hooks }
    }

    fn optional_hook(&self, name: &str, script: &Option<String>, cwd: &str, fatal: bool) -> (r:
        Option<HookRun>)
        ensures
            opt_hook(r) == hook_for(name@, *script, cwd@, self.hooks.timeout_ms, fatal),
    {
        match script {
            Some(s) => Some(
                HookRun {
                    name: name.to_owned(),
                    script: s.clone(),
                    cwd: cwd.to_owned(),
                    timeout_ms: self.hooks.timeout_ms,
                    fatal,
                },
            ),
            None => None,
        }
    }

    /// The name and the path of the workspace of an issue: a directory right below the
    /// root. An identifier whose name would lead to the root itself, or out of it, is
    /// refused.
    pub fn locate(&self, issue_identifier: &str) -> (r: Result<(String, String), LunaError>)
        ensures
            (r is Ok) == proper_name(workspace_key(issue_identifier@)),
            match r {
                Ok((key, path)) => {
                    &&& key@ == workspace_key(issue_identifier@)
                    &&& path@ == workspace_path(self.root@, issue_identifier@)
                    &&& parts(path@) == parts(self.root@).push(
                        Part::Normal(workspace_key(issue_identifier@)),
                    )
                },
                Err(e) => e@ == ErrorView::Workspace(
                    escaped_root(self.root@, workspace_path(self.root@, issue_identifier@)),
                ),
            },
    {
        let key = sanitize_workspace_key(issue_identifier);
        let path = join_path(self.root.as_str(), key.as_str());
        if !is_proper_name(key.as_str()) {
            return Err(outside_root(self.root.as_str(), path.as_str()));
        }
        proof {
            workspace_stays_below_root(self.root@, issue_identifier@);
            workspace_is_one_below_root(self.root@, issue_identifier@);
        }
        match ensure_within_root(self.root.as_str(), path.as_str()) {
            Ok(()) => Ok((key, path)),
            Err(e) => Err(e),
        }
    }

    /// The file that says whose workspace the one of an issue is.
    pub fn record(&self, issue_identifier: &str) -> (r: String)
        ensures
            r@ == record_path(self.root@, issue_identifier@),
    {
        let key = sanitize_workspace_key(issue_identifier);
        let name = cat(key.as_str(), "#issue");
        join_path(self.root.as_str(), name.as_str())
    }

    fn refuse_other_owner(issue_identifier: &str, path: &str, found: &PathState) -> (r: Result<
        (),
        LunaError,
    >)
        ensures
            match r {
                Ok(()) => other_owner(found@, issue_identifier@) is None,
                Err(e) => other_owner(found@, issue_identifier@) is Some && e@ == taken_error(
                    path@,
                    other_owner(found@, issue_identifier@)->Some_0,
                ),
            },
    {
        if let PathState::Directory { owner: Some(owner) } = found {
            if !same_text(owner.as_str(), issue_identifier) {
                let mut message = "workspace belongs to another issue: ".to_owned();
                message.append(path);
                message.append(" is kept for ");
                message.append(owner.as_str());
                return Err(LunaError::Workspace(message));
            }
        }
        Ok(())
    }

    /// Makes the workspace of an issue ready, given what stands at its path. A
    /// missing directory is made, and the hook after creation runs in it. What is
    /// no directory is refused, and so is the workspace of another issue.
    pub fn prepare(&self, issue_identifier: &str, found: PathState) -> (r: Result<
        PreparedWorkspace,
        LunaError,
    >)
        ensures
            match r {
                Ok(p) => preparation(self.root@, self.hooks, issue_identifier@, found@) == Ok::<
                    PreparedView,
                    ErrorView,
                >(p@),
                Err(e) => preparation(self.root@, self.hooks, issue_identifier@, found@) == Err::<
                    PreparedView,
                    ErrorView,
                >(e@),
            },
            (r is Ok) == (proper_name(workspace_key(issue_identifier@)) && !(found is Other)
                && other_owner(found@, issue_identifier@) is None),
            r matches Ok(p) ==> parts(p.assignment.path@) == parts(self.root@).push(
                Part::Normal(workspace_key(issue_identifier@)),
            ),
            r matches Err(e) ==> e@ is Workspace,
    {
        let (workspace_key, path) = match self.locate(issue_identifier) {
            Ok(found) => found,
            Err(e) => return Err(e),
        };
        let created_now: bool = match found {
            PathState::Missing => true,
            PathState::Directory { owner: _ } => false,
            PathState::Other => {
                return Err(
                    LunaError::Workspace(
                        cat("workspace path exists but is not a directory: ", path.as_str()),
                    ),
                );
            },
        };
        match Self::refuse_other_owner(issue_identifier, path.as_str(), &found) {
            Ok(()) => {},
            Err(e) => return Err(e),
        }
        let hook = if created_now {
            self.optional_hook("after_create", &self.hooks.after_create, path.as_str(), true)
        } else {
            None
        };
        Ok(
            PreparedWorkspace {
                assignment: WorkspaceAssignment { path, workspace_key, created_now },
                record: self.record(issue_identifier),
                make_directory: created_now,
                hook,
            },
        )
    }

    /// The hook before an agent's run; its failure stops the run.
    pub fn before_run(&self, workspace: &WorkspaceAssignment) -> (r: Option<HookRun>)
        ensures
            opt_hook(r) == hook_for(
                "before_run"@,
                self.hooks.before_run,
                workspace.path@,
                self.hooks.timeout_ms,
                true,
            ),
    {
        self.optional_hook("before_run", &self.hooks.before_run, workspace.path.as_str(), true)
    }

    /// The hook after an agent's run; its failure is only reported.
    pub fn after_run_best_effort(&self, workspace: &WorkspaceAssignment) -> (r: Option<HookRun>)
        ensures
            opt_hook(r) == hook_for(
                "after_run"@,
                self.hooks.after_run,
                workspace.path@,
                self.hooks.timeout_ms,
                false,
            ),
    {
        self.optional_hook("after_run", &self.hooks.after_run, workspace.path.as_str(), false)
    }

    /// What to remove for an issue, given what stands at the path of its workspace.
    /// The hook before the removal is run, and its failure is only reported. The
    /// workspace of another issue is left alone.
    pub fn cleanup(&self, issue_identifier: &str, found: PathState) -> (r: Result<
        Option<CleanupPlan>,
        LunaError,
    >)
        ensures
            match r {
                Ok(plan) => removal(self.root@, self.hooks, issue_identifier@, found@) == Ok::<
                    Option<CleanupView>,
                    ErrorView,
                >(opt_plan(plan)),
                Err(e) => removal(self.root@, self.hooks, issue_identifier@, found@) == Err::<
                    Option<CleanupView>,
                    ErrorView,
                >(e@),
            },
            (r is Ok) == (proper_name(workspace_key(issue_identifier@)) && other_owner(
                found@,
                issue_identifier@,
            ) is None),
            r matches Ok(Some(plan)) ==> parts(plan.path@) == parts(self.root@).push(
                Part::Normal(workspace_key(issue_identifier@)),
            ),
            r matches Err(e) ==> e@ is Workspace,
    {
        let (_, path) = match self.locate(issue_identifier) {
            Ok(found) => found,
            Err(e) => return Err(e),
        };
        match Self::refuse_other_owner(issue_identifier, path.as_str(), &found) {
            Ok(()) => {},
            Err(e) => return Err(e),
        }
        if let PathState::Missing = found {
            return Ok(None);
        }
        let hook = self.optional_hook(
            "before_remove",
            &self.hooks.before_remove,
            path.as_str(),
            false,
        );
        Ok(Some(CleanupPlan { path, record: self.record(issue_identifier), hook }))
    }
}

/// The message for a hook that failed.
pub open spec fn hook_failure(
    name: Seq<char>,
    status: Seq<char>,
    stdout: Seq<char>,
    stderr: Seq<char>,
) -> Seq<char> {
    "hook failed: "@ + name + ", status="@ + status + ", stdout="@ + quoted(
        cut(trimmed(stdout), HOOK_OUTPUT_LIMIT as int),
    ) + ", stderr="@ + quoted(cut(trimmed(stderr), HOOK_OUTPUT_LIMIT as int))
}

/// What comes of a hook: nothing, a failure that is only reported, or an error.
pub open spec fn hook_conclusion(name: Seq<char>, fatal: bool, end: HookEnd) -> Result<
    Option<Seq<char>>,
    ErrorView,
> {
    match end {
        HookEnd::TimedOut => Err(ErrorView::Workspace("hook timed out: "@ + name)),
        HookEnd::NotStarted(why) => Err(ErrorView::Io(why@)),
        HookEnd::Succeeded => Ok(None),
        HookEnd::Failed { status, stdout, stderr } => {
            let message = hook_failure(name, status@, stdout@, stderr@);
            if fatal {
                Err(ErrorView::Workspace(message))
            } else {
                Ok(Some(message))
            }
        },
    }
}

/// Whether what a failed hook wrote can be cut to the limit.
pub open spec fn output_cuttable(end: HookEnd) -> bool {
    match end {
        HookEnd::Failed { status, stdout, stderr } => {
            &&& cuttable(trimmed(stdout@), HOOK_OUTPUT_LIMIT as int)
            &&& cuttable(trimmed(stderr@), HOOK_OUTPUT_LIMIT as int)
        },
        _ => true,
    }
}

/// What comes of a hook.
pub fn run_optional_hook(name: &str, fatal: bool, end: &HookEnd) -> (r: Result<
    Option<String>,
    LunaError,
>)
    requires
        output_cuttable(*end),
    ensures
        match r {
            Ok(note) => hook_conclusion(name@, fatal, *end) == Ok::<Option<Seq<char>>, ErrorView>(
                opt_text(note),
            ),
            Err(e) => hook_conclusion(name@, fatal, *end) == Err::<Option<Seq<char>>, ErrorView>(
                e@,
            ),
        },
{
    match end {
        HookEnd::TimedOut => Err(LunaError::Workspace(cat("hook timed out: ", name))),
        HookEnd::NotStarted(why) => Err(LunaError::Io(why.clone())),
        HookEnd::Succeeded => Ok(None),
        HookEnd::Failed { status, stdout, stderr } => {
            let mut message = "hook failed: ".to_owned();
            message.append(name);
            message.append(", status=");
            message.append(status.as_str());
            message.append(", stdout=");
            let shown = truncate_output(stdout.as_str());
            let shown = debug_text(shown.as_str());
            message.append(shown.as_str());
            message.append(", stderr=");
            let shown = truncate_output(stderr.as_str());
            let shown = debug_text(shown.as_str());
            message.append(shown.as_str());
            if fatal {
                Err(LunaError::Workspace(message))
            } else {
                Ok(Some(message))
            }
        },
    }
}

/// What comes of a hook that failed, given the bytes that it wrote, or nothing
/// where what it wrote cannot be cut to the limit.
pub fn conclude_failed_hook(
    name: &str,
    fatal: bool,
    status: &str,
    stdout: &[u8],
    stderr: &[u8],
) -> (r: Option<Result<Option<String>, LunaError>>)
    ensures
        (r is Some) == (cuttable(trimmed(lossy(stdout@)), HOOK_OUTPUT_LIMIT as int) && cuttable(
            trimmed(lossy(stderr@)),
            HOOK_OUTPUT_LIMIT as int,
        )),
        r is Some ==> {
            let message = hook_failure(name@, status@, lossy(stdout@), lossy(stderr@));
            match r->Some_0 {
                Ok(note) => !fatal && opt_text(note) == Some(message),
                Err(e) => fatal && e@ == ErrorView::Workspace(message),
            }
        },
{
    let stdout = from_utf8_lossy(stdout);
    let stderr = from_utf8_lossy(stderr);
    let bare_out = trim(stdout.as_str());
    let bare_err = trim(stderr.as_str());
    if !is_cuttable(bare_out.as_str(), HOOK_OUTPUT_LIMIT) || !is_cuttable(
        bare_err.as_str(),
        HOOK_OUTPUT_LIMIT,
    ) {
        return None;
    }
    let end = HookEnd::Failed { status: status.to_owned(), stdout, stderr };
    Some(run_optional_hook(name, fatal, &end))
}

// ---------------------------------------------------------------------------
// What workspaces and hooks are for
// ---------------------------------------------------------------------------

/// A workspace's name is as long as the identifier, keeps ASCII letters, digits, dots,
/// underscores and dashes in their places, and has an underscore in every other place.
pub proof fn names_keep_plain_characters(identifier: Seq<char>, i: int)
    requires
        0 <= i < identifier.len(),
    ensures
        ({
            let c = identifier[i];
            let kept = ('a' <= c && c <= 'z') || ('A' <= c && c <= 'Z') || ('0' <= c && c <= '9')
                || c == '.' || c == '_' || c == '-';
            &&& workspace_key(identifier).len() == identifier.len()
            &&& kept ==> workspace_key(identifier)[i] == c
            &&& !kept ==> workspace_key(identifier)[i] == '_'
        }),
{
}

/// A missing workspace is made, and where a script for that is configured it is run in
/// the workspace, with the configured time, and must not fail. A workspace that is there
/// is neither made nor is a script run. Either way the workspace is the directory of
/// that name right below the root, and says whether it is new.
pub proof fn missing_workspace_is_made_and_set_up(
    root: Seq<char>,
    hooks: HooksConfig,
    identifier: Seq<char>,
    found: PathView,
)
    ensures
        preparation(root, hooks, identifier, found) matches Ok(p) ==> {
            &&& parts(p.path) == parts(root).push(Part::Normal(workspace_key(identifier)))
            &&& p.workspace_key == workspace_key(identifier)
            &&& p.make_directory <==> found is Missing
            &&& p.created_now <==> found is Missing
            &&& found is Missing && hooks.after_create is Some ==> (p.hook matches Some(hook)
                && hook.script == hooks.after_create->Some_0@ && hook.cwd == p.path && hook.fatal
                && hook.timeout_ms == hooks.timeout_ms && hook.name == "after_create"@)
            &&& !(found is Missing) || hooks.after_create is None ==> p.hook is None
        },
        preparation(root, hooks, identifier, found) is Ok <==> proper_name(
            workspace_key(identifier),
        ) && (found is Missing || (found matches PathView::Directory { owner } && (owner is None
            || owner == Some(identifier)))),
{
    if proper_name(workspace_key(identifier)) {
        workspace_is_one_below_root(root, identifier);
    }
}

/// Whatever stands at the path of a workspace is removed, unless it is kept for another
/// issue. Where a script for that is configured it is run before, in the workspace, with
/// the configured time, and may fail; no script is run only where none is configured.
/// Where nothing stands there nothing is done.
pub proof fn workspace_is_torn_down_before_it_is_removed(
    root: Seq<char>,
    hooks: HooksConfig,
    identifier: Seq<char>,
    found: PathView,
)
    requires
        proper_name(workspace_key(identifier)),
        !(found matches PathView::Directory { owner: Some(owner) } && owner != identifier),
    ensures
        found is Missing ==> removal(root, hooks, identifier, found) == Ok::<
            Option<CleanupView>,
            ErrorView,
        >(None),
        found !is Missing ==> (removal(root, hooks, identifier, found) matches Ok(Some(plan))
            && parts(plan.path) == parts(root).push(Part::Normal(workspace_key(identifier)))
            && plan.record == preparation(root, hooks, identifier, PathView::Missing)->Ok_0.record
            && plan.path == preparation(root, hooks, identifier, PathView::Missing)->Ok_0.path && (
        hooks.before_remove is None ==> plan.hook is None) && (hooks.before_remove is Some ==> (
        plan.hook matches Some(hook) && hook.script == hooks.before_remove->Some_0@ && hook.cwd
            == plan.path && !hook.fatal && hook.timeout_ms == hooks.timeout_ms && hook.name
            == "before_remove"@))),
{
    workspace_is_one_below_root(root, identifier);
}

/// A script that is configured is run under its name, in the given directory, for at
/// most the given time; and where none is configured nothing is run.
pub proof fn configured_scripts_are_run(
    name: Seq<char>,
    script: Option<String>,
    cwd: Seq<char>,
    timeout_ms: u64,
    fatal: bool,
)
    ensures
        script is None ==> hook_for(name, script, cwd, timeout_ms, fatal) is None,
        script is Some ==> (hook_for(name, script, cwd, timeout_ms, fatal) matches Some(hook)
            && hook.name == name && hook.script == script->Some_0@ && hook.cwd == cwd
            && hook.timeout_ms == timeout_ms && hook.fatal == fatal),
{
}

/// A hook that runs out of time or cannot be started is an error, whatever it is for;
/// one that succeeds is none; and one that fails is an error where it must not fail,
/// and else a note, with the same words.
pub proof fn hooks_fail_as_they_should(name: Seq<char>, end: HookEnd, fatal: bool)
    ensures
        end is TimedOut ==> hook_conclusion(name, fatal, end) == Err::<Option<Seq<char>>, ErrorView>(
            ErrorView::Workspace("hook timed out: "@ + name),
        ),
        end matches HookEnd::NotStarted(why) ==> hook_conclusion(name, fatal, end) == Err::<
            Option<Seq<char>>,
            ErrorView,
        >(ErrorView::Io(why@)),
        end is Succeeded ==> hook_conclusion(name, fatal, end) == Ok::<Option<Seq<char>>, ErrorView>(
            None,
        ),
        end is Failed ==> (hook_conclusion(name, true, end) matches Err(ErrorView::Workspace(why))
            && hook_conclusion(name, false, end) == Ok::<Option<Seq<char>>, ErrorView>(Some(why))
            && ("hook failed: "@ + name + ", status="@ + end->status@).is_prefix_of(why)),
{
    if end is Failed {
        let head = "hook failed: "@ + name + ", status="@ + end->status@;
        let why = hook_failure(name, end->status@, end->stdout@, end->stderr@);
        let a = head + ", stdout="@;
        let b = a + quoted(cut(trimmed(end->stdout@), HOOK_OUTPUT_LIMIT as int));
        let c = b + ", stderr="@;
        assert(why =~= c + quoted(cut(trimmed(end->stderr@), HOOK_OUTPUT_LIMIT as int)));
        assert(why.subrange(0, head.len() as int) =~= head);
    }
}

/// What a failed hook wrote is shown in quotes and without white space around it, and
/// in full where it is no longer than 4096 bytes.
pub proof fn failed_hooks_show_what_they_wrote(
    name: Seq<char>,
    status: Seq<char>,
    stdout: Seq<char>,
    stderr: Seq<char>,
)
    ensures
        hook_failure(name, status, stdout, stderr) == hook_failure(
            name,
            status,
            trimmed(stdout),
            trimmed(stderr),
        ),
        vstd::utf8::encode_utf8(trimmed(stdout)).len() <= 4096 && vstd::utf8::encode_utf8(
            trimmed(stderr),
        ).len() <= 4096 ==> hook_failure(name, status, stdout, stderr) == "hook failed: "@ + name
            + ", status="@ + status + ", stdout="@ + quoted(trimmed(stdout)) + ", stderr="@
            + quoted(trimmed(stderr)),
{
    crate::text::trimmed_is_tight(stdout);
    crate::text::trimmed_is_tight(stderr);
    crate::text::trimmed_fixed(trimmed(stdout));
    crate::text::trimmed_fixed(trimmed(stderr));
}

/// Plans are modelled with all that they hold, their hooks among it.
pub proof fn models_show_plans_and_hooks(
    prepared: PreparedWorkspace,
    plan: CleanupPlan,
    hook: HookRun,
)
    ensures
        prepared@.path == prepared.assignment.path@,
        prepared@.workspace_key == prepared.assignment.workspace_key@,
        prepared@.created_now == prepared.assignment.created_now,
        prepared@.record == prepared.record@,
        prepared@.make_directory == prepared.make_directory,
        prepared.hook is None <==> prepared@.hook is None,
        prepared.hook matches Some(h) ==> prepared@.hook == Some(h@),
        plan@.path == plan.path@,
        plan@.record == plan.record@,
        plan.hook is None <==> plan@.hook is None,
        plan.hook matches Some(h) ==> plan@.hook == Some(h@),
        hook@.name == hook.name@,
        hook@.script == hook.script@,
        hook@.cwd == hook.cwd@,
        hook@.timeout_ms == hook.timeout_ms,
        hook@.fatal == hook.fatal,
{
}

/// A workspace that cannot be had is refused with the reason: the identifier leads out of
/// the root, something that is no directory stands there, or it is kept for another issue.
/// What is kept for another issue is not removed either.
pub proof fn refusals_give_their_reason(
    root: Seq<char>,
    hooks: HooksConfig,
    identifier: Seq<char>,
    owner: Seq<char>,
    found: PathView,
)
    ensures
        ({
            let path = workspace_path(root, identifier);
            let proper = proper_name(workspace_key(identifier));
            let outside = ErrorView::Workspace(
                "workspace path escaped root: "@ + path_of(parts(path)) + " not under "@ + path_of(
                    parts(root),
                ),
            );
            let kept = ErrorView::Workspace(
                "workspace belongs to another issue: "@ + path + " is kept for "@ + owner,
            );
            let other = PathView::Directory { owner: Some(owner) };
            &&& !proper ==> preparation(root, hooks, identifier, found) == Err::<
                PreparedView,
                ErrorView,
            >(outside)
            &&& !proper ==> removal(root, hooks, identifier, found) == Err::<
                Option<CleanupView>,
                ErrorView,
            >(outside)
            &&& proper ==> preparation(root, hooks, identifier, PathView::Other) == Err::<
                PreparedView,
                ErrorView,
            >(
                ErrorView::Workspace("workspace path exists but is not a directory: "@ + path),
            )
            &&& proper && owner != identifier ==> preparation(root, hooks, identifier, other)
                == Err::<PreparedView, ErrorView>(kept)
            &&& proper && owner != identifier ==> removal(root, hooks, identifier, other) == Err::<
                Option<CleanupView>,
                ErrorView,
            >(kept)
        }),
{
}

} // verus!
