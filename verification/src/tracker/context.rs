//! Which issue a command is about.
use vstd::prelude::*;

use crate::error::{ErrorView, LunaError};
use crate::model::Issue;
use crate::path::{file_name, last_name};
use crate::text::{
    cat3, eq_ignore_case, from_utf8_lossy, join, joined, lossy, opt_text, same_ignoring_case, texts,
    trim, trimmed,
};

verus! {

/// Where a command looks for its issue.
#[derive(Debug, Clone)]
pub struct TrackerTargetOptions {
    pub workflow_path: String,
    pub issue_locator: Option<String>,
    pub cwd: String,
}

/// Whether some locator is the same, in any case.
pub open spec fn has_locator(locators: Seq<Seq<char>>, value: Seq<char>) -> bool {
    exists|i: int| 0 <= i < locators.len() && same_ignoring_case(#[trigger] locators[i], value)
}

/// The locators with one more, without white space around it, unless nothing is left
/// of it or it is there already, in any case.
pub open spec fn with_locator(locators: Seq<Seq<char>>, value: Seq<char>) -> Seq<Seq<char>> {
    let bare = trimmed(value);
    if bare.len() == 0 || has_locator(locators, bare) {
        locators
    } else {
        locators.push(bare)
    }
}

/// The same for a locator that may be missing.
pub open spec fn with_opt_locator(locators: Seq<Seq<char>>, value: Option<String>) -> Seq<Seq<char>> {
    match value {
        Some(value) => with_locator(locators, value@),
        None => locators,
    }
}

/// Adds a locator.
pub fn push_locator(locators: &mut Vec<String>, value: &str)
    ensures
        texts(final(locators)@) == with_locator(texts(old(locators)@), value@),
{
    let ghost before = texts(locators@);
    let bare = trim(value);
    if bare.as_str().is_empty() {
        return;
    }
    let mut i: usize = 0;
    while i < locators.len()
        invariant
            i <= locators@.len(),
            before == texts(locators@),
            locators@ == old(locators)@,
            bare@ == trimmed(value@),
            bare@.len() > 0,
            before == texts(old(locators)@),
            forall|k: int| 0 <= k < i ==> !same_ignoring_case(#[trigger] before[k], bare@),
        decreases locators@.len() - i,
    {
        if eq_ignore_case(locators[i].as_str(), bare.as_str()) {
            assert(same_ignoring_case(before[i as int], bare@));
            return;
        }
        i = i + 1;
    }
    let ghost text = bare@;
    locators.push(bare);
    assert(texts(locators@) =~= before.push(text));
}

fn push_opt_locator(locators: &mut Vec<String>, value: &Option<String>)
    ensures
        texts(final(locators)@) == with_opt_locator(texts(old(locators)@), *value),
{
    match value {
        Some(value) => push_locator(locators, value.as_str()),
        None => {},
    }
}

/// No locator is blank, and no two are the same, in any case.
pub open spec fn distinct(locators: Seq<Seq<char>>) -> bool {
    &&& forall|i: int| 0 <= i < locators.len() ==> (#[trigger] locators[i]).len() > 0
    &&& forall|i: int, j: int|
        0 <= i < j < locators.len() ==> !same_ignoring_case(
            #[trigger] locators[i],
            #[trigger] locators[j],
        )
}

/// Adding locators keeps them distinct.
pub proof fn locators_stay_distinct(locators: Seq<Seq<char>>, value: Seq<char>)
    requires
        distinct(locators),
    ensures
        distinct(with_locator(locators, value)),
        locators.is_prefix_of(with_locator(locators, value)),
        trimmed(value).len() > 0 ==> has_locator(with_locator(locators, value), trimmed(value)),
{
    let bare = trimmed(value);
    let after = with_locator(locators, value);
    if bare.len() > 0 && !has_locator(locators, bare) {
        assert forall|i: int, j: int| 0 <= i < j < after.len() implies !same_ignoring_case(
            #[trigger] after[i],
            #[trigger] after[j],
        ) by {
            if j == locators.len() {
                assert(after[i] == locators[i]);
                crate::text::ignoring_case_is_equivalence(locators[i], bare, bare);
            } else {
                assert(after[i] == locators[i] && after[j] == locators[j]);
            }
        }
        assert(same_ignoring_case(after[locators.len() as int], bare));
    }
    assert(after.subrange(0, locators.len() as int) =~= locators);
}

/// The locators that the environment gives: first the id, then the identifier.
pub open spec fn env_locators(id: Option<String>, identifier: Option<String>) -> Seq<Seq<char>> {
    with_opt_locator(with_opt_locator(Seq::empty(), id), identifier)
}

/// The locators of an issue: an explicit one alone; else those of the environment;
/// else that of the workspace.
pub open spec fn issue_locators(
    explicit: Option<String>,
    id: Option<String>,
    identifier: Option<String>,
    workspace: Option<String>,
) -> Seq<Seq<char>> {
    if explicit is Some {
        with_opt_locator(Seq::empty(), explicit)
    } else if env_locators(id, identifier).len() > 0 {
        env_locators(id, identifier)
    } else {
        with_opt_locator(Seq::empty(), workspace)
    }
}

/// Whether the workspace has to be looked at for a locator.
pub fn needs_workspace_locator(
    options: &TrackerTargetOptions,
    env_id: &Option<String>,
    env_identifier: &Option<String>,
) -> (r: bool)
    ensures
        r == (options.issue_locator is None && env_locators(*env_id, *env_identifier).len() == 0),
{
    if options.issue_locator.is_some() {
        return false;
    }
    let mut locators: Vec<String> = Vec::new();
    assert(texts(locators@) =~= Seq::<Seq<char>>::empty());
    push_opt_locator(&mut locators, env_id);
    push_opt_locator(&mut locators, env_identifier);
    assert(texts(locators@).len() == locators@.len());
    locators.len() == 0
}

/// The locators of an issue.
pub fn collect_issue_locators(
    options: &TrackerTargetOptions,
    env_id: &Option<String>,
    env_identifier: &Option<String>,
    workspace: &Option<String>,
) -> (r: Vec<String>)
    ensures
        texts(r@) == issue_locators(
            options.issue_locator,
            *env_id,
            *env_identifier,
            *workspace,
        ),
{
    let mut locators: Vec<String> = Vec::new();
    assert(texts(locators@) =~= Seq::<Seq<char>>::empty());
    if options.issue_locator.is_some() {
        push_opt_locator(&mut locators, &options.issue_locator);
        return locators;
    }
    push_opt_locator(&mut locators, env_id);
    push_opt_locator(&mut locators, env_identifier);
    assert(texts(locators@).len() == locators@.len());
    if locators.len() > 0 {
        return locators;
    }
    assert(texts(locators@) =~= Seq::<Seq<char>>::empty());
    push_opt_locator(&mut locators, workspace);
    locators
}

/// The locators of an issue are distinct.
pub proof fn issue_locators_are_distinct(
    explicit: Option<String>,
    id: Option<String>,
    identifier: Option<String>,
    workspace: Option<String>,
)
    ensures
        distinct(issue_locators(explicit, id, identifier, workspace)),
{
    let none = Seq::<Seq<char>>::empty();
    if explicit is Some {
        locators_stay_distinct(none, explicit->Some_0@);
    }
    if workspace is Some {
        locators_stay_distinct(none, workspace->Some_0@);
    }
    if id is Some {
        locators_stay_distinct(none, id->Some_0@);
    }
    if identifier is Some {
        locators_stay_distinct(with_opt_locator(none, id), identifier->Some_0@);
    }
}

/// The locator that a workspace gives: the name of the root of its repository, or of
/// the directory where it has none.
pub open spec fn workspace_locator(cwd: Seq<char>, root: Option<Seq<char>>) -> Option<Seq<char>> {
    match root {
        None => last_name(cwd),
        Some(text) => if trimmed(text).len() == 0 {
            None
        } else {
            last_name(trimmed(text))
        },
    }
}

/// The locator that a workspace gives, where `root` is what `git` said of the root of
/// the repository, if it knew one.
pub fn workspace_name(cwd: &str, root: Option<&str>) -> (r: Option<String>)
    ensures
        opt_text(r) == workspace_locator(
            cwd@,
            match root {
                Some(text) => Some(text@),
                None => None,
            },
        ),
{
    match root {
        None => file_name(cwd),
        Some(text) => {
            let bare = trim(text);
            if bare.as_str().is_empty() {
                None
            } else {
                file_name(bare.as_str())
            }
        },
    }
}

/// The locator that a workspace gives, given how `git` ended and what it wrote.
pub fn detect_workspace_locator(cwd: &str, success: bool, stdout: &[u8]) -> (r: Option<String>)
    ensures
        opt_text(r) == workspace_locator(
            cwd@,
            if success {
                Some(lossy(stdout@))
            } else {
                None
            },
        ),
{
    if !success {
        return workspace_name(cwd, None);
    }
    let root = from_utf8_lossy(stdout);
    workspace_name(cwd, Some(root.as_str()))
}

// ---------------------------------------------------------------------------
// Finding the issue
// ---------------------------------------------------------------------------

/// What comes next in the search for an issue.
#[derive(Debug)]
pub enum Search {
    /// Look for the issue with this locator.
    Try(String),
    /// This is the issue.
    Found(Issue),
    /// There is none.
    Failed(LunaError),
}

/// The search for an issue by its locators, one after the other.
#[derive(Debug)]
pub struct IssueSearch {
    pub locators: Vec<String>,
    pub next: usize,
}

/// The error for an issue without locators.
pub open spec fn no_locator_error() -> ErrorView {
    ErrorView::Tracker("could not determine current issue; pass --issue explicitly"@)
}

/// The error for an issue that no locator finds.
pub open spec fn not_found_error(locators: Seq<Seq<char>>) -> ErrorView {
    ErrorView::Tracker(
        "could not resolve issue from current context ("@ + joined(locators, ", "@)
            + "); pass --issue explicitly"@,
    )
}

impl IssueSearch {
    /// Fewer locators have been tried than there are.
    pub open spec fn wf(&self) -> bool {
        self.next < self.locators@.len()
    }

    /// Starts the search. Without locators it fails at once.
    pub fn begin(locators: Vec<String>) -> (r: Result<(IssueSearch, String), LunaError>)
        ensures
            match r {
                Ok((search, first)) => {
                    &&& locators@.len() > 0
                    &&& search.wf()
                    &&& search.locators@ == locators@
                    &&& search.next == 0
                    &&& first@ == locators@[0]@
                },
                Err(e) => locators@.len() == 0 && e@ == no_locator_error(),
            },
    {
        if locators.len() == 0 {
            return Err(
                LunaError::Tracker(
                    "could not determine current issue; pass --issue explicitly".to_owned(),
                ),
            );
        }
        let first = locators[0].clone();
        Ok((IssueSearch { locators, next: 0 }, first))
    }

    /// Goes on with what the last locator has found: the first issue that is found is
    /// the one, and after the last locator the search has failed.
    pub fn resolve_issue(&mut self, found: Option<Issue>) -> (r: Search)
        requires
            old(self).wf(),
        ensures
            final(self).locators@ == old(self).locators@,
            match found {
                Some(issue) => r == Search::Found(issue) && final(self).next == old(self).next,
                None => if old(self).next + 1 < old(self).locators@.len() {
                    &&& final(self).wf()
                    &&& final(self).next == old(self).next + 1
                    &&& r matches Search::Try(locator) && locator@ == old(
                        self,
                    ).locators@[old(self).next + 1]@
                } else {
                    r matches Search::Failed(e) && e@ == not_found_error(
                        texts(old(self).locators@),
                    )
                },
            },
    {
        if let Some(issue) = found {
            return Search::Found(issue);
        }
        let count = self.locators.len();
        if self.next + 1 < count {
            self.next = self.next + 1;
            return Search::Try(self.locators[self.next].clone());
        }
        let list = join(self.locators.as_slice(), ", ");
        Search::Failed(
            LunaError::Tracker(
                cat3(
                    "could not resolve issue from current context (",
                    list.as_str(),
                    "); pass --issue explicitly",
                ),
            ),
        )
    }
}

} // verus!
