//! Which issue a command is about, and how an issue is shown.
use vstd::prelude::*;

use crate::error::ErrorView;
use crate::model::{BlockerView, IssueView};
use crate::path::last_name;
use crate::text::{joined, same_ignoring_case, signed_decimal, trimmed};
use crate::tracker::commands::{blocker_names, issue_lines};
use crate::tracker::context::{
    env_locators, issue_locators, no_locator_error, not_found_error, with_locator,
    workspace_locator,
};

verus! {

/// A locator is taken without the white space around it, behind those that are there. A
/// blank one, and one that is there in any case, is not.
pub proof fn new_locator_goes_behind_the_others(
    locators: Seq<Seq<char>>,
    value: Seq<char>,
    i: int,
)
    ensures
        trimmed(value).len() == 0 ==> with_locator(locators, value) == locators,
        0 <= i < locators.len() && same_ignoring_case(locators[i], trimmed(value))
            ==> with_locator(locators, value) == locators,
        trimmed(value).len() > 0 && (forall|j: int|
            0 <= j < locators.len() ==> !same_ignoring_case(#[trigger] locators[j], trimmed(value)))
            ==> with_locator(locators, value) == locators.push(trimmed(value)),
{
}

/// What a command is told is what it is about, and nothing else. Else it is what the
/// environment tells, by id and then by identifier; and only where that tells nothing, the
/// workspace.
pub proof fn told_issue_comes_before_the_surroundings(
    explicit: Option<String>,
    id: Option<String>,
    identifier: Option<String>,
    workspace: Option<String>,
)
    ensures
        ({
            let none = Seq::<Seq<char>>::empty();
            let r = issue_locators(explicit, id, identifier, workspace);
            let surroundings = env_locators(id, identifier);
            &&& explicit is Some ==> r == with_locator(none, explicit->Some_0@)
            &&& explicit is None && surroundings.len() > 0 ==> r == surroundings
            &&& explicit is None && surroundings.len() == 0 && workspace is Some ==> r
                == with_locator(none, workspace->Some_0@)
            &&& explicit is None && surroundings.len() == 0 && workspace is None ==> r.len() == 0
            &&& id is None && identifier is None ==> surroundings.len() == 0
            &&& id is Some && identifier is None ==> surroundings == with_locator(
                none,
                id->Some_0@,
            )
            &&& id is None && identifier is Some ==> surroundings == with_locator(
                none,
                identifier->Some_0@,
            )
            &&& id is Some && identifier is Some ==> surroundings == with_locator(
                with_locator(none, id->Some_0@),
                identifier->Some_0@,
            )
        }),
{
}

/// A workspace is known by the name of the root of its repository, and where it is in none,
/// by its own.
pub proof fn workspace_is_known_by_its_root(cwd: Seq<char>, root: Seq<char>)
    ensures
        workspace_locator(cwd, None) == last_name(cwd),
        trimmed(root).len() == 0 ==> workspace_locator(cwd, Some(root)) is None,
        trimmed(root).len() > 0 ==> workspace_locator(cwd, Some(root)) == last_name(trimmed(root)),
{
}

/// A command that finds no issue says how to name one, and which ones it looked for.
pub proof fn lost_command_asks_for_the_issue(locators: Seq<Seq<char>>)
    ensures
        no_locator_error() == ErrorView::Tracker(
            "could not determine current issue; pass --issue explicitly"@,
        ),
        not_found_error(locators) == ErrorView::Tracker(
            "could not resolve issue from current context ("@ + joined(locators, ", "@)
                + "); pass --issue explicitly"@,
        ),
{
}

/// The lines that are shown of an issue whatever it holds.
pub open spec fn head_lines(i: IssueView) -> Seq<Seq<char>> {
    seq!["Issue: "@ + i.identifier, "Title: "@ + i.title, "State: "@ + i.state]
}

/// An issue that holds no more shows its identifier, its title and its state.
pub proof fn bare_issue_shows_its_head(i: IssueView)
    requires
        i.priority is None,
        i.url is None,
        i.branch_name is None,
        i.labels.len() == 0,
        i.blocked_by.len() == 0,
        i.description is None,
    ensures
        issue_lines(i) == head_lines(i),
{
    assert(issue_lines(i) =~= head_lines(i));
}

/// Everything that an issue holds is shown on a line of its own: the head first, then the
/// priority, the address, the branch, the labels and what it waits for, each where there is
/// one, and the description last, under its heading.
pub proof fn everything_an_issue_holds_is_shown(i: IssueView)
    ensures
        head_lines(i).is_prefix_of(issue_lines(i)),
        ({
            let priority = IssueView { priority: None, ..i };
            i.priority is Some ==> issue_lines(i) == issue_lines(priority).insert(
                3,
                "Priority: "@ + signed_decimal(i.priority->Some_0 as int),
            )
        }),
        i.url is Some ==> issue_lines(i).contains("URL: "@ + i.url->Some_0),
        i.branch_name is Some ==> issue_lines(i).contains("Branch: "@ + i.branch_name->Some_0),
        i.labels.len() > 0 ==> issue_lines(i).contains("Labels: "@ + joined(i.labels, ", "@)),
        i.blocked_by.len() > 0 ==> issue_lines(i).contains(
            "Blocked by: "@ + joined(blocker_names(i.blocked_by), ", "@),
        ),
        ({
            let bare = issue_lines(IssueView { description: None, ..i });
            i.description is Some ==> issue_lines(i) == bare + seq![
                Seq::<char>::empty(),
                "Description:"@,
                i.description->Some_0,
            ]
        }),
        issue_lines(i).len() == 3 + (if i.priority is Some {
            1int
        } else {
            0
        }) + (if i.url is Some {
            1int
        } else {
            0
        }) + (if i.branch_name is Some {
            1int
        } else {
            0
        }) + (if i.labels.len() > 0 {
            1int
        } else {
            0
        }) + (if i.blocked_by.len() > 0 {
            1int
        } else {
            0
        }) + (if i.description is Some {
            3int
        } else {
            0
        }),
{
    let all = issue_lines(i);
    assert(all.subrange(0, 3) =~= head_lines(i));
    let p: int = if i.priority is Some {
        4
    } else {
        3
    };
    let u: int = if i.url is Some {
        p + 1
    } else {
        p
    };
    let b: int = if i.branch_name is Some {
        u + 1
    } else {
        u
    };
    let l: int = if i.labels.len() > 0 {
        b + 1
    } else {
        b
    };
    if i.priority is Some {
        let without = issue_lines(IssueView { priority: None, ..i });
        assert(all =~= without.insert(3, "Priority: "@ + signed_decimal(i.priority->Some_0 as int)));
    }
    if i.url is Some {
        assert(all[p] == "URL: "@ + i.url->Some_0);
    }
    if i.branch_name is Some {
        assert(all[u] == "Branch: "@ + i.branch_name->Some_0);
    }
    if i.labels.len() > 0 {
        assert(all[b] == "Labels: "@ + joined(i.labels, ", "@));
    }
    if i.blocked_by.len() > 0 {
        assert(all[l] == "Blocked by: "@ + joined(blocker_names(i.blocked_by), ", "@));
    }
    if i.description is Some {
        let bare = issue_lines(IssueView { description: None, ..i });
        assert(all =~= bare + seq![
            Seq::<char>::empty(),
            "Description:"@,
            i.description->Some_0,
        ]);
    }
}

/// What an issue waits for is shown by its identifier, or else its id, in its order.
pub proof fn blockers_are_shown_by_name(blockers: Seq<BlockerView>, i: int)
    requires
        0 <= i < blockers.len(),
    ensures
        blocker_names(blockers).len() == blockers.len(),
        blockers[i].identifier is Some ==> blocker_names(blockers)[i]
            == blockers[i].identifier->Some_0,
        blockers[i].identifier is None && blockers[i].id is Some ==> blocker_names(blockers)[i]
            == blockers[i].id->Some_0,
        blockers[i].identifier is None && blockers[i].id is None ==> blocker_names(blockers)[i]
            == "unknown"@,
{
}

} // verus!
