//! What reading the items of a project is for.
use vstd::prelude::*;

use crate::text::{
    all_digits, behind_last_of, decimal, decimal_reads_back, digit, digits_value, lowercase,
    places_of, same_ignoring_case, trimmed, unsigned_digits,
};
use crate::time::instant_of;
use crate::tracker::github_item::{
    first_digits, issue_reference, item_issue, item_suffix, leading_digits, located_by,
    named_priority, ProjectFieldValue, ProjectItemContent, ProjectItemNode,
};
use crate::model::IssueView;
use crate::workspace::workspace_key;

verus! {

/// An item that holds an issue of a repository is read as that issue: under the id of
/// the item, identified by the repository and the number, with the issue's own title,
/// text, address and labels. The text is there just where the issue has one. It counts
/// as made and changed when the issue says, or when the item says where the issue's word
/// names no instant. Nothing blocks it, and it belongs to no other project.
pub proof fn repository_issue_is_read_as_it_is(
    item: ProjectItemNode,
    source_data: Option<Seq<char>>,
    url: Seq<char>,
    owner: Seq<char>,
    project: nat,
)
    requires
        item.content matches Some(ProjectItemContent::Issue(_)),
    ensures
        ({
            let issue = item.content->Some_0->Issue_0;
            item_issue(item, source_data, url, owner, project) matches Some(r) && {
                &&& r.id == item.id@
                &&& issue.number >= 0 ==> r.identifier == issue.repository.name_with_owner@ + "#"@
                    + decimal(issue.number as nat)
                &&& r.title == issue.title@
                &&& issue.body is Some ==> r.description == Some(issue.body->Some_0@)
                &&& issue.body is None ==> r.description is None
                &&& r.url == Some(issue.url@)
                &&& r.labels.len() == issue.labels.nodes@.len()
                &&& forall|i: int|
                    0 <= i < r.labels.len() ==> #[trigger] r.labels[i] == lowercase(
                        issue.labels.nodes@[i].name@,
                    )
                &&& instant_of(issue.created_at@) is Some ==> r.created_at == instant_of(
                    issue.created_at@,
                )
                &&& instant_of(issue.created_at@) is None ==> r.created_at == instant_of(
                    item.created_at@,
                )
                &&& instant_of(issue.updated_at@) is Some ==> r.updated_at == instant_of(
                    issue.updated_at@,
                )
                &&& instant_of(issue.updated_at@) is None ==> r.updated_at == instant_of(
                    item.updated_at@,
                )
                &&& r.blocked_by.len() == 0
                &&& r.branch_name is None
                &&& r.project is None
                &&& r.source_data == source_data
            }
        }),
{
}

/// An item that holds a draft is read as that draft: identified by the project and the
/// end of the item's id, with the draft's own title and text, and at the project's
/// address.
pub proof fn draft_is_read_as_it_is(
    item: ProjectItemNode,
    source_data: Option<Seq<char>>,
    url: Seq<char>,
    owner: Seq<char>,
    project: nat,
)
    requires
        item.content matches Some(ProjectItemContent::DraftIssue(_)),
    ensures
        ({
            let draft = item.content->Some_0->DraftIssue_0;
            item_issue(item, source_data, url, owner, project) matches Some(r) && {
                &&& r.id == item.id@
                &&& r.identifier == owner + "/projects/"@ + decimal(project) + "#draft-"@
                    + item_suffix(item.id@)
                &&& r.title == draft.title@
                &&& draft.body is Some ==> r.description == Some(draft.body->Some_0@)
                &&& draft.body is None ==> r.description is None
                &&& r.url == Some(url)
                &&& r.labels.len() == 0
                &&& instant_of(draft.created_at@) is Some ==> r.created_at == instant_of(
                    draft.created_at@,
                )
                &&& instant_of(draft.created_at@) is None ==> r.created_at == instant_of(
                    item.created_at@,
                )
                &&& instant_of(draft.updated_at@) is Some ==> r.updated_at == instant_of(
                    draft.updated_at@,
                )
                &&& instant_of(draft.updated_at@) is None ==> r.updated_at == instant_of(
                    item.updated_at@,
                )
                &&& r.blocked_by.len() == 0
                &&& r.branch_name is None
                &&& r.project is None
                &&& r.source_data == source_data
            }
        }),
{
}

/// Only issues and drafts are read as issues: a pull request, what is not known and an
/// empty item are none.
pub proof fn other_items_are_no_issues(
    item: ProjectItemNode,
    source_data: Option<Seq<char>>,
    url: Seq<char>,
    owner: Seq<char>,
    project: nat,
)
    ensures
        item_issue(item, source_data, url, owner, project) is Some <==> (item.content matches Some(
            ProjectItemContent::Issue(_),
        ) || item.content matches Some(ProjectItemContent::DraftIssue(_))),
{
}

/// What a field of an item says, as text: the name that was chosen, the text that was
/// written, or the number as it is written.
pub open spec fn said(value: ProjectFieldValue) -> Option<Seq<char>> {
    match value {
        ProjectFieldValue::ProjectV2ItemFieldSingleSelectValue { name: Some(name) } => Some(name@),
        ProjectFieldValue::ProjectV2ItemFieldTextValue { text: Some(text) } => Some(text@),
        ProjectFieldValue::ProjectV2ItemFieldNumberValue { number: Some(n) } => Some(n.text@),
        _ => None,
    }
}

/// The state of an issue is what its status says. Where the status says nothing, an
/// issue of a repository that is closed, by its mark or by its state in any case, is
/// done, and anything else is still to do.
pub proof fn status_is_the_state(
    item: ProjectItemNode,
    source_data: Option<Seq<char>>,
    url: Seq<char>,
    owner: Seq<char>,
    project: nat,
)
    requires
        item_issue(item, source_data, url, owner, project) is Some,
    ensures
        ({
            let r = item_issue(item, source_data, url, owner, project)->Some_0;
            let status = if item.status is Some {
                said(item.status->Some_0)
            } else {
                None
            };
            let closed = item.content matches Some(ProjectItemContent::Issue(issue)) && (issue.closed
                || same_ignoring_case(issue.state@, "closed"@));
            &&& status is Some ==> r.state == status->Some_0
            &&& status is None && closed ==> r.state == "Done"@
            &&& status is None && !closed ==> r.state == "Todo"@
        }),
{
}

/// The priority of an issue is that of its priority field: a number is rounded, and a
/// name or a text says it, without regard to case and to white space around it. An item
/// without such a field has none.
pub proof fn priority_is_that_of_the_field(
    item: ProjectItemNode,
    source_data: Option<Seq<char>>,
    url: Seq<char>,
    owner: Seq<char>,
    project: nat,
)
    requires
        item_issue(item, source_data, url, owner, project) is Some,
    ensures
        ({
            let r = item_issue(item, source_data, url, owner, project)->Some_0;
            &&& item.priority is None ==> r.priority is None
            &&& item.priority matches Some(
                ProjectFieldValue::ProjectV2ItemFieldNumberValue { number: Some(n) },
            ) ==> r.priority == Some(n.rounded)
            &&& item.priority matches Some(
                ProjectFieldValue::ProjectV2ItemFieldSingleSelectValue { name: Some(name) },
            ) ==> r.priority == named_priority(lowercase(trimmed(name@)))
            &&& item.priority matches Some(
                ProjectFieldValue::ProjectV2ItemFieldTextValue { text: Some(text) },
            ) ==> r.priority == named_priority(lowercase(trimmed(text@)))
            &&& item.priority is Some && said(item.priority->Some_0) is None ==> r.priority is None
        }),
{
}

proof fn leading_of(d: Seq<char>, b: Seq<char>)
    requires
        forall|i: int| 0 <= i < d.len() ==> digit(#[trigger] d[i]),
        b.len() == 0 || !digit(b[0]),
    ensures
        leading_digits(d + b) == d,
    decreases d.len(),
{
    if d.len() == 0 {
        assert(d + b =~= b);
        assert(leading_digits(b) =~= d);
    } else {
        assert((d + b).drop_first() =~= d.drop_first() + b);
        assert forall|i: int| 0 <= i < d.drop_first().len() implies digit(
            #[trigger] d.drop_first()[i],
        ) by {
            assert(d.drop_first()[i] == d[i + 1]);
        }
        leading_of(d.drop_first(), b);
        assert(digit(d[0]));
        assert(seq![d[0]] + d.drop_first() =~= d);
    }
}

proof fn first_of_digits(a: Seq<char>, d: Seq<char>, b: Seq<char>)
    requires
        forall|i: int| 0 <= i < a.len() ==> !digit(#[trigger] a[i]),
        d.len() > 0,
        forall|i: int| 0 <= i < d.len() ==> digit(#[trigger] d[i]),
        b.len() == 0 || !digit(b[0]),
    ensures
        first_digits(a + d + b) == d,
    decreases a.len(),
{
    if a.len() == 0 {
        assert(a + d + b =~= d + b);
        assert(digit(d[0]));
        leading_of(d, b);
    } else {
        assert(!digit(a[0]));
        assert((a + d + b).drop_first() =~= a.drop_first() + d + b);
        assert forall|i: int| 0 <= i < a.drop_first().len() implies !digit(
            #[trigger] a.drop_first()[i],
        ) by {
            assert(a.drop_first()[i] == a[i + 1]);
        }
        first_of_digits(a.drop_first(), d, b);
    }
}

/// The first number in a text is its priority, whatever stands around it; a number that
/// is too large is none.
pub proof fn first_number_is_the_priority(a: Seq<char>, n: nat, b: Seq<char>)
    requires
        forall|i: int| 0 <= i < a.len() ==> !digit(#[trigger] a[i]),
        b.len() == 0 || !digit(b[0]),
    ensures
        n <= i64::MAX ==> named_priority(a + decimal(n) + b) == Some(n as i64),
        n > i64::MAX ==> named_priority(a + decimal(n) + b) is None,
{
    decimal_reads_back(n);
    first_of_digits(a, decimal(n), b);
}

proof fn no_digits_anywhere(s: Seq<char>)
    requires
        forall|i: int| 0 <= i < s.len() ==> !digit(#[trigger] s[i]),
    ensures
        first_digits(s).len() == 0,
    decreases s.len(),
{
    if s.len() > 0 {
        assert(!digit(s[0]));
        assert forall|i: int| 0 <= i < s.drop_first().len() implies !digit(
            #[trigger] s.drop_first()[i],
        ) by {
            assert(s.drop_first()[i] == s[i + 1]);
        }
        no_digits_anywhere(s.drop_first());
    }
}

/// A text without a number is a priority where it is one of five words: critical and
/// urgent come first, then high, then medium, then low. Any other is none.
pub proof fn words_are_priorities(s: Seq<char>)
    requires
        forall|i: int| 0 <= i < s.len() ==> !digit(#[trigger] s[i]),
    ensures
        s == "critical"@ ==> named_priority(s) == Some(1i64),
        s == "urgent"@ ==> named_priority(s) == Some(1i64),
        s == "high"@ ==> named_priority(s) == Some(2i64),
        s == "medium"@ ==> named_priority(s) == Some(3i64),
        s == "low"@ ==> named_priority(s) == Some(4i64),
        s != "critical"@ && s != "urgent"@ && s != "high"@ && s != "medium"@ && s != "low"@
            ==> named_priority(s) is None,
{
    no_digits_anywhere(s);
    reveal_strlit("critical");
    reveal_strlit("urgent");
    reveal_strlit("high");
    reveal_strlit("medium");
    reveal_strlit("low");
    assert("critical"@.len() == 8 && "urgent"@.len() == 6 && "high"@.len() == 4 && "medium"@.len()
        == 6 && "low"@.len() == 3);
    assert("urgent"@[0] == 'u' && "medium"@[0] == 'm');
}

/// An issue is found by a locator just where the locator is its id, or its identifier or
/// the name of its workspace in any case.
pub proof fn locators_find_the_issue_they_name(issue: IssueView, locator: Seq<char>)
    ensures
        located_by(issue, locator) <==> {
            ||| locator == issue.id
            ||| same_ignoring_case(locator, issue.identifier)
            ||| same_ignoring_case(locator, workspace_key(issue.identifier))
        },
{
}

/// The end of an item's id is what stands behind its last underscore, or all of it where
/// nothing does.
pub proof fn end_of_an_id_is_behind_its_last_underscore(head: Seq<char>, tail: Seq<char>)
    requires
        !tail.contains('_'),
    ensures
        tail.len() > 0 ==> item_suffix(head + seq!['_'] + tail) == tail,
        tail.len() > 0 ==> item_suffix(tail) == tail,
        item_suffix(head + seq!['_']) == head + seq!['_'],
{
    let s = head + seq!['_'] + tail;
    let k: int = head.len() as int + 1;
    places_of(s, '_');
    places_of(tail, '_');
    places_of(head + seq!['_'], '_');
    if behind_last_of(tail, '_') > 0 {
        assert(tail.contains(tail[behind_last_of(tail, '_') - 1]));
    }
    assert(tail.skip(0) =~= tail);
    assert(s[k - 1] == '_');
    if behind_last_of(s, '_') > k {
        assert(tail.contains(tail[behind_last_of(s, '_') - 1 - k]));
    }
    assert(s.skip(k) =~= tail);
    assert((head + seq!['_'])[head.len() as int] == '_');
}

/// What refers to an issue of a repository is the repository, which holds a slash, a
/// hash sign, and behind it a number and nothing else.
pub proof fn references_name_a_repository_and_a_number(identifier: Seq<char>)
    ensures
        issue_reference(identifier) matches Some((repo, n)) ==> {
            &&& repo.contains('/')
            &&& n <= u64::MAX
            &&& repo.len() < identifier.len()
            &&& identifier.take(repo.len() as int) == repo
            &&& identifier[repo.len() as int] == '#'
            &&& {
                let tail = identifier.skip(repo.len() as int + 1);
                &&& !tail.contains('#')
                &&& all_digits(unsigned_digits(tail))
                &&& digits_value(unsigned_digits(tail)) == n
            }
        },
{
    places_of(identifier, '#');
    if issue_reference(identifier) is Some {
        let (repo, n) = issue_reference(identifier)->Some_0;
        let k = behind_last_of(identifier, '#');
        let tail = identifier.skip(k);
        assert(repo.len() == k - 1);
        if tail.contains('#') {
            let i = tail.index_of('#');
            assert(identifier[k + i] == '#');
        }
    }
}

} // verus!
