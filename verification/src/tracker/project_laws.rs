//! What walking a project, moving its issues and reading comments are for.
use vstd::prelude::*;

use crate::error::ErrorView;
use crate::model::{CommentView, IssueView};
use crate::text::{decimal, lowercase, opt_text, same_ignoring_case};
use crate::time::{instant_of, Timestamp};
use crate::tracker::github_item::{item_issue, located_by};
use crate::tracker::github_project::{
    all_issues, comment_keys, comments_of, cursor_field, field_args, field_named, first_located,
    gh_failure, lowercased, option_named, page_issues, read_at_some_time, resolution, walk_begun,
    walked, ProjectFieldConfig, ProjectFieldOption, ProjectItemRow, ProjectPage, ProjectStatusNode,
    WalkView,
};

verus! {

/// A page without items has no issues; and an item behind the others adds the issue
/// that it is, or nothing where it is none.
pub proof fn every_item_of_a_page_is_read(
    items: Seq<ProjectItemRow>,
    row: ProjectItemRow,
    url: Seq<char>,
    owner: Seq<char>,
    project: nat,
)
    ensures
        page_issues(Seq::empty(), url, owner, project).len() == 0,
        ({
            let before = page_issues(items, url, owner, project);
            let after = page_issues(items.push(row), url, owner, project);
            let read = item_issue(row.node, opt_text(row.source_data), url, owner, project);
            &&& read is None ==> after == before
            &&& read is Some ==> after == before.push(read->Some_0)
        }),
{
    assert(items.push(row).drop_last() =~= items);
}

/// A page is added to what was collected, behind it. A page that is the last ends the
/// walk. Another goes on where it says the next one starts; one that says there is more
/// and not where is an error; and so is a project that is not there.
pub proof fn page_is_collected_and_says_whether_there_is_more(
    walk: WalkView,
    page: Option<ProjectPage>,
    owner: Seq<char>,
    project: nat,
)
    ensures
        page is None ==> walked(walk, page, owner, project) == (
            walk,
            Err::<bool, ErrorView>(
                ErrorView::Tracker(
                    "github_project_not_found: owner="@ + owner + ", project_number="@ + decimal(
                        project,
                    ),
                ),
            ),
        ),
        page matches Some(page) ==> {
            let (after, more) = walked(walk, Some(page), owner, project);
            &&& after.issues == walk.issues + page_issues(page.items@, page.url@, owner, project)
            &&& !page.has_next_page ==> more == Ok::<bool, ErrorView>(false)
            &&& page.has_next_page && page.end_cursor is Some ==> more == Ok::<bool, ErrorView>(true)
                && after.cursor == Some(page.end_cursor->Some_0@)
            &&& page.has_next_page && page.end_cursor is None ==> more == Err::<bool, ErrorView>(
                ErrorView::Tracker(
                    "github_project_missing_end_cursor: pagination reported hasNextPage=true without endCursor"@,
                ),
            )
        },
{
}

/// The request for the next page says where it starts, and the first one does not.
pub proof fn next_page_starts_where_the_last_ended(cursor: Seq<char>)
    ensures
        cursor_field(None).len() == 0,
        cursor_field(Some(cursor)).len() == 1,
        cursor_field(Some(cursor))[0] == ("cursor"@, cursor),
{
}

/// Every field of a request takes two arguments, in the order of the fields: the mark
/// for a field, and its name, an equals sign and its value.
pub proof fn every_field_is_sent(fields: Seq<(Seq<char>, Seq<char>)>, i: int)
    requires
        0 <= i < fields.len(),
    ensures
        field_args(fields).len() == 2 * fields.len(),
        field_args(fields)[2 * i] == "-F"@,
        field_args(fields)[2 * i + 1] == fields[i].0 + "="@ + fields[i].1,
    decreases fields.len(),
{
    let rest = fields.drop_last();
    if rest.len() > 0 {
        if i < rest.len() {
            every_field_is_sent(rest, i);
        } else {
            every_field_is_sent(rest, 0);
        }
    } else {
        assert(field_args(rest).len() == 0);
    }
}

/// The issue that is found is the first that the locator names.
pub proof fn first_issue_that_fits_is_found(issues: Seq<IssueView>, locator: Seq<char>, i: int)
    requires
        0 <= i < issues.len(),
        located_by(issues[i], locator),
        forall|j: int| 0 <= j < i ==> !located_by(#[trigger] issues[j], locator),
    ensures
        first_located(issues, locator) == Some(issues[i]),
    decreases i,
{
    if i > 0 {
        assert(!located_by(issues[0], locator));
        let rest = issues.drop_first();
        assert forall|j: int| 0 <= j < i - 1 implies !located_by(#[trigger] rest[j], locator) by {
            assert(rest[j] == issues[j + 1]);
        }
        assert(rest[i - 1] == issues[i]);
        first_issue_that_fits_is_found(rest, locator, i - 1);
    }
}

/// Whether a field is one to choose from, of this name in any case.
pub open spec fn is_choice(field: ProjectFieldConfig, name: Seq<char>) -> bool {
    field matches ProjectFieldConfig::ProjectV2SingleSelectField { id, name: own, options }
        && same_ignoring_case(own@, name)
}

/// The first field of a name is the one that counts, and none where no field has it.
pub proof fn first_field_of_the_name_counts(
    fields: Seq<ProjectFieldConfig>,
    name: Seq<char>,
    i: int,
)
    ensures
        0 <= i < fields.len() && is_choice(fields[i], name) && (forall|j: int|
            0 <= j < i ==> !is_choice(#[trigger] fields[j], name)) ==> field_named(fields, name)
            == Some(
            (
                fields[i]->ProjectV2SingleSelectField_id@,
                fields[i]->ProjectV2SingleSelectField_options@,
            ),
        ),
        (forall|j: int| 0 <= j < fields.len() ==> !is_choice(#[trigger] fields[j], name))
            ==> field_named(fields, name) is None,
    decreases fields.len(),
{
    if fields.len() > 0 {
        let rest = fields.drop_first();
        first_field_of_the_name_counts(rest, name, i - 1);
        if !is_choice(fields[0], name) {
            assert(field_named(fields, name) == field_named(rest, name));
        }
        if 0 < i < fields.len() && (forall|j: int| 0 <= j < i ==> !is_choice(#[trigger] fields[j], name)) {
            assert(!is_choice(fields[0], name));
            assert(rest[i - 1] == fields[i]);
            assert forall|j: int| 0 <= j < i - 1 implies !is_choice(#[trigger] rest[j], name) by {
                assert(rest[j] == fields[j + 1]);
            }
        }
        if forall|j: int| 0 <= j < fields.len() ==> !is_choice(#[trigger] fields[j], name) {
            assert(!is_choice(fields[0], name));
            assert forall|j: int| 0 <= j < rest.len() implies !is_choice(#[trigger] rest[j], name) by {
                assert(rest[j] == fields[j + 1]);
            }
        }
    }
}

/// The first value of a name, in any case, is the one that counts, and none where no
/// value has it.
pub proof fn first_value_of_the_name_counts(
    options: Seq<ProjectFieldOption>,
    name: Seq<char>,
    i: int,
)
    ensures
        0 <= i < options.len() && same_ignoring_case(options[i].name@, name) && (forall|j: int|
            0 <= j < i ==> !same_ignoring_case((#[trigger] options[j]).name@, name))
            ==> option_named(options, name) == Some(options[i].id@),
        (forall|j: int|
            0 <= j < options.len() ==> !same_ignoring_case((#[trigger] options[j]).name@, name))
            ==> option_named(options, name) is None,
    decreases options.len(),
{
    if options.len() > 0 {
        let rest = options.drop_first();
        first_value_of_the_name_counts(rest, name, i - 1);
        if 0 < i < options.len() && (forall|j: int|
            0 <= j < i ==> !same_ignoring_case((#[trigger] options[j]).name@, name)) {
            assert(!same_ignoring_case(options[0].name@, name));
            assert(rest[i - 1] == options[i]);
            assert forall|j: int| 0 <= j < i - 1 implies !same_ignoring_case(
                (#[trigger] rest[j]).name@,
                name,
            ) by {
                assert(rest[j] == options[j + 1]);
            }
        }
        if forall|j: int|
            0 <= j < options.len() ==> !same_ignoring_case((#[trigger] options[j]).name@, name) {
            assert(!same_ignoring_case(options[0].name@, name));
            assert forall|j: int| 0 <= j < rest.len() implies !same_ignoring_case(
                (#[trigger] rest[j]).name@,
                name,
            ) by {
                assert(rest[j] == options[j + 1]);
            }
        }
    }
}

/// An issue is moved in its project, in the field that holds the status, to the value
/// that has the state's name. Each of them that is missing is told by its name.
pub proof fn state_is_set_in_the_status_field(
    project: Option<ProjectStatusNode>,
    owner: Seq<char>,
    number: nat,
    status_field: Seq<char>,
    state: Seq<char>,
)
    ensures
        ({
            let r = resolution(project, owner, number, status_field, state);
            let field = field_named(project->Some_0.fields@, status_field);
            let value = option_named(field->Some_0.1, state);
            &&& project is None ==> r is Err && r->Err_0 == ErrorView::Tracker(
                "github_project_not_found: owner="@ + owner + ", project_number="@ + decimal(number),
            )
            &&& project is Some && field is None ==> r is Err && r->Err_0 == ErrorView::Tracker(
                "github_project_status_field_not_found: "@ + status_field,
            )
            &&& project is Some && field is Some && value is None ==> r is Err && r->Err_0
                == ErrorView::Tracker("github_project_state_option_not_found: "@ + state)
            &&& project is Some && field is Some && value is Some ==> r is Ok
                && r->Ok_0.project_id == project->Some_0.id@ && r->Ok_0.field_id
                == field->Some_0.0 && r->Ok_0.option_id == value->Some_0
        }),
{
}

/// A comment bears the id that is good everywhere, or else the plain one, or else none;
/// its text, or none; and the time at which it was made, where it names one, else the
/// time at which it was read. It belongs to the issue that was asked about.
pub proof fn comments_are_read_as_they_are(
    rows: Seq<Seq<Option<Option<Seq<char>>>>>,
    issue_id: Seq<char>,
    now: Timestamp,
    i: int,
)
    requires
        0 <= i < rows.len(),
        rows[i].len() == 4,
    ensures
        ({
            let row = rows[i];
            let c = comments_of(rows, issue_id, now)[i];
            &&& comments_of(rows, issue_id, now).len() == rows.len()
            &&& c.issue_id == issue_id
            &&& (row[0] matches Some(Some(id)) ==> c.id == id)
            &&& row[0] == Some(None::<Seq<char>>) ==> c.id.len() == 0
            &&& row[0] is None && (row[1] matches Some(Some(_))) ==> c.id == row[1]->Some_0->Some_0
            &&& row[0] is None && !(row[1] matches Some(Some(_))) ==> c.id.len() == 0
            &&& (row[2] matches Some(Some(body)) ==> c.body == body)
            &&& !(row[2] matches Some(Some(_))) ==> c.body.len() == 0
            &&& (row[3] matches Some(Some(text)) ==> c.created_at == match instant_of(text) {
                Some(t) => t,
                None => now,
            })
            &&& !(row[3] matches Some(Some(_))) ==> c.created_at == now
        }),
{
}

/// A command that failed is told with its status and with what it complained of, in full
/// where that is no longer than 400 bytes.
pub proof fn failed_commands_are_told(command: Seq<char>, status: Seq<char>, stderr: Seq<char>)
    ensures
        vstd::utf8::encode_utf8(stderr).len() <= 400 ==> gh_failure(command, status, stderr)
            == ErrorView::Tracker(
            command + " failed: status="@ + status + ", stderr="@ + stderr,
        ),
        vstd::utf8::encode_utf8(stderr).len() > 400 ==> gh_failure(command, status, stderr)
            == ErrorView::Tracker(
            command + " failed: status="@ + status + ", stderr="@ + (vstd::utf8::decode_utf8(
                vstd::utf8::encode_utf8(stderr).take(400),
            ) + "..."@),
        ),
{
}

/// A walk begins with nothing collected and asks for the first page. The issues of all pages
/// are those of the first ones and then those of the last.
pub proof fn walk_begins_with_nothing(
    pages: Seq<ProjectPage>,
    page: ProjectPage,
    owner: Seq<char>,
    project: nat,
)
    ensures
        walk_begun().issues.len() == 0,
        walk_begun().cursor is None,
        all_issues(Seq::empty(), owner, project).len() == 0,
        all_issues(pages.push(page), owner, project) == all_issues(pages, owner, project)
            + page_issues(page.items@, page.url@, owner, project),
{
    assert(pages.push(page).drop_last() =~= pages);
}

/// Every state that is asked for is looked for in lower case, in its place.
pub proof fn states_are_looked_for_in_lower_case(states: Seq<Seq<char>>, i: int)
    requires
        0 <= i < states.len(),
    ensures
        lowercased(states).len() == states.len(),
        lowercased(states)[i] == lowercase(states[i]),
{
}

/// A comment's id, text and time are read under their names, and comments that are read at
/// some time are all there, in their order.
pub proof fn comments_are_read_under_their_names(
    comments: Seq<CommentView>,
    rows: Seq<Seq<Option<Option<Seq<char>>>>>,
    issue_id: Seq<char>,
)
    ensures
        comment_keys() == seq!["node_id"@, "id"@, "body"@, "created_at"@],
        read_at_some_time(comments, rows, issue_id) ==> comments.len() == rows.len() && forall|
            i: int,
        |
            0 <= i < rows.len() && #[trigger] rows[i].len() == 4 ==> {
                &&& comments[i].issue_id == issue_id
                &&& (rows[i][2] matches Some(Some(body)) ==> comments[i].body == body)
                &&& (rows[i][0] matches Some(Some(id)) ==> comments[i].id == id)
                &&& (rows[i][3] matches Some(Some(text)) && instant_of(text) is Some
                    ==> comments[i].created_at == instant_of(rows[i][3]->Some_0->Some_0)->Some_0)
            },
{
    if read_at_some_time(comments, rows, issue_id) {
        let now = choose|now: Timestamp| comments == #[trigger] comments_of(rows, issue_id, now);
        assert forall|i: int| 0 <= i < rows.len() && #[trigger] rows[i].len() == 4 implies {
            &&& comments[i].issue_id == issue_id
            &&& (rows[i][2] matches Some(Some(body)) ==> comments[i].body == body)
            &&& (rows[i][0] matches Some(Some(id)) ==> comments[i].id == id)
            &&& (rows[i][3] matches Some(Some(text)) && instant_of(text) is Some
                ==> comments[i].created_at == instant_of(rows[i][3]->Some_0->Some_0)->Some_0)
        } by {
            comments_are_read_as_they_are(rows, issue_id, now, i);
        }
    }
}

} // verus!
