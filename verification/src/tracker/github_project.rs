//! The tracker that is a GitHub project, reached through the GitHub command line.
use vstd::prelude::*;

use crate::config::{listed, GitHubProjectTrackerConfig};
use crate::error::{tracker_error, ErrorView, LunaError};
use crate::model::{comment_views, issue_views, Comment, CommentView, Issue, IssueView};
use crate::text::{
    cat, cat3, contains_text, cut, cut_text, cuttable, decimal, eq_ignore_case, from_utf8_lossy,
    is_cuttable, lossy, lowercase, opt_text, same_ignoring_case, same_text, texts, to_lowercase,
    trim, trimmed, unsigned_text,
};
use crate::time::{instant_of, parse_rfc3339, utc_now, Timestamp};
use crate::tracker::asahi::query_views;
use crate::tracker::github_item::{
    issue_matches_locator, issue_reference, item_issue, located_by, normalize_project_item,
    opt_issue, parse_github_issue_reference, ProjectItemNode,
};

verus! {

/// How many bytes of what the command line complains of are told.
pub const GH_OUTPUT_LIMIT: usize = 400;

/// The request for a page of items.
pub const PROJECT_ITEMS_QUERY: &'static str = r#"
query ProjectItems(
  $owner: String!
  $projectNumber: Int!
  $statusField: String!
  $priorityField: String!
  $cursor: String
) {
  repositoryOwner(login: $owner) {
    ... on User {
      projectV2(number: $projectNumber) {
        url
        items(first: 50, after: $cursor) {
          pageInfo {
            hasNextPage
            endCursor
          }
          nodes {
            id
            createdAt
            updatedAt
            statusFieldValue: fieldValueByName(name: $statusField) {
              __typename
              ... on ProjectV2ItemFieldSingleSelectValue {
                name
              }
              ... on ProjectV2ItemFieldTextValue {
                text
              }
            }
            priorityFieldValue: fieldValueByName(name: $priorityField) {
              __typename
              ... on ProjectV2ItemFieldNumberValue {
                number
              }
              ... on ProjectV2ItemFieldTextValue {
                text
              }
              ... on ProjectV2ItemFieldSingleSelectValue {
                name
              }
            }
            content {
              __typename
              ... on Issue {
                id
                number
                title
                body
                url
                state
                closed
                createdAt
                updatedAt
                repository {
                  nameWithOwner
                }
                labels(first: 20) {
                  nodes {
                    name
                  }
                }
              }
              ... on DraftIssue {
                id
                title
                body
                createdAt
                updatedAt
              }
              ... on PullRequest {
                id
              }
            }
          }
        }
      }
    }
    ... on Organization {
      projectV2(number: $projectNumber) {
        url
        items(first: 50, after: $cursor) {
          pageInfo {
            hasNextPage
            endCursor
          }
          nodes {
            id
            createdAt
            updatedAt
            statusFieldValue: fieldValueByName(name: $statusField) {
              __typename
              ... on ProjectV2ItemFieldSingleSelectValue {
                name
              }
              ... on ProjectV2ItemFieldTextValue {
                text
              }
            }
            priorityFieldValue: fieldValueByName(name: $priorityField) {
              __typename
              ... on ProjectV2ItemFieldNumberValue {
                number
              }
              ... on ProjectV2ItemFieldTextValue {
                text
              }
              ... on ProjectV2ItemFieldSingleSelectValue {
                name
              }
            }
            content {
              __typename
              ... on Issue {
                id
                number
                title
                body
                url
                state
                closed
                createdAt
                updatedAt
                repository {
                  nameWithOwner
                }
                labels(first: 20) {
                  nodes {
                    name
                  }
                }
              }
              ... on DraftIssue {
                id
                title
                body
                createdAt
                updatedAt
              }
              ... on PullRequest {
                id
              }
            }
          }
        }
      }
    }
  }
}
"#;

/// The request for the field that holds the status.
pub const STATUS_FIELD_QUERY: &'static str = r#"
query ProjectStatusField(
  $owner: String!
  $projectNumber: Int!
  $statusField: String!
) {
  repositoryOwner(login: $owner) {
    ... on User {
      projectV2(number: $projectNumber) {
        id
        fields(first: 50) {
          nodes {
            __typename
            ... on ProjectV2SingleSelectField {
              id
              name
              options {
                id
                name
              }
            }
          }
        }
      }
    }
    ... on Organization {
      projectV2(number: $projectNumber) {
        id
        fields(first: 50) {
          nodes {
            __typename
            ... on ProjectV2SingleSelectField {
              id
              name
              options {
                id
                name
              }
            }
          }
        }
      }
    }
  }
}
"#;

/// The request that sets the status of an item.
pub const UPDATE_STATUS_QUERY: &'static str = r#"
mutation UpdateProjectItemStatus(
  $projectId: ID!
  $itemId: ID!
  $fieldId: ID!
  $optionId: String!
) {
  updateProjectV2ItemFieldValue(
    input: {
      projectId: $projectId
      itemId: $itemId
      fieldId: $fieldId
      value: {singleSelectOptionId: $optionId}
    }
  ) {
    projectV2Item {
      id
    }
  }
}
"#;

/// The tracker that is a GitHub project.
#[derive(Clone, Debug)]
pub struct GitHubProjectTracker {
    pub config: GitHubProjectTrackerConfig,
}

/// An item as it was read, with the text that it was read from.
#[derive(Debug, Clone)]
pub struct ProjectItemRow {
    pub node: ProjectItemNode,
    pub source_data: Option<String>,
}

/// A page of the items of a project.
#[derive(Debug, Clone)]
pub struct ProjectPage {
    pub url: String,
    pub items: Vec<ProjectItemRow>,
    pub has_next_page: bool,
    pub end_cursor: Option<String>,
}

/// A value that a field can have.
#[derive(Debug, Clone)]
pub struct ProjectFieldOption {
    pub id: String,
    pub name: String,
}

/// A field of a project.
#[derive(Debug, Clone)]
pub enum ProjectFieldConfig {
    ProjectV2SingleSelectField { id: String, name: String, options: Vec<ProjectFieldOption> },
    Unknown,
}

/// A project and its fields.
#[derive(Debug, Clone)]
pub struct ProjectStatusNode {
    pub id: String,
    pub fields: Vec<ProjectFieldConfig>,
}

/// Where a state is set: the project, the field and the value.
#[derive(Debug, Clone)]
pub struct ResolvedProjectStatusField {
    pub project_id: String,
    pub field_id: String,
    pub option_id: String,
}

// ---------------------------------------------------------------------------
// Requests
// ---------------------------------------------------------------------------

/// The arguments that set the fields of a request.
pub open spec fn field_args(fields: Seq<(Seq<char>, Seq<char>)>) -> Seq<Seq<char>>
    decreases fields.len(),
{
    if fields.len() == 0 {
        Seq::empty()
    } else {
        field_args(fields.drop_last()).push("-F"@).push(fields.last().0 + "="@ + fields.last().1)
    }
}

/// The arguments of the command line for a request.
pub fn graphql(query: &str, fields: &[(String, String)]) -> (r: Vec<String>)
    ensures
        texts(r@) == seq!["api"@, "graphql"@, "-f"@, "query="@ + query@] + field_args(
            query_views(fields@),
        ),
{
    let mut out: Vec<String> = Vec::new();
    out.push("api".to_owned());
    out.push("graphql".to_owned());
    out.push("-f".to_owned());
    out.push(cat("query=", query));
    let ghost head = seq!["api"@, "graphql"@, "-f"@, "query="@ + query@];
    assert(texts(out@) =~= head);
    let mut i: usize = 0;
    assert(head + field_args(query_views(fields@.take(0))) =~= head);
    while i < fields.len()
        invariant
            i <= fields@.len(),
            texts(out@) == head + field_args(query_views(fields@.take(i as int))),
        decreases fields@.len() - i,
    {
        let pair = cat3(fields[i].0.as_str(), "=", fields[i].1.as_str());
        let ghost before = texts(out@);
        let ghost text = pair@;
        out.push("-F".to_owned());
        out.push(pair);
        proof {
            let next = query_views(fields@.take(i + 1));
            assert(next.drop_last() =~= query_views(fields@.take(i as int)));
            assert(texts(out@) =~= before.push("-F"@).push(text));
            assert(texts(out@) =~= head + field_args(next));
        }
        i = i + 1;
    }
    assert(fields@.take(i as int) =~= fields@);
    out
}

/// The view of a cursor, where there is one, as a field of a request.
pub open spec fn cursor_field(cursor: Option<Seq<char>>) -> Seq<(Seq<char>, Seq<char>)> {
    match cursor {
        Some(cursor) => seq![("cursor"@, cursor)],
        None => Seq::empty(),
    }
}

/// That there is no such project.
pub open spec fn project_not_found(owner: Seq<char>, number: nat) -> ErrorView {
    ErrorView::Tracker(
        "github_project_not_found: owner="@ + owner + ", project_number="@ + decimal(number),
    )
}

impl GitHubProjectTracker {
    /// The tracker for a project.
    pub fn new(config: GitHubProjectTrackerConfig) -> (r: GitHubProjectTracker)
        ensures
            r.config == config,
    {
        GitHubProjectTracker { config }
    }

    /// The fields of the request for a page of items.
    pub fn fetch_page(&self, cursor: &Option<String>) -> (r: Vec<(String, String)>)
        ensures
            query_views(r@) == seq![
                ("owner"@, self.config.owner@),
                ("projectNumber"@, decimal(self.config.project_number as nat)),
                ("statusField"@, self.config.status_field@),
                ("priorityField"@, self.config.priority_field@),
            ] + cursor_field(opt_text(*cursor)),
    {
        let mut out: Vec<(String, String)> = Vec::new();
        out.push(("owner".to_owned(), self.config.owner.clone()));
        out.push(("projectNumber".to_owned(), unsigned_text(self.config.project_number as u64)));
        out.push(("statusField".to_owned(), self.config.status_field.clone()));
        out.push(("priorityField".to_owned(), self.config.priority_field.clone()));
        match cursor {
            Some(cursor) => {
                out.push(("cursor".to_owned(), cursor.clone()));
            },
            None => {},
        }
        assert(query_views(out@) =~= seq![
            ("owner"@, self.config.owner@),
            ("projectNumber"@, decimal(self.config.project_number as nat)),
            ("statusField"@, self.config.status_field@),
            ("priorityField"@, self.config.priority_field@),
        ] + cursor_field(opt_text(*cursor)));
        out
    }

    /// The fields of the request for the field that holds the status.
    pub fn status_fields(&self) -> (r: Vec<(String, String)>)
        ensures
            query_views(r@) == seq![
                ("owner"@, self.config.owner@),
                ("projectNumber"@, decimal(self.config.project_number as nat)),
                ("statusField"@, self.config.status_field@),
            ],
    {
        let mut out: Vec<(String, String)> = Vec::new();
        out.push(("owner".to_owned(), self.config.owner.clone()));
        out.push(("projectNumber".to_owned(), unsigned_text(self.config.project_number as u64)));
        out.push(("statusField".to_owned(), self.config.status_field.clone()));
        assert(query_views(out@) =~= seq![
            ("owner"@, self.config.owner@),
            ("projectNumber"@, decimal(self.config.project_number as nat)),
            ("statusField"@, self.config.status_field@),
        ]);
        out
    }

    fn not_found(&self) -> (r: LunaError)
        ensures
            r@ == project_not_found(self.config.owner@, self.config.project_number as nat),
    {
        let mut message = cat("github_project_not_found: owner=", self.config.owner.as_str());
        message.append(", project_number=");
        message.append(unsigned_text(self.config.project_number as u64).as_str());
        LunaError::Tracker(message)
    }
}

// ---------------------------------------------------------------------------
// Pages
// ---------------------------------------------------------------------------

/// The issues among the items of a page, in order.
pub open spec fn page_issues(
    items: Seq<ProjectItemRow>,
    url: Seq<char>,
    owner: Seq<char>,
    project: nat,
) -> Seq<IssueView>
    decreases items.len(),
{
    if items.len() == 0 {
        Seq::empty()
    } else {
        let before = page_issues(items.drop_last(), url, owner, project);
        match item_issue(
            items.last().node,
            opt_text(items.last().source_data),
            url,
            owner,
            project,
        ) {
            Some(issue) => before.push(issue),
            None => before,
        }
    }
}

/// The walk over the pages of a project: the issues so far, and where the next page
/// starts.
#[derive(Debug, Clone)]
pub struct ProjectWalk {
    pub issues: Vec<Issue>,
    pub cursor: Option<String>,
}

/// The model of a walk.
#[verifier::ext_equal]
pub struct WalkView {
    pub issues: Seq<IssueView>,
    pub cursor: Option<Seq<char>>,
}

impl View for ProjectWalk {
    type V = WalkView;

    open spec fn view(&self) -> WalkView {
        WalkView { issues: issue_views(self.issues@), cursor: opt_text(self.cursor) }
    }
}

/// That there are more pages, and no place where they start.
pub open spec fn missing_cursor() -> ErrorView {
    ErrorView::Tracker(
        "github_project_missing_end_cursor: pagination reported hasNextPage=true without endCursor"@,
    )
}

/// A walk that begins.
pub open spec fn walk_begun() -> WalkView {
    WalkView { issues: Seq::empty(), cursor: None }
}

/// A walk after a page, and whether it goes on.
pub open spec fn walked(
    walk: WalkView,
    page: Option<ProjectPage>,
    owner: Seq<char>,
    project: nat,
) -> (WalkView, Result<bool, ErrorView>) {
    match page {
        None => (walk, Err(project_not_found(owner, project))),
        Some(page) => {
            let issues = walk.issues + page_issues(page.items@, page.url@, owner, project);
            if !page.has_next_page {
                (WalkView { issues, cursor: walk.cursor }, Ok(false))
            } else {
                match page.end_cursor {
                    Some(cursor) => (WalkView { issues, cursor: Some(cursor@) }, Ok(true)),
                    None => (WalkView { issues, cursor: None }, Err(missing_cursor())),
                }
            }
        },
    }
}

/// The view of whether a walk goes on.
pub open spec fn walk_outcome(r: Result<bool, LunaError>) -> Result<bool, ErrorView> {
    match r {
        Ok(more) => Ok(more),
        Err(e) => Err(e@),
    }
}

impl GitHubProjectTracker {
    /// A walk that begins.
    pub fn begin_walk(&self) -> (r: ProjectWalk)
        ensures
            r@ == walk_begun(),
    {
        let r = ProjectWalk { issues: Vec::new(), cursor: None };
        assert(r@ =~= walk_begun());
        r
    }

    fn add_items(&self, issues: &mut Vec<Issue>, items: Vec<ProjectItemRow>, url: &str)
        ensures
            issue_views(final(issues)@) == issue_views(old(issues)@) + page_issues(
                items@,
                url@,
                self.config.owner@,
                self.config.project_number as nat,
            ),
    {
        let ghost before = issue_views(issues@);
        let ghost owner = self.config.owner@;
        let ghost project = self.config.project_number as nat;
        let ghost all = items@;
        assert(all.take(0) =~= Seq::<ProjectItemRow>::empty());
        assert(before + page_issues(all.take(0), url@, owner, project) =~= before);
        for row in it: items
            invariant
                it.seq() == all,
                owner == self.config.owner@,
                project == self.config.project_number as nat,
                issue_views(issues@) == before + page_issues(
                    all.take(it.index() as int),
                    url@,
                    owner,
                    project,
                ),
        {
            let ghost n = it.index() as int;
            let ghost so_far = issue_views(issues@);
            proof {
                assert(all.take(n + 1).drop_last() =~= all.take(n));
                assert(all.take(n + 1).last() == row);
            }
            match normalize_project_item(row.node, row.source_data, url, &self.config) {
                Some(issue) => {
                    let ghost view = issue@;
                    issues.push(issue);
                    proof {
                        assert(issue_views(issues@) =~= so_far.push(view));
                        assert(issue_views(issues@) =~= before + page_issues(
                            all.take(n + 1),
                            url@,
                            owner,
                            project,
                        ));
                    }
                },
                None => {},
            }
        }
        assert(all.take(all.len() as int) =~= all);
    }

    /// Takes a page into a walk, and says whether there are more: the page is missing
    /// where there is no such project.
    pub fn fetch_all_items(&self, walk: &mut ProjectWalk, page: Option<ProjectPage>) -> (r: Result<
        bool,
        LunaError,
    >)
        ensures
            (final(walk)@, walk_outcome(r)) == walked(
                old(walk)@,
                page,
                self.config.owner@,
                self.config.project_number as nat,
            ),
    {
        match page {
            None => Err(self.not_found()),
            Some(page) => {
                self.add_items(&mut walk.issues, page.items, page.url.as_str());
                if !page.has_next_page {
                    return Ok(false);
                }
                walk.cursor = page.end_cursor;
                if walk.cursor.is_none() {
                    return Err(
                        LunaError::Tracker(
                            "github_project_missing_end_cursor: pagination reported hasNextPage=true without endCursor".to_owned(),
                        ),
                    );
                }
                Ok(true)
            },
        }
    }
}

/// A walk over the first `n` pages.
pub open spec fn walk_over(
    pages: Seq<ProjectPage>,
    owner: Seq<char>,
    project: nat,
) -> WalkView
    decreases pages.len(),
{
    if pages.len() == 0 {
        walk_begun()
    } else {
        walked(walk_over(pages.drop_last(), owner, project), Some(pages.last()), owner, project).0
    }
}

/// The issues on all pages, in order.
pub open spec fn all_issues(pages: Seq<ProjectPage>, owner: Seq<char>, project: nat) -> Seq<
    IssueView,
>
    decreases pages.len(),
{
    if pages.len() == 0 {
        Seq::empty()
    } else {
        all_issues(pages.drop_last(), owner, project) + page_issues(
            pages.last().items@,
            pages.last().url@,
            owner,
            project,
        )
    }
}

/// A walk collects the issues of every page, in order, and each page starts where the
/// one before it ended.
pub proof fn walk_collects_every_page(pages: Seq<ProjectPage>, owner: Seq<char>, project: nat)
    ensures
        walk_over(pages, owner, project).issues == all_issues(pages, owner, project),
        pages.len() > 0 && pages.last().has_next_page ==> walk_over(pages, owner, project).cursor
            == opt_text(pages.last().end_cursor),
    decreases pages.len(),
{
    if pages.len() > 0 {
        walk_collects_every_page(pages.drop_last(), owner, project);
    }
}

// ---------------------------------------------------------------------------
// Selections
// ---------------------------------------------------------------------------

proof fn nothing_filtered(s: Seq<IssueView>, keep: spec_fn(IssueView) -> bool)
    ensures
        s.take(0).filter(keep) == Seq::<IssueView>::empty(),
{
    reveal(Seq::filter);
}

proof fn filter_step(s: Seq<IssueView>, n: int, keep: spec_fn(IssueView) -> bool)
    requires
        0 <= n < s.len(),
    ensures
        s.take(n + 1).filter(keep) == if keep(s[n]) {
            s.take(n).filter(keep).push(s[n])
        } else {
            s.take(n).filter(keep)
        },
{
    reveal(Seq::filter);
    assert(s.take(n + 1).drop_last() =~= s.take(n));
}

/// States in lower case.
pub open spec fn lowercased(states: Seq<Seq<char>>) -> Seq<Seq<char>> {
    Seq::new(states.len(), |i: int| lowercase(states[i]))
}

/// Whether a request for issues by such names has to be made at all.
pub fn needs_request(names: &[String]) -> (r: bool)
    ensures
        r == (names@.len() > 0),
{
    names.len() > 0
}

fn lower_states(states: &[String]) -> (r: Vec<String>)
    ensures
        texts(r@) == lowercased(texts(states@)),
{
    let mut out: Vec<String> = Vec::new();
    let mut i: usize = 0;
    while i < states.len()
        invariant
            i <= states@.len(),
            texts(out@) == lowercased(texts(states@)).take(i as int),
        decreases states@.len() - i,
    {
        let name = to_lowercase(states[i].as_str());
        let ghost before = texts(out@);
        let ghost text = name@;
        out.push(name);
        proof {
            assert(texts(out@) =~= before.push(text));
            assert(lowercased(texts(states@)).take(i + 1) =~= before.push(text));
        }
        i = i + 1;
    }
    assert(lowercased(texts(states@)).take(i as int) =~= lowercased(texts(states@)));
    out
}

impl GitHubProjectTracker {
    /// The issues that are to be worked on.
    pub fn fetch_candidate_issues(&self, all: Vec<Issue>) -> (r: Vec<Issue>)
        ensures
            issue_views(r@) == issue_views(all@).filter(
                |i: IssueView| listed(texts(self.config.active_states@), i.state),
            ),
    {
        let ghost keep = |i: IssueView| listed(texts(self.config.active_states@), i.state);
        let ghost views = issue_views(all@);
        let mut out: Vec<Issue> = Vec::new();
        proof {
            nothing_filtered(views, keep);
            assert(issue_views(out@) =~= Seq::empty());
        }
        for issue in it: all
            invariant
                keep == (|i: IssueView| listed(texts(self.config.active_states@), i.state)),
                issue_views(it.seq()) == views,
                issue_views(out@) == views.take(it.index() as int).filter(keep),
        {
            let ghost so_far = issue_views(out@);
            let ghost view = issue@;
            proof {
                filter_step(views, it.index() as int, keep);
                assert(views[it.index() as int] == view);
            }
            if self.config.is_active_state(issue.state.as_str()) {
                out.push(issue);
                assert(issue_views(out@) =~= so_far.push(view));
            }
        }
        assert(views.take(views.len() as int) =~= views);
        out
    }

    /// The issues in some states, in any case.
    pub fn fetch_issues_by_states(&self, states: &[String], all: Vec<Issue>) -> (r: Vec<Issue>)
        ensures
            issue_views(r@) == issue_views(all@).filter(
                |i: IssueView| lowercased(texts(states@)).contains(lowercase(i.state)),
            ),
    {
        let ghost keep = |i: IssueView| lowercased(texts(states@)).contains(lowercase(i.state));
        let ghost views = issue_views(all@);
        let lookup = lower_states(states);
        let mut out: Vec<Issue> = Vec::new();
        proof {
            nothing_filtered(views, keep);
            assert(issue_views(out@) =~= Seq::empty());
        }
        for issue in it: all
            invariant
                keep == (|i: IssueView|
                    lowercased(texts(states@)).contains(lowercase(i.state))),
                texts(lookup@) == lowercased(texts(states@)),
                issue_views(it.seq()) == views,
                issue_views(out@) == views.take(it.index() as int).filter(keep),
        {
            let ghost so_far = issue_views(out@);
            let ghost view = issue@;
            proof {
                filter_step(views, it.index() as int, keep);
                assert(views[it.index() as int] == view);
            }
            let state = to_lowercase(issue.state.as_str());
            if contains_text(lookup.as_slice(), state.as_str()) {
                out.push(issue);
                assert(issue_views(out@) =~= so_far.push(view));
            }
        }
        assert(views.take(views.len() as int) =~= views);
        out
    }

    /// The issues with some ids.
    pub fn fetch_issue_states_by_ids(&self, issue_ids: &[String], all: Vec<Issue>) -> (r: Vec<
        Issue,
    >)
        ensures
            issue_views(r@) == issue_views(all@).filter(
                |i: IssueView| texts(issue_ids@).contains(i.id),
            ),
    {
        let ghost keep = |i: IssueView| texts(issue_ids@).contains(i.id);
        let ghost views = issue_views(all@);
        let mut out: Vec<Issue> = Vec::new();
        proof {
            nothing_filtered(views, keep);
            assert(issue_views(out@) =~= Seq::empty());
        }
        for issue in it: all
            invariant
                keep == (|i: IssueView| texts(issue_ids@).contains(i.id)),
                issue_views(it.seq()) == views,
                issue_views(out@) == views.take(it.index() as int).filter(keep),
        {
            let ghost so_far = issue_views(out@);
            let ghost view = issue@;
            proof {
                filter_step(views, it.index() as int, keep);
                assert(views[it.index() as int] == view);
            }
            if contains_text(issue_ids, issue.id.as_str()) {
                out.push(issue);
                assert(issue_views(out@) =~= so_far.push(view));
            }
        }
        assert(views.take(views.len() as int) =~= views);
        out
    }

    /// What an issue is looked for by: nothing where the locator is blank.
    pub fn bare_locator(&self, locator: &str) -> (r: Option<String>)
        ensures
            opt_text(r) == if trimmed(locator@).len() > 0 {
                Some(trimmed(locator@))
            } else {
                None
            },
    {
        let bare = trim(locator);
        if bare.as_str().is_empty() {
            None
        } else {
            Some(bare)
        }
    }

    /// The first issue that a locator names.
    pub fn find_issue_by_locator(&self, locator: &str, all: Vec<Issue>) -> (r: Option<Issue>)
        ensures
            opt_issue(r) == first_located(issue_views(all@), locator@),
    {
        let ghost views = issue_views(all@);
        assert(views.skip(0) =~= views);
        for issue in it: all
            invariant
                issue_views(it.seq()) == views,
                first_located(views, locator@) == first_located(
                    views.skip(it.index() as int),
                    locator@,
                ),
        {
            proof {
                let rest = views.skip(it.index() as int);
                assert(rest[0] == issue@);
                assert(rest.drop_first() =~= views.skip(it.index() + 1));
            }
            if issue_matches_locator(&issue, locator) {
                return Some(issue);
            }
        }
        None
    }
}

/// The first of some issues that a locator names.
pub open spec fn first_located(issues: Seq<IssueView>, locator: Seq<char>) -> Option<IssueView>
    decreases issues.len(),
{
    if issues.len() == 0 {
        None
    } else if located_by(issues[0], locator) {
        Some(issues[0])
    } else {
        first_located(issues.drop_first(), locator)
    }
}

/// An issue is found where one of them has the locator for its id, identifier or
/// workspace, and what is found has it.
pub proof fn located_issue_is_found(issues: Seq<IssueView>, locator: Seq<char>)
    ensures
        (first_located(issues, locator) is Some) == (exists|i: int|
            0 <= i < issues.len() && located_by(#[trigger] issues[i], locator)),
        first_located(issues, locator) matches Some(issue) ==> issues.contains(issue)
            && located_by(issue, locator),
    decreases issues.len(),
{
    if issues.len() > 0 && !located_by(issues[0], locator) {
        let rest = issues.drop_first();
        located_issue_is_found(rest, locator);
        if first_located(rest, locator) is Some {
            let i = choose|i: int| 0 <= i < rest.len() && located_by(#[trigger] rest[i], locator);
            assert(located_by(issues[i + 1], locator));
            let issue = first_located(rest, locator)->Some_0;
            let k = choose|k: int| 0 <= k < rest.len() && rest[k] == issue;
            assert(issues[k + 1] == issue);
        } else {
            assert forall|i: int| 0 <= i < issues.len() implies !located_by(
                #[trigger] issues[i],
                locator,
            ) by {
                if i > 0 {
                    assert(!located_by(rest[i - 1], locator));
                }
            }
        }
    } else if issues.len() > 0 {
        assert(located_by(issues[0], locator));
    }
}

// ---------------------------------------------------------------------------
// States
// ---------------------------------------------------------------------------

/// The first field of some name, in any case: its id and the values that it can have.
pub open spec fn field_named(fields: Seq<ProjectFieldConfig>, name: Seq<char>) -> Option<
    (Seq<char>, Seq<ProjectFieldOption>),
>
    decreases fields.len(),
{
    if fields.len() == 0 {
        None
    } else {
        match fields[0] {
            ProjectFieldConfig::ProjectV2SingleSelectField {
                id,
                name: own,
                options,
            } if same_ignoring_case(own@, name) => Some((id@, options@)),
            _ => field_named(fields.drop_first(), name),
        }
    }
}

/// The id of the first value of some name, in any case.
pub open spec fn option_named(options: Seq<ProjectFieldOption>, name: Seq<char>) -> Option<
    Seq<char>,
>
    decreases options.len(),
{
    if options.len() == 0 {
        None
    } else if same_ignoring_case(options[0].name@, name) {
        Some(options[0].id@)
    } else {
        option_named(options.drop_first(), name)
    }
}

/// The model of where a state is set.
pub struct ResolvedView {
    pub project_id: Seq<char>,
    pub field_id: Seq<char>,
    pub option_id: Seq<char>,
}

impl View for ResolvedProjectStatusField {
    type V = ResolvedView;

    open spec fn view(&self) -> ResolvedView {
        ResolvedView {
            project_id: self.project_id@,
            field_id: self.field_id@,
            option_id: self.option_id@,
        }
    }
}

/// The view of where a state is set, or of why it cannot be.
pub open spec fn resolved_outcome(r: Result<ResolvedProjectStatusField, LunaError>) -> Result<
    ResolvedView,
    ErrorView,
> {
    match r {
        Ok(resolved) => Ok(resolved@),
        Err(e) => Err(e@),
    }
}

/// Where a state is set: in the first field of the right name, to the first value of
/// the right name.
pub open spec fn resolution(
    project: Option<ProjectStatusNode>,
    owner: Seq<char>,
    number: nat,
    status_field: Seq<char>,
    state: Seq<char>,
) -> Result<ResolvedView, ErrorView> {
    match project {
        None => Err(project_not_found(owner, number)),
        Some(project) => match field_named(project.fields@, status_field) {
            None => Err(
                ErrorView::Tracker("github_project_status_field_not_found: "@ + status_field),
            ),
            Some((field_id, options)) => match option_named(options, state) {
                None => Err(
                    ErrorView::Tracker("github_project_state_option_not_found: "@ + state),
                ),
                Some(option_id) => Ok(
                    ResolvedView { project_id: project.id@, field_id, option_id },
                ),
            },
        },
    }
}

fn find_field(fields: &Vec<ProjectFieldConfig>, name: &str) -> (r: Option<usize>)
    ensures
        match r {
            Some(i) => i < fields@.len() && (match fields@[i as int] {
                ProjectFieldConfig::ProjectV2SingleSelectField { id, name: own, options } =>
                    field_named(fields@, name@) == Some((id@, options@)),
                _ => false,
            }),
            None => field_named(fields@, name@) is None,
        },
{
    let mut i: usize = 0;
    assert(fields@.skip(0) =~= fields@);
    while i < fields.len()
        invariant
            i <= fields@.len(),
            field_named(fields@, name@) == field_named(fields@.skip(i as int), name@),
        decreases fields@.len() - i,
    {
        assert(fields@.skip(i as int).drop_first() =~= fields@.skip(i + 1));
        match &fields[i] {
            ProjectFieldConfig::ProjectV2SingleSelectField { name: own, .. } => {
                if eq_ignore_case(own.as_str(), name) {
                    return Some(i);
                }
            },
            ProjectFieldConfig::Unknown => {},
        }
        i = i + 1;
    }
    None
}

fn find_option(options: &Vec<ProjectFieldOption>, name: &str) -> (r: Option<String>)
    ensures
        opt_text(r) == option_named(options@, name@),
{
    let mut i: usize = 0;
    assert(options@.skip(0) =~= options@);
    while i < options.len()
        invariant
            i <= options@.len(),
            option_named(options@, name@) == option_named(options@.skip(i as int), name@),
        decreases options@.len() - i,
    {
        assert(options@.skip(i as int).drop_first() =~= options@.skip(i + 1));
        if eq_ignore_case(options[i].name.as_str(), name) {
            return Some(options[i].id.clone());
        }
        i = i + 1;
    }
    None
}

/// The name of the state that an issue is moved to: it must not be blank.
pub fn checked_state_name(state_name: &str) -> (r: Result<String, LunaError>)
    ensures
        match r {
            Ok(name) => trimmed(state_name@).len() > 0 && name@ == trimmed(state_name@),
            Err(e) => trimmed(state_name@).len() == 0 && e@ == ErrorView::Tracker(
                "state name must be non-empty"@,
            ),
        },
{
    let name = trim(state_name);
    if name.as_str().is_empty() {
        Err(LunaError::Tracker("state name must be non-empty".to_owned()))
    } else {
        Ok(name)
    }
}

impl GitHubProjectTracker {
    /// Where a state is set, given the project and its fields: there is none where
    /// there is no such project.
    pub fn resolve_status_field_option(
        &self,
        project: Option<ProjectStatusNode>,
        state_name: &str,
    ) -> (r: Result<ResolvedProjectStatusField, LunaError>)
        ensures
            resolved_outcome(r) == resolution(
                project,
                self.config.owner@,
                self.config.project_number as nat,
                self.config.status_field@,
                state_name@,
            ),
    {
        let project = match project {
            Some(project) => project,
            None => {
                return Err(self.not_found());
            },
        };
        match find_field(&project.fields, self.config.status_field.as_str()) {
            Some(i) => match &project.fields[i] {
                ProjectFieldConfig::ProjectV2SingleSelectField { id, options, .. } => {
                    match find_option(options, state_name) {
                        Some(option_id) => Ok(
                            ResolvedProjectStatusField {
                                project_id: project.id.clone(),
                                field_id: id.clone(),
                                option_id,
                            },
                        ),
                        None => Err(
                            tracker_error("github_project_state_option_not_found: ", state_name),
                        ),
                    }
                },
                ProjectFieldConfig::Unknown => Err(self.not_found()),
            },
            None => Err(
                tracker_error(
                    "github_project_status_field_not_found: ",
                    self.config.status_field.as_str(),
                ),
            ),
        }
    }

    /// The fields of the request that moves an issue.
    pub fn update_issue_state(
        &self,
        issue_id: &str,
        resolved: ResolvedProjectStatusField,
    ) -> (r: Vec<(String, String)>)
        ensures
            query_views(r@) == seq![
                ("projectId"@, resolved.project_id@),
                ("itemId"@, issue_id@),
                ("fieldId"@, resolved.field_id@),
                ("optionId"@, resolved.option_id@),
            ],
    {
        let ghost view = resolved@;
        let mut out: Vec<(String, String)> = Vec::new();
        out.push(("projectId".to_owned(), resolved.project_id));
        out.push(("itemId".to_owned(), issue_id.to_owned()));
        out.push(("fieldId".to_owned(), resolved.field_id));
        out.push(("optionId".to_owned(), resolved.option_id));
        assert(query_views(out@) =~= seq![
            ("projectId"@, view.project_id),
            ("itemId"@, issue_id@),
            ("fieldId"@, view.field_id),
            ("optionId"@, view.option_id),
        ]);
        out
    }
}

/// Whether the issue that was moved is the one that was to be moved.
pub fn check_updated_item(updated_id: Option<String>, issue_id: &str) -> (r: Result<
    (),
    LunaError,
>)
    ensures
        match updated_id {
            None => r is Err && r->Err_0@ == ErrorView::Tracker(
                "github_project_state_update_failed"@,
            ),
            Some(id) => if id@ == issue_id@ {
                r is Ok
            } else {
                r is Err && r->Err_0@ == ErrorView::Tracker(
                    "github_project_state_update_failed: unexpected item id "@ + id@,
                )
            },
        },
{
    match updated_id {
        None => Err(LunaError::Tracker("github_project_state_update_failed".to_owned())),
        Some(id) => if same_text(id.as_str(), issue_id) {
            Ok(())
        } else {
            Err(
                tracker_error(
                    "github_project_state_update_failed: unexpected item id ",
                    id.as_str(),
                ),
            )
        },
    }
}

/// A state that a project knows is found by its name in any case.
pub proof fn states_are_found_in_any_case(
    options: Seq<ProjectFieldOption>,
    a: Seq<char>,
    b: Seq<char>,
)
    requires
        same_ignoring_case(a, b),
    ensures
        option_named(options, a) == option_named(options, b),
    decreases options.len(),
{
    if options.len() > 0 {
        states_are_found_in_any_case(options.drop_first(), a, b);
    }
}

// ---------------------------------------------------------------------------
// What the command line answers
// ---------------------------------------------------------------------------

/// That the command line failed.
pub open spec fn gh_failure(command: Seq<char>, status: Seq<char>, stderr: Seq<char>) -> ErrorView {
    ErrorView::Tracker(
        command + " failed: status="@ + status + ", stderr="@ + cut(stderr, GH_OUTPUT_LIMIT as int),
    )
}

/// That the command line failed, in words.
pub fn failed_command(command: &str, status: &str, stderr: &str) -> (r: LunaError)
    requires
        cuttable(stderr@, GH_OUTPUT_LIMIT as int),
    ensures
        r@ == gh_failure(command@, status@, stderr@),
{
    let mut message = cat(command, " failed: status=");
    message.append(status);
    message.append(", stderr=");
    message.append(cut_text(stderr, GH_OUTPUT_LIMIT).as_str());
    LunaError::Tracker(message)
}

/// That the command line failed, given the bytes that it complained with, or nothing
/// where these cannot be cut to the limit.
pub fn parse_gh_json_output(command: &str, success: bool, status: &str, stderr: &[u8]) -> (r: Option<
    Result<(), LunaError>,
>)
    ensures
        (r is Some) == (success || cuttable(lossy(stderr@), GH_OUTPUT_LIMIT as int)),
        r matches Some(outcome) ==> (outcome is Ok) == success,
        r matches Some(Err(e)) ==> e@ == gh_failure(command@, status@, lossy(stderr@)),
{
    if success {
        return Some(Ok(()));
    }
    let text = from_utf8_lossy(stderr);
    if is_cuttable(text.as_str(), GH_OUTPUT_LIMIT) {
        Some(Err(failed_command(command, status, text.as_str())))
    } else {
        None
    }
}

// ---------------------------------------------------------------------------
// Comments
// ---------------------------------------------------------------------------

/// The arguments of the command line for the comments on an issue: a draft has none.
pub fn fetch_comments(issue: &Issue) -> (r: Option<Vec<String>>)
    ensures
        match issue_reference(issue@.identifier) {
            Some((repo, number)) => r is Some && texts(r->Some_0@) == seq![
                "api"@,
                "repos/"@ + repo + "/issues/"@ + decimal(number) + "/comments"@,
                "--paginate"@,
            ],
            None => r is None,
        },
{
    match parse_github_issue_reference(issue.identifier.as_str()) {
        Some((repo, number)) => {
            let mut path = cat("repos/", repo.as_str());
            path.append("/issues/");
            path.append(unsigned_text(number).as_str());
            path.append("/comments");
            let ghost text = path@;
            let mut out: Vec<String> = Vec::new();
            out.push("api".to_owned());
            out.push(path);
            out.push("--paginate".to_owned());
            assert(texts(out@) =~= seq!["api"@, text, "--paginate"@]);
            Some(out)
        },
        None => None,
    }
}

/// The arguments of the command line that comments on an issue: a draft cannot be
/// commented on.
pub fn create_comment(issue: &Issue, body: &str) -> (r: Result<Vec<String>, LunaError>)
    ensures
        match issue_reference(issue@.identifier) {
            Some((repo, number)) => r is Ok && texts(r->Ok_0@) == seq![
                "issue"@,
                "comment"@,
                decimal(number),
                "-R"@,
                repo,
                "--body"@,
                body@,
            ],
            None => r is Err && r->Err_0@ == ErrorView::Tracker(
                "github_project comment requires a backing GitHub issue: "@ + issue@.identifier,
            ),
        },
{
    match parse_github_issue_reference(issue.identifier.as_str()) {
        Some((repo, number)) => {
            let ghost name = repo@;
            let mut out: Vec<String> = Vec::new();
            out.push("issue".to_owned());
            out.push("comment".to_owned());
            out.push(unsigned_text(number));
            out.push("-R".to_owned());
            out.push(repo);
            out.push("--body".to_owned());
            out.push(body.to_owned());
            assert(texts(out@) =~= seq![
                "issue"@,
                "comment"@,
                decimal(number as nat),
                "-R"@,
                name,
                "--body"@,
                body@,
            ]);
            Ok(out)
        },
        None => Err(
            tracker_error(
                "github_project comment requires a backing GitHub issue: ",
                issue.identifier.as_str(),
            ),
        ),
    }
}

/// What a key leads to in a row: nothing, something that is no text, or a text.
pub open spec fn cell_view(c: Option<Option<String>>) -> Option<Option<Seq<char>>> {
    match c {
        Some(t) => Some(opt_text(t)),
        None => None,
    }
}

/// What the keys lead to in a row.
pub open spec fn row_view(row: Seq<Option<Option<String>>>) -> Seq<Option<Option<Seq<char>>>> {
    Seq::new(row.len(), |i: int| cell_view(row[i]))
}

/// What the keys lead to in every row.
pub open spec fn row_views(rows: Seq<Vec<Option<Option<String>>>>) -> Seq<
    Seq<Option<Option<Seq<char>>>>,
> {
    Seq::new(rows.len(), |i: int| row_view(rows[i]@))
}

/// What keys lead to in each element of a JSON list, or why the bytes are no such list.
pub uninterp spec fn json_table(bytes: Seq<u8>, keys: Seq<Seq<char>>) -> Result<
    Seq<Seq<Option<Option<Seq<char>>>>>,
    Seq<char>,
>;

/// The view of a table, or of why there is none.
pub open spec fn table_outcome(r: Result<Vec<Vec<Option<Option<String>>>>, String>) -> Result<
    Seq<Seq<Option<Option<Seq<char>>>>>,
    Seq<char>,
> {
    match r {
        Ok(rows) => Ok(row_views(rows@)),
        Err(why) => Err(why@),
    }
}

/// `serde_json::from_slice` for a list of values, and for each of them
/// `serde_json::Value::get` with each key and `serde_json::Value::as_str` of what it
/// leads to. The result depends on the bytes and the keys alone, and each row has one
/// cell for each key. Which bytes are a list, and what it holds, is left open.
#[verifier::external_body]
fn read_table(bytes: &[u8], keys: &[String]) -> (r: Result<
    Vec<Vec<Option<Option<String>>>>,
    String,
>)
    ensures
        table_outcome(r) == json_table(bytes@, texts(keys@)),
        r matches Ok(rows) ==> forall|i: int|
            0 <= i < rows@.len() ==> (#[trigger] rows@[i])@.len() == keys@.len(),
{
    let rows: Vec<serde_json::Value> = serde_json::from_slice(bytes).map_err(|e| e.to_string())?;
    let cell = |row: &serde_json::Value, key: &String| {
        row.get(key).map(|v| v.as_str().map(str::to_owned))
    };
    Ok(rows.iter().map(|row| keys.iter().map(|key| cell(row, key)).collect()).collect())
}

/// The text in a cell, or the empty text.
pub open spec fn cell_text(c: Option<Option<Seq<char>>>) -> Seq<char> {
    match c {
        Some(Some(text)) => text,
        _ => Seq::empty(),
    }
}

/// The comment that a row is. The cells are what `node_id`, `id`, `body` and
/// `created_at` lead to; a comment that does not say when it was made is made now.
pub open spec fn comment_of(
    row: Seq<Option<Option<Seq<char>>>>,
    issue_id: Seq<char>,
    now: Timestamp,
) -> CommentView {
    CommentView {
        id: cell_text(
            if row[0] is Some {
                row[0]
            } else {
                row[1]
            },
        ),
        issue_id,
        body: cell_text(row[2]),
        created_at: match row[3] {
            Some(Some(text)) => match instant_of(text) {
                Some(t) => t,
                None => now,
            },
            _ => now,
        },
    }
}

/// The comments that rows are.
pub open spec fn comments_of(
    rows: Seq<Seq<Option<Option<Seq<char>>>>>,
    issue_id: Seq<char>,
    now: Timestamp,
) -> Seq<CommentView> {
    Seq::new(rows.len(), |i: int| comment_of(rows[i], issue_id, now))
}

fn text_in(c: &Option<Option<String>>) -> (r: String)
    ensures
        r@ == cell_text(cell_view(*c)),
{
    match c {
        Some(Some(text)) => text.clone(),
        _ => {
            let r = String::new();
            assert(r@ =~= Seq::empty());
            r
        },
    }
}

/// The comments on an issue, given what `node_id`, `id`, `body` and `created_at` lead
/// to in each of them.
pub fn comments_from_rows(
    rows: &Vec<Vec<Option<Option<String>>>>,
    issue_id: &str,
    now: Timestamp,
) -> (r: Vec<Comment>)
    requires
        forall|i: int| 0 <= i < rows@.len() ==> (#[trigger] rows@[i])@.len() == 4,
    ensures
        comment_views(r@) == comments_of(row_views(rows@), issue_id@, now),
{
    let mut out: Vec<Comment> = Vec::new();
    let mut i: usize = 0;
    while i < rows.len()
        invariant
            i <= rows@.len(),
            forall|k: int| 0 <= k < rows@.len() ==> (#[trigger] rows@[k])@.len() == 4,
            comment_views(out@) == comments_of(row_views(rows@), issue_id@, now).take(i as int),
        decreases rows@.len() - i,
    {
        let row = &rows[i];
        let ghost cells = row_views(rows@)[i as int];
        assert(cells == row_view(row@));
        let id = if row[0].is_some() {
            text_in(&row[0])
        } else {
            text_in(&row[1])
        };
        let created_at = match &row[3] {
            Some(Some(text)) => match parse_rfc3339(text.as_str()) {
                Some(t) => t,
                None => now,
            },
            _ => now,
        };
        let comment = Comment {
            id,
            issue_id: issue_id.to_owned(),
            body: text_in(&row[2]),
            created_at,
        };
        let ghost before = comment_views(out@);
        let ghost view = comment@;
        out.push(comment);
        proof {
            assert(view == comment_of(cells, issue_id@, now));
            assert(comment_views(out@) =~= before.push(view));
            assert(comments_of(row_views(rows@), issue_id@, now).take(i + 1) =~= before.push(view));
        }
        i = i + 1;
    }
    assert(comments_of(row_views(rows@), issue_id@, now).take(i as int) =~= comments_of(
        row_views(rows@),
        issue_id@,
        now,
    ));
    out
}

/// The keys that a comment is read by.
pub open spec fn comment_keys() -> Seq<Seq<char>> {
    seq!["node_id"@, "id"@, "body"@, "created_at"@]
}

/// Whether comments are those that rows are, at whatever time they were read.
pub open spec fn read_at_some_time(
    comments: Seq<CommentView>,
    rows: Seq<Seq<Option<Option<Seq<char>>>>>,
    issue_id: Seq<char>,
) -> bool {
    exists|now: Timestamp| comments == #[trigger] comments_of(rows, issue_id, now)
}

/// The comments on an issue, given the bytes that the command line answered with.
pub fn read_comments(issue: &Issue, stdout: &[u8]) -> (r: Result<Vec<Comment>, LunaError>)
    ensures
        match json_table(stdout@, comment_keys()) {
            Ok(rows) => r is Ok && read_at_some_time(comment_views(r->Ok_0@), rows, issue@.id),
            Err(why) => r is Err && r->Err_0@ == ErrorView::Json(why),
        },
{
    let mut keys: Vec<String> = Vec::new();
    keys.push("node_id".to_owned());
    keys.push("id".to_owned());
    keys.push("body".to_owned());
    keys.push("created_at".to_owned());
    assert(texts(keys@) =~= comment_keys());
    match read_table(stdout, keys.as_slice()) {
        Ok(rows) => {
            let now = utc_now();
            let comments = comments_from_rows(&rows, issue.id.as_str(), now);
            assert(read_at_some_time(comment_views(comments@), row_views(rows@), issue@.id));
            Ok(comments)
        },
        Err(why) => Err(LunaError::Json(why)),
    }
}

} // verus!
