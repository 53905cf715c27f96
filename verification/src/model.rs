//! Issues, comments and workspaces.
use vstd::prelude::*;

use crate::domain::project::{clone_project_ref, ProjectRef, ProjectRefView};
use crate::text::{clone_opt, clone_texts, opt_text, texts};
use crate::time::Timestamp;

verus! {

/// An issue that stands in the way of another.
#[derive(Clone, Debug)]
pub struct BlockerRef {
    pub id: Option<String>,
    pub identifier: Option<String>,
    pub state: Option<String>,
}

/// An item of a tracker.
#[derive(Clone, Debug)]
pub struct Issue {
    pub id: String,
    pub identifier: String,
    pub title: String,
    pub description: Option<String>,
    pub priority: Option<i64>,
    pub state: String,
    pub branch_name: Option<String>,
    pub url: Option<String>,
    pub labels: Vec<String>,
    pub blocked_by: Vec<BlockerRef>,
    pub created_at: Option<Timestamp>,
    pub updated_at: Option<Timestamp>,
    pub project: Option<ProjectRef>,
    /// The JSON text that the item was made from.
    pub source_data: Option<String>,
}

/// A comment on an issue.
#[derive(Clone, Debug)]
pub struct Comment {
    pub id: String,
    pub issue_id: String,
    pub body: String,
    pub created_at: Timestamp,
}

/// The tokens that all agents have used together.
#[derive(Clone, Copy, Debug, PartialEq, Eq, Structural)]
pub struct TokenTotals {
    pub input_tokens: u64,
    pub output_tokens: u64,
    pub total_tokens: u64,
}

/// The directory that an issue is worked on in.
#[derive(Clone, Debug)]
pub struct WorkspaceAssignment {
    pub path: String,
    pub workspace_key: String,
    pub created_now: bool,
}

/// The model of a blocker.
pub struct BlockerView {
    pub id: Option<Seq<char>>,
    pub identifier: Option<Seq<char>>,
    pub state: Option<Seq<char>>,
}

/// The model of an issue.
#[verifier::ext_equal]
pub struct IssueView {
    pub id: Seq<char>,
    pub identifier: Seq<char>,
    pub title: Seq<char>,
    pub description: Option<Seq<char>>,
    pub priority: Option<i64>,
    pub state: Seq<char>,
    pub branch_name: Option<Seq<char>>,
    pub url: Option<Seq<char>>,
    pub labels: Seq<Seq<char>>,
    pub blocked_by: Seq<BlockerView>,
    pub created_at: Option<Timestamp>,
    pub updated_at: Option<Timestamp>,
    pub project: Option<ProjectRefView>,
    pub source_data: Option<Seq<char>>,
}

/// The model of a comment.
pub struct CommentView {
    pub id: Seq<char>,
    pub issue_id: Seq<char>,
    pub body: Seq<char>,
    pub created_at: Timestamp,
}

impl View for BlockerRef {
    type V = BlockerView;

    open spec fn view(&self) -> BlockerView {
        BlockerView {
            id: opt_text(self.id),
            identifier: opt_text(self.identifier),
            state: opt_text(self.state),
        }
    }
}

/// The models of a sequence of blockers.
pub open spec fn blocker_views(s: Seq<BlockerRef>) -> Seq<BlockerView> {
    Seq::new(s.len(), |i: int| s[i]@)
}

/// The model of an optional project reference.
pub open spec fn opt_project(p: Option<ProjectRef>) -> Option<ProjectRefView> {
    match p {
        Some(p) => Some(p@),
        None => None,
    }
}

impl View for Issue {
    type V = IssueView;

    open spec fn view(&self) -> IssueView {
        IssueView {
            id: self.id@,
            identifier: self.identifier@,
            title: self.title@,
            description: opt_text(self.description),
            priority: self.priority,
            state: self.state@,
            branch_name: opt_text(self.branch_name),
            url: opt_text(self.url),
            labels: texts(self.labels@),
            blocked_by: blocker_views(self.blocked_by@),
            created_at: self.created_at,
            updated_at: self.updated_at,
            project: opt_project(self.project),
            source_data: opt_text(self.source_data),
        }
    }
}

impl View for Comment {
    type V = CommentView;

    open spec fn view(&self) -> CommentView {
        CommentView {
            id: self.id@,
            issue_id: self.issue_id@,
            body: self.body@,
            created_at: self.created_at,
        }
    }
}

/// The models of a sequence of issues.
pub open spec fn issue_views(s: Seq<Issue>) -> Seq<IssueView> {
    Seq::new(s.len(), |i: int| s[i]@)
}

/// The models of a sequence of comments.
pub open spec fn comment_views(s: Seq<Comment>) -> Seq<CommentView> {
    Seq::new(s.len(), |i: int| s[i]@)
}

impl IssueView {
    /// The slug of the project that the issue belongs to.
    pub open spec fn slug(self) -> Option<Seq<char>> {
        match self.project {
            Some(p) => Some(p.slug),
            None => None,
        }
    }
}

fn clone_blocker(b: &BlockerRef) -> (r: BlockerRef)
    ensures
        r == *b,
{
    BlockerRef {
        id: clone_opt(&b.id),
        identifier: clone_opt(&b.identifier),
        state: clone_opt(&b.state),
    }
}

fn clone_blockers(v: &Vec<BlockerRef>) -> (r: Vec<BlockerRef>)
    ensures
        r@ == v@,
{
    let mut out: Vec<BlockerRef> = Vec::new();
    let mut i: usize = 0;
    while i < v.len()
        invariant
            i <= v@.len(),
            out@ == v@.take(i as int),
        decreases v@.len() - i,
    {
        out.push(clone_blocker(&v[i]));
        i = i + 1;
    }
    out
}

/// A copy of an issue.
pub fn clone_issue(issue: &Issue) -> (r: Issue)
    ensures
        r@ == issue@,
{
    let project = match &issue.project {
        Some(p) => Some(clone_project_ref(p)),
        None => None,
    };
    Issue {
        id: issue.id.clone(),
        identifier: issue.identifier.clone(),
        title: issue.title.clone(),
        description: clone_opt(&issue.description),
        priority: issue.priority,
        state: issue.state.clone(),
        branch_name: clone_opt(&issue.branch_name),
        url: clone_opt(&issue.url),
        labels: clone_texts(issue.labels.as_slice()),
        blocked_by: clone_blockers(&issue.blocked_by),
        created_at: issue.created_at,
        updated_at: issue.updated_at,
        project,
        source_data: clone_opt(&issue.source_data),
    }
}

/// A copy of a comment.
pub fn clone_comment(c: &Comment) -> (r: Comment)
    ensures
        r == *c,
{
    Comment {
        id: c.id.clone(),
        issue_id: c.issue_id.clone(),
        body: c.body.clone(),
        created_at: c.created_at,
    }
}

/// The slug of the project that the issue belongs to.
pub fn project_slug(issue: &Issue) -> (r: Option<String>)
    ensures
        opt_text(r) == issue@.slug(),
{
    match &issue.project {
        Some(p) => Some(p.slug.clone()),
        None => None,
    }
}

/// The model of an issue, of what it waits for and of a comment shows all that they hold.
pub proof fn models_show_all_that_is_held(issue: Issue, blocker: BlockerRef, comment: Comment)
    ensures
        issue@.id == issue.id@,
        issue@.identifier == issue.identifier@,
        issue@.title == issue.title@,
        issue@.description == opt_text(issue.description),
        issue@.priority == issue.priority,
        issue@.state == issue.state@,
        issue@.branch_name == opt_text(issue.branch_name),
        issue@.url == opt_text(issue.url),
        issue@.labels.len() == issue.labels@.len(),
        forall|i: int|
            0 <= i < issue.labels@.len() ==> #[trigger] issue@.labels[i] == issue.labels@[i]@,
        issue@.blocked_by.len() == issue.blocked_by@.len(),
        forall|i: int|
            0 <= i < issue.blocked_by@.len() ==> #[trigger] issue@.blocked_by[i]
                == issue.blocked_by@[i]@,
        issue@.created_at == issue.created_at,
        issue@.updated_at == issue.updated_at,
        issue.project is None ==> issue@.project is None,
        issue.project matches Some(p) ==> issue@.project == Some(p@),
        issue@.source_data == opt_text(issue.source_data),
        issue.project matches Some(p) ==> issue@.slug() == Some(p.slug@),
        issue.project is None ==> issue@.slug() is None,
        blocker@.id == opt_text(blocker.id),
        blocker@.identifier == opt_text(blocker.identifier),
        blocker@.state == opt_text(blocker.state),
        comment@.id == comment.id@,
        comment@.issue_id == comment.issue_id@,
        comment@.body == comment.body@,
        comment@.created_at == comment.created_at,
{
}

/// The models of issues and of comments stand in the same order, one for each.
pub proof fn models_stand_in_order(issues: Seq<Issue>, comments: Seq<Comment>, i: int)
    ensures
        issue_views(issues).len() == issues.len(),
        0 <= i < issues.len() ==> issue_views(issues)[i] == issues[i]@,
        comment_views(comments).len() == comments.len(),
        0 <= i < comments.len() ==> comment_views(comments)[i] == comments[i]@,
{
}

} // verus!
