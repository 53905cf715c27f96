//! The commands that show, comment on and move issues.
use vstd::prelude::*;

use crate::model::{BlockerRef, BlockerView, Issue, IssueView};
use crate::text::{cat, join, joined, opt_text, signed_decimal, signed_text, texts};
use crate::tracker::context::TrackerTargetOptions;

verus! {

/// A comment that is to be posted.
#[derive(Debug, Clone)]
pub struct CommentCommandOptions {
    pub target: TrackerTargetOptions,
    pub body: String,
}

/// An issue that is to be shown.
#[derive(Debug, Clone)]
pub struct ShowCommandOptions {
    pub target: TrackerTargetOptions,
    pub json: bool,
}

/// An issue that is to be moved to a state.
#[derive(Debug, Clone)]
pub struct MoveCommandOptions {
    pub target: TrackerTargetOptions,
    pub state: String,
}

/// How a blocker is shown: by its identifier, or else its id.
pub open spec fn blocker_name(b: BlockerView) -> Seq<char> {
    match b.identifier {
        Some(identifier) => identifier,
        None => match b.id {
            Some(id) => id,
            None => "unknown"@,
        },
    }
}

/// How blockers are shown.
pub open spec fn blocker_names(s: Seq<BlockerView>) -> Seq<Seq<char>> {
    Seq::new(s.len(), |i: int| blocker_name(s[i]))
}

/// A line that is there only where it has something to say.
pub open spec fn opt_line(head: Seq<char>, value: Option<Seq<char>>) -> Seq<Seq<char>> {
    match value {
        Some(value) => seq![head + value],
        None => Seq::empty(),
    }
}

/// The lines that show an issue.
pub open spec fn issue_lines(i: IssueView) -> Seq<Seq<char>> {
    seq!["Issue: "@ + i.identifier, "Title: "@ + i.title, "State: "@ + i.state] + opt_line(
        "Priority: "@,
        match i.priority {
            Some(n) => Some(signed_decimal(n as int)),
            None => None,
        },
    ) + opt_line("URL: "@, i.url) + opt_line("Branch: "@, i.branch_name) + opt_line(
        "Labels: "@,
        if i.labels.len() > 0 {
            Some(joined(i.labels, ", "@))
        } else {
            None
        },
    ) + opt_line(
        "Blocked by: "@,
        if i.blocked_by.len() > 0 {
            Some(joined(blocker_names(i.blocked_by), ", "@))
        } else {
            None
        },
    ) + match i.description {
        Some(description) => seq![Seq::empty(), "Description:"@, description],
        None => Seq::empty(),
    }
}

fn name_of(b: &BlockerRef) -> (r: String)
    ensures
        r@ == blocker_name(b@),
{
    match &b.identifier {
        Some(identifier) => identifier.clone(),
        None => match &b.id {
            Some(id) => id.clone(),
            None => "unknown".to_owned(),
        },
    }
}

fn names_of(v: &Vec<BlockerRef>) -> (r: Vec<String>)
    ensures
        texts(r@) == blocker_names(crate::model::blocker_views(v@)),
{
    let ghost s = crate::model::blocker_views(v@);
    let mut out: Vec<String> = Vec::new();
    let mut i: usize = 0;
    while i < v.len()
        invariant
            i <= v@.len(),
            s == crate::model::blocker_views(v@),
            out@.len() == i,
            forall|k: int| 0 <= k < i ==> #[trigger] out@[k]@ == blocker_name(s[k]),
        decreases v@.len() - i,
    {
        out.push(name_of(&v[i]));
        i = i + 1;
    }
    assert(texts(out@) =~= blocker_names(s));
    out
}

fn push_line(out: &mut Vec<String>, head: &str, value: Option<String>)
    ensures
        texts(final(out)@) == texts(old(out)@) + opt_line(head@, opt_text(value)),
{
    let ghost before = texts(out@);
    match value {
        Some(value) => {
            out.push(cat(head, value.as_str()));
            assert(texts(out@) =~= before + seq![head@ + value@]);
        },
        None => {
            assert(texts(out@) =~= before + Seq::<Seq<char>>::empty());
        },
    }
}

/// The text that shows an issue.
pub fn format_issue(issue: &Issue) -> (r: String)
    ensures
        r@ == joined(issue_lines(issue@), "\n"@),
{
    let mut out: Vec<String> = Vec::new();
    out.push(cat("Issue: ", issue.identifier.as_str()));
    out.push(cat("Title: ", issue.title.as_str()));
    out.push(cat("State: ", issue.state.as_str()));
    assert(texts(out@) =~= seq![
        "Issue: "@ + issue@.identifier,
        "Title: "@ + issue@.title,
        "State: "@ + issue@.state,
    ]);
    let priority = match issue.priority {
        Some(n) => Some(signed_text(n)),
        None => None,
    };
    push_line(&mut out, "Priority: ", priority);
    push_line(&mut out, "URL: ", crate::text::clone_opt(&issue.url));
    push_line(&mut out, "Branch: ", crate::text::clone_opt(&issue.branch_name));
    let labels = if issue.labels.len() > 0 {
        Some(join(issue.labels.as_slice(), ", "))
    } else {
        None
    };
    push_line(&mut out, "Labels: ", labels);
    let blockers = if issue.blocked_by.len() > 0 {
        let names = names_of(&issue.blocked_by);
        Some(join(names.as_slice(), ", "))
    } else {
        None
    };
    push_line(&mut out, "Blocked by: ", blockers);
    let ghost before = texts(out@);
    match &issue.description {
        Some(description) => {
            out.push(String::new());
            out.push("Description:".to_owned());
            out.push(description.clone());
            assert(texts(out@) =~= before + seq![
                Seq::<char>::empty(),
                "Description:"@,
                description@,
            ]);
        },
        None => {
            assert(texts(out@) =~= before + Seq::<Seq<char>>::empty());
        },
    }
    assert(texts(out@) == issue_lines(issue@));
    join(out.as_slice(), "\n")
}

} // verus!
