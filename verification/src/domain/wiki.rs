//! Wiki folders and pages.
use vstd::prelude::*;

use crate::text::{
    eq_ignore_case, lower, same_ignoring_case, same_text, to_ascii_lower, trim, trimmed,
};
use crate::time::Timestamp;

verus! {

/// What a wiki node is.
#[derive(Clone, Copy, Debug, PartialEq, Eq, Structural)]
pub enum WikiNodeKind {
    Folder,
    Page,
}

impl WikiNodeKind {
    /// The name of the kind.
    pub open spec fn name(self) -> Seq<char> {
        match self {
            WikiNodeKind::Folder => "folder"@,
            WikiNodeKind::Page => "page"@,
        }
    }

    /// The kind that a text names: its name in any case, with white space around it.
    pub open spec fn named(value: Seq<char>) -> Option<WikiNodeKind> {
        let word = lower(trimmed(value));
        if word == "folder"@ {
            Some(WikiNodeKind::Folder)
        } else if word == "page"@ {
            Some(WikiNodeKind::Page)
        } else {
            None
        }
    }

    /// The name of the kind.
    pub fn as_str(&self) -> (r: &'static str)
        ensures
            r@ == self.name(),
    {
        match self {
            WikiNodeKind::Folder => "folder",
            WikiNodeKind::Page => "page",
        }
    }

    /// The kind that `value` names.
    pub fn parse(value: &str) -> (r: Option<WikiNodeKind>)
        ensures
            r == WikiNodeKind::named(value@),
    {
        let bare = trim(value);
        let word = to_ascii_lower(bare.as_str());
        if same_text(word.as_str(), "folder") {
            Some(WikiNodeKind::Folder)
        } else if same_text(word.as_str(), "page") {
            Some(WikiNodeKind::Page)
        } else {
            None
        }
    }
}

/// The name of a kind names that kind.
pub proof fn kind_reads_back(kind: WikiNodeKind)
    ensures
        WikiNodeKind::named(kind.name()) == Some(kind),
{
    reveal_strlit("folder");
    reveal_strlit("page");
    assert(lower("folder"@) =~= "folder"@);
    assert(lower("page"@) =~= "page"@);
    assert(trimmed("folder"@) == "folder"@);
    assert(trimmed("page"@) == "page"@);
    assert("folder"@.len() != "page"@.len());
}

/// A version of a wiki page.
#[derive(Clone, Debug, PartialEq, Eq)]
pub struct WikiVersionRef {
    pub id: String,
    pub version: i64,
    pub created_at: Option<Timestamp>,
}

/// A folder or a page of a project's wiki.
#[derive(Clone, Debug, PartialEq, Eq)]
pub struct WikiNode {
    pub id: String,
    pub project_id: String,
    pub parent_id: Option<String>,
    pub kind: WikiNodeKind,
    pub title: String,
    pub slug: String,
    pub content: Option<String>,
    pub current_version: Option<WikiVersionRef>,
    pub created_at: Option<Timestamp>,
    pub updated_at: Option<Timestamp>,
    pub deleted_at: Option<Timestamp>,
}

/// The text of a page at one version.
#[derive(Clone, Debug, PartialEq, Eq)]
pub struct WikiPageVersion {
    pub id: String,
    pub page_id: String,
    pub version: i64,
    pub title: String,
    pub content: String,
    pub actor_kind: String,
    pub actor_id: Option<String>,
    pub summary: Option<String>,
    pub created_at: Option<Timestamp>,
}

/// One change to a wiki, as it was recorded.
#[derive(Clone, Debug, PartialEq, Eq)]
pub struct WikiAudit {
    pub id: String,
    pub project_id: String,
    pub node_id: String,
    pub version_id: Option<String>,
    pub action: String,
    pub actor_kind: String,
    pub actor_id: Option<String>,
    pub summary: Option<String>,
    pub created_at: Option<Timestamp>,
}

/// A locator names a node by its id, or by its slug in any case.
pub open spec fn names_node(id: Seq<char>, slug: Seq<char>, locator: Seq<char>) -> bool {
    id == locator || same_ignoring_case(slug, locator)
}

/// Whether `locator` names `node`.
pub fn wiki_node_matches_locator(node: &WikiNode, locator: &str) -> (r: bool)
    ensures
        r == names_node(node.id@, node.slug@, locator@),
{
    same_text(node.id.as_str(), locator) || eq_ignore_case(node.slug.as_str(), locator)
}

/// A node answers to its own id and to its own slug.
pub proof fn node_answers_to_itself(id: Seq<char>, slug: Seq<char>)
    ensures
        names_node(id, slug, id),
        names_node(id, slug, slug),
{
}

/// A node answers to nothing but its id and, in any case, its slug.
pub proof fn node_answers_to_nothing_else(id: Seq<char>, slug: Seq<char>, locator: Seq<char>)
    ensures
        names_node(id, slug, locator) <==> locator == id || same_ignoring_case(slug, locator),
{
}

/// A kind is named by its word in any case and with white space around it, and by nothing
/// else.
pub proof fn kinds_are_named_in_any_case(value: Seq<char>)
    ensures
        same_ignoring_case(trimmed(value), "folder"@) ==> WikiNodeKind::named(value) == Some(
            WikiNodeKind::Folder,
        ),
        same_ignoring_case(trimmed(value), "page"@) ==> WikiNodeKind::named(value) == Some(
            WikiNodeKind::Page,
        ),
        !same_ignoring_case(trimmed(value), "folder"@) && !same_ignoring_case(
            trimmed(value),
            "page"@,
        ) ==> WikiNodeKind::named(value) is None,
{
    reveal_strlit("folder");
    reveal_strlit("page");
    assert(lower("folder"@) =~= "folder"@);
    assert(lower("page"@) =~= "page"@);
    assert("folder"@.len() != "page"@.len());
}

} // verus!
