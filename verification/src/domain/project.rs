//! Projects.
use vstd::prelude::*;

use crate::text::{eq_ignore_case, same_ignoring_case, same_text};
use crate::time::Timestamp;

verus! {

/// The part of a project that an issue carries.
#[derive(Clone, Debug, PartialEq, Eq)]
pub struct ProjectRef {
    pub id: String,
    pub slug: String,
    pub name: String,
    pub state: String,
    pub priority: Option<i64>,
}

/// A project.
#[derive(Clone, Debug, PartialEq, Eq)]
pub struct Project {
    pub id: String,
    pub slug: String,
    pub name: String,
    pub description: Option<String>,
    pub priority: Option<i64>,
    pub state: String,
    pub url: Option<String>,
    pub created_at: Option<Timestamp>,
    pub updated_at: Option<Timestamp>,
}

/// The model of a project reference.
pub struct ProjectRefView {
    pub id: Seq<char>,
    pub slug: Seq<char>,
    pub name: Seq<char>,
    pub state: Seq<char>,
    pub priority: Option<i64>,
}

impl View for ProjectRef {
    type V = ProjectRefView;

    open spec fn view(&self) -> ProjectRefView {
        ProjectRefView {
            id: self.id@,
            slug: self.slug@,
            name: self.name@,
            state: self.state@,
            priority: self.priority,
        }
    }
}

/// A copy of a project reference.
pub fn clone_project_ref(p: &ProjectRef) -> (r: ProjectRef)
    ensures
        r == *p,
{
    ProjectRef {
        id: p.id.clone(),
        slug: p.slug.clone(),
        name: p.name.clone(),
        state: p.state.clone(),
        priority: p.priority,
    }
}

/// A locator names a project by its id, or by its slug in any case.
pub open spec fn names_project(id: Seq<char>, slug: Seq<char>, locator: Seq<char>) -> bool {
    id == locator || same_ignoring_case(slug, locator)
}

/// Whether `locator` names `project`.
pub fn project_matches_locator(project: &Project, locator: &str) -> (r: bool)
    ensures
        r == names_project(project.id@, project.slug@, locator@),
{
    same_text(project.id.as_str(), locator) || eq_ignore_case(project.slug.as_str(), locator)
}

/// A project answers to its own id and to its own slug.
pub proof fn project_answers_to_itself(id: Seq<char>, slug: Seq<char>)
    ensures
        names_project(id, slug, id),
        names_project(id, slug, slug),
{
}

/// A project answers to nothing but its id and, in any case, its slug.
pub proof fn project_answers_to_nothing_else(id: Seq<char>, slug: Seq<char>, locator: Seq<char>)
    ensures
        names_project(id, slug, locator) <==> locator == id || same_ignoring_case(slug, locator),
{
}

} // verus!
