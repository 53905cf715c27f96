//! Starting a new project.
//!
//! The dialog that settles how a project is set up alternates questions, to the user
//! and to GitHub, with decisions. `InitDialog` holds the decisions.
use vstd::prelude::*;

use crate::error::{ErrorView, LunaError};
use crate::path::{file_name, last_name};
use crate::text::{cat, cat3, opt_text, same_text};

pub mod dialog;
pub mod dialog_laws;
pub mod files;
pub mod files_laws;
pub mod prompt;
pub mod template;

verus! {

/// How a project is to be set up.
#[derive(Clone, Debug, Default)]
pub struct InitOptions {
    pub target_dir: String,
    pub force: bool,
    pub owner: Option<String>,
    pub project_number: Option<u32>,
    pub create_project: bool,
    pub project_title: Option<String>,
    pub non_interactive: bool,
    pub tracker_kind: Option<String>,
}

/// How a project is set up.
#[derive(Clone, Debug)]
pub struct InitContext {
    pub tracker_kind: String,
    pub owner: String,
    pub project_number: u32,
    pub project_title: String,
    pub repo_name_with_owner: Option<String>,
    pub created_project: bool,
    pub asahi_port: Option<u16>,
    pub asahi_db: Option<String>,
}

/// The model of how a project is set up.
pub ghost struct InitView {
    pub tracker_kind: Seq<char>,
    pub owner: Seq<char>,
    pub project_number: u32,
    pub project_title: Seq<char>,
    pub repo_name_with_owner: Option<Seq<char>>,
    pub created_project: bool,
    pub asahi_port: Option<u16>,
    pub asahi_db: Option<Seq<char>>,
}

impl InitContext {
    /// The model of how the project is set up.
    pub open spec fn view(&self) -> InitView {
        InitView {
            tracker_kind: self.tracker_kind@,
            owner: self.owner@,
            project_number: self.project_number,
            project_title: self.project_title@,
            repo_name_with_owner: opt_text(self.repo_name_with_owner),
            created_project: self.created_project,
            asahi_port: self.asahi_port,
            asahi_db: opt_text(self.asahi_db),
        }
    }
}

/// The owner of a project where none is known.
pub const DEFAULT_OWNER: &'static str = "your-github-owner";

/// The number of a project where none is known.
pub const DEFAULT_PROJECT_NUMBER: u32 = 1;

/// The title of a project where none is known.
pub const DEFAULT_PROJECT_TITLE: &'static str = "Luna Project";

/// Whether a kind of tracker is the local one.
pub open spec fn is_asahi(kind: Seq<char>) -> bool {
    kind == "asahi"@
}

/// The kind of tracker that is asked for, where it is one of the two; a GitHub
/// project where nothing is asked for.
pub fn normalize_tracker_kind(value: Option<&str>) -> (r: Result<String, LunaError>)
    ensures
        ({
            let kind = match value {
                Some(kind) => kind@,
                None => "github_project"@,
            };
            if kind == "github_project"@ || kind == "asahi"@ {
                r matches Ok(k) && k@ == kind
            } else {
                r matches Err(e) && e@ == ErrorView::InvalidConfig(
                    "unknown tracker kind `"@ + kind + "`; expected github_project or asahi"@,
                )
            }
        }),
{
    let kind = match value {
        Some(kind) => kind,
        None => "github_project",
    };
    if same_text(kind, "github_project") || same_text(kind, "asahi") {
        Ok(kind.to_owned())
    } else {
        Err(
            LunaError::InvalidConfig(
                cat3("unknown tracker kind `", kind, "`; expected github_project or asahi"),
            ),
        )
    }
}

/// The title of a project in a directory: named after the directory, where that has
/// a name.
pub open spec fn title_of(target_dir: Seq<char>) -> Seq<char> {
    match last_name(target_dir) {
        Some(name) => name + " backlog"@,
        None => DEFAULT_PROJECT_TITLE@,
    }
}

/// The title of a project in a directory.
pub fn default_project_title(target_dir: &str) -> (r: String)
    ensures
        r@ == title_of(target_dir@),
{
    match file_name(target_dir) {
        Some(name) => cat(name.as_str(), " backlog"),
        None => DEFAULT_PROJECT_TITLE.to_owned(),
    }
}

} // verus!
