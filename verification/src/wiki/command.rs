//! The command that browses the wiki of an issue's project.
use vstd::prelude::*;

use crate::config::{AsahiTrackerConfig, TrackerConfig};
use crate::domain::project::ProjectRef;
use crate::error::{ErrorView, LunaError};
use crate::model::Issue;
use crate::text::{clone_opt, join, joined, texts};
use crate::tracker::context::TrackerTargetOptions;

verus! {

/// A shell command that is to run over a wiki.
#[derive(Debug, Clone)]
pub struct WikiCommandOptions {
    pub target: TrackerTargetOptions,
    pub args: Vec<String>,
}

/// What a shell command left behind.
#[derive(Debug, Clone)]
pub struct WikiOutput {
    pub stdout: String,
    pub stderr: String,
    pub exit_code: i32,
}

/// What is to be done once the wiki is there.
#[derive(Debug, Clone)]
pub enum WikiStep {
    Run(String),
    Finish(WikiOutput),
}

/// The tracker that holds wikis: there is only one kind.
pub fn wiki_tracker(tracker: &TrackerConfig) -> (r: Result<AsahiTrackerConfig, LunaError>)
    ensures
        match *tracker {
            TrackerConfig::Asahi(config) => r == Ok::<AsahiTrackerConfig, LunaError>(config),
            _ => r is Err && r->Err_0@ == ErrorView::Tracker(
                "wiki is only supported with the asahi tracker"@,
            ),
        },
{
    match tracker {
        TrackerConfig::Asahi(config) => Ok(
            AsahiTrackerConfig {
                endpoint: config.endpoint.clone(),
                db: clone_opt(&config.db),
                port: config.port,
            },
        ),
        TrackerConfig::GitHubProject(_) => Err(
            LunaError::Tracker("wiki is only supported with the asahi tracker".to_owned()),
        ),
    }
}

/// The project whose wiki is browsed.
pub fn wiki_project(issue: Issue) -> (r: Result<ProjectRef, LunaError>)
    ensures
        match issue.project {
            Some(project) => r == Ok::<ProjectRef, LunaError>(project),
            None => r is Err && r->Err_0@ == ErrorView::Tracker(
                "wiki requires an issue associated with a project"@,
            ),
        },
{
    match issue.project {
        Some(project) => Ok(project),
        None => Err(
            LunaError::Tracker("wiki requires an issue associated with a project".to_owned()),
        ),
    }
}

/// The shell command that the arguments are.
pub open spec fn shell_command(args: Seq<Seq<char>>) -> Seq<char> {
    if args.len() == 0 {
        "ls"@
    } else {
        joined(args, " "@)
    }
}

/// What is to be done with a wiki of so many nodes: an empty one runs no command.
pub fn run_wiki_command(nodes: usize, args: &[String]) -> (r: WikiStep)
    ensures
        match r {
            WikiStep::Finish(output) => nodes == 0 && output.stdout@ == ""@ && output.stderr@
                == "project wiki is empty"@ && output.exit_code == 0,
            WikiStep::Run(command) => nodes > 0 && command@ == shell_command(texts(args@)),
        },
{
    if nodes == 0 {
        return WikiStep::Finish(
            WikiOutput {
                stdout: "".to_owned(),
                stderr: "project wiki is empty".to_owned(),
                exit_code: 0,
            },
        );
    }
    if args.len() == 0 {
        WikiStep::Run("ls".to_owned())
    } else {
        WikiStep::Run(join(args, " "))
    }
}

/// The arguments make up the command, with blanks between them; without any the wiki is
/// listed.
pub proof fn arguments_make_up_the_command(args: Seq<Seq<char>>, last: Seq<char>)
    ensures
        shell_command(Seq::empty()) == "ls"@,
        shell_command(seq![last]) == last,
        args.len() > 0 ==> shell_command(args.push(last)) == shell_command(args) + " "@ + last,
{
    assert(args.push(last).drop_last() =~= args);
}

} // verus!
