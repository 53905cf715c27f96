//! What the command line is given.
use vstd::prelude::*;

use crate::error::{ErrorView, LunaError};
use crate::path::{absolute, join_path, joined_path, parent};
use crate::text::{join, joined, opt_text, texts, trim, trimmed};
use crate::tracker::context::TrackerTargetOptions;

verus! {

/// Whether the text is to be read from the standard input: no argument gives it.
pub fn needs_stdin(args: &[String]) -> (r: bool)
    ensures
        r == (args@.len() == 0),
{
    args.len() == 0
}

/// The text that is given, in arguments or piped.
pub open spec fn given_text(args: Seq<Seq<char>>, piped: Option<Seq<char>>) -> Seq<char> {
    trimmed(
        if args.len() > 0 {
            joined(args, " "@)
        } else {
            match piped {
                Some(text) => text,
                None => Seq::empty(),
            }
        },
    )
}

/// The text that is given, or that it is missing.
pub open spec fn text_outcome(text: Seq<char>, missing: Seq<char>) -> Result<
    Seq<char>,
    ErrorView,
> {
    if text.len() > 0 {
        Ok(text)
    } else {
        Err(ErrorView::InvalidConfig(missing))
    }
}

/// The view of a text, or of why there is none.
pub open spec fn text_result(r: Result<String, LunaError>) -> Result<Seq<char>, ErrorView> {
    match r {
        Ok(text) => Ok(text@),
        Err(e) => Err(e@),
    }
}

/// The text that is given in arguments or else piped, without space around it.
pub fn read_text_arg_or_stdin(
    args: Vec<String>,
    piped: Option<String>,
    missing_message: &str,
) -> (r: Result<String, LunaError>)
    ensures
        text_result(r) == text_outcome(
            given_text(texts(args@), opt_text(piped)),
            missing_message@,
        ),
{
    let body = if args.len() == 0 {
        match piped {
            Some(text) => text,
            None => {
                let text = String::new();
                assert(text@ =~= Seq::empty());
                text
            },
        }
    } else {
        join(args.as_slice(), " ")
    };
    let body = trim(body.as_str());
    if body.as_str().is_empty() {
        return Err(LunaError::InvalidConfig(missing_message.to_owned()));
    }
    Ok(body)
}

/// The prompt of a job.
pub fn read_job_prompt(args: Vec<String>, piped: Option<String>) -> (r: Result<String, LunaError>)
    ensures
        text_result(r) == text_outcome(
            given_text(texts(args@), opt_text(piped)),
            "job prompt is required; pass text or pipe stdin to `luna job`"@,
        ),
{
    read_text_arg_or_stdin(
        args,
        piped,
        "job prompt is required; pass text or pipe stdin to `luna job`",
    )
}

/// The body of a comment.
pub fn read_comment_body(args: Vec<String>, piped: Option<String>) -> (r: Result<
    String,
    LunaError,
>)
    ensures
        text_result(r) == text_outcome(
            given_text(texts(args@), opt_text(piped)),
            "comment body is required; pass text or pipe stdin to `luna comment`"@,
        ),
{
    read_text_arg_or_stdin(
        args,
        piped,
        "comment body is required; pass text or pipe stdin to `luna comment`",
    )
}

/// What a command is about, given the workflow that was named or, where none was, the
/// one that was found.
pub fn resolve_tracker_target(
    workflow: Option<String>,
    found: Result<String, LunaError>,
    issue: Option<String>,
    cwd: String,
) -> (r: Result<TrackerTargetOptions, LunaError>)
    ensures
        match workflow {
            Some(path) => r is Ok && r->Ok_0.workflow_path@ == joined_path(cwd@, path@),
            None => match found {
                Ok(path) => r is Ok && r->Ok_0.workflow_path == path,
                Err(e) => r == Err::<TrackerTargetOptions, LunaError>(e),
            },
        },
        r matches Ok(target) ==> target.issue_locator == issue && target.cwd == cwd,
{
    let workflow_path = match workflow {
        Some(path) => join_path(cwd.as_str(), path.as_str()),
        None => match found {
            Ok(path) => path,
            Err(e) => {
                return Err(e);
            },
        },
    };
    Ok(TrackerTargetOptions { workflow_path, issue_locator: issue, cwd })
}

/// The file beside a workflow that sets the environment.
pub open spec fn env_file(workflow: Seq<char>) -> Seq<char> {
    joined_path(
        match crate::path::parent_path(workflow) {
            Some(dir) => dir,
            None => "."@,
        },
        ".env.luna"@,
    )
}

/// The file beside a workflow that sets the environment.
pub fn dotenv_path(workflow_path: &str) -> (r: String)
    ensures
        r@ == env_file(workflow_path@),
{
    match parent(workflow_path) {
        Some(dir) => join_path(dir.as_str(), ".env.luna"),
        None => join_path(".", ".env.luna"),
    }
}

/// A workflow that is named becomes an absolute path.
pub proof fn named_workflow_is_absolute(cwd: Seq<char>, path: Seq<char>)
    requires
        absolute(cwd),
    ensures
        absolute(joined_path(cwd, path)),
{
}

/// What stands in the arguments counts, with blanks between them, and what is piped only
/// where there are none; white space around it does not count. Where nothing is left, that
/// is refused.
pub proof fn arguments_count_before_what_is_piped(
    args: Seq<Seq<char>>,
    piped: Option<Seq<char>>,
    text: Seq<char>,
    missing: Seq<char>,
)
    ensures
        args.len() > 0 ==> given_text(args, piped) == trimmed(joined(args, " "@)),
        given_text(Seq::empty(), Some(text)) == trimmed(text),
        given_text(Seq::empty(), None).len() == 0,
        text.len() > 0 ==> text_outcome(text, missing) == Ok::<Seq<char>, ErrorView>(text),
        text.len() == 0 ==> text_outcome(text, missing) == Err::<Seq<char>, ErrorView>(
            ErrorView::InvalidConfig(missing),
        ),
{
}

/// The environment is set by the file `.env.luna` in the workflow's directory.
pub proof fn environment_stands_beside_the_workflow(workflow: Seq<char>)
    ensures
        crate::path::parent_path(workflow) matches Some(dir) ==> env_file(workflow)
            == joined_path(dir, ".env.luna"@),
        crate::path::parent_path(workflow) is None ==> env_file(workflow) == joined_path(
            "."@,
            ".env.luna"@,
        ),
{
}

} // verus!
