//! What a new project's files and the questions about it hold.
use vstd::prelude::*;

use crate::error::ErrorView;
use crate::init::files::{gh_answer, gitignore_after, missing_entries, summary_of};
use crate::init::prompt::{answer_or, choice_lines, means_yes};
use crate::init::template::workflow_text;
use crate::init::InitView;
use crate::text::{decimal, joined, lines_of, trimmed};

verus! {

/// Whether a line of a text is this entry, with or without white space around it.
pub open spec fn stands_in(entry: Seq<char>, lines: Seq<Seq<char>>) -> bool {
    exists|i: int| 0 <= i < lines.len() && trimmed(#[trigger] lines[i]) == entry
}

/// The entries that are missing are those that stand on no line, in their order.
pub proof fn missing_entries_stand_on_no_line(
    lines: Seq<Seq<char>>,
    entries: Seq<Seq<char>>,
    entry: Seq<char>,
)
    ensures
        missing_entries(lines, Seq::empty()).len() == 0,
        stands_in(entry, lines) ==> missing_entries(lines, entries.push(entry)) == missing_entries(
            lines,
            entries,
        ),
        !stands_in(entry, lines) ==> missing_entries(lines, entries.push(entry))
            == missing_entries(lines, entries).push(entry),
{
    assert(entries.push(entry).drop_last() =~= entries);
    if stands_in(entry, lines) {
        let i = choose|i: int| 0 <= i < lines.len() && trimmed(#[trigger] lines[i]) == entry;
        assert(trimmed(lines[i]) == entry);
    }
}

/// An ignore file that is not there gets every entry on a line; one that is there gets those
/// that it misses, behind what it holds and on lines of their own; and one that misses
/// nothing is not written.
pub proof fn ignore_file_gets_what_it_misses(text: Seq<char>, entries: Seq<Seq<char>>)
    ensures
        gitignore_after(None, entries) == Some(joined(entries, "\n"@) + "\n"@),
        ({
            let missing = missing_entries(lines_of(text), entries);
            let after = gitignore_after(Some(text), entries);
            &&& missing.len() == 0 ==> after is None
            &&& missing.len() > 0 && text.len() > 0 && text.last() == '\n' ==> after == Some(
                text + joined(missing, "\n"@) + "\n"@,
            )
            &&& missing.len() > 0 && !(text.len() > 0 && text.last() == '\n') ==> after == Some(
                text + "\n"@ + joined(missing, "\n"@) + "\n"@,
            )
        }),
{
    reveal_strlit("\n");
    let missing = missing_entries(lines_of(text), entries);
    assert(joined(entries, "\n"@).push('\n') =~= joined(entries, "\n"@) + "\n"@);
    if missing.len() > 0 {
        let after = gitignore_after(Some(text), entries)->Some_0;
        if text.len() > 0 && text.last() == '\n' {
            assert(after =~= text + joined(missing, "\n"@) + "\n"@);
        } else {
            assert(after =~= text + "\n"@ + joined(missing, "\n"@) + "\n"@);
        }
    }
}

/// The workflow file of a project begins with the tracker's settings: for the local tracker
/// its database and its port, for a project its owner and its number.
pub proof fn workflow_names_its_tracker(c: InitView)
    ensures
        c.tracker_kind == "asahi"@ ==> ("---\n"@ + ("tracker:\n  kind: asahi\n  db: "@ + (
        match c.asahi_db {
            Some(db) => db,
            None => "./asahi.db"@,
        }) + "\n  port: "@ + decimal(
            (match c.asahi_port {
                Some(port) => port,
                None => 8080,
            }) as nat,
        ))).is_prefix_of(workflow_text(c)),
        c.tracker_kind != "asahi"@ ==> ("---\n"@ + ("tracker:\n  kind: github_project\n  owner: "@
            + c.owner + "\n  project_number: "@ + decimal(c.project_number as nat)
            + "\n  status_field: Status\n  priority_field: Priority\n  gh_command: gh\n  active_states:\n    - Todo\n    - In Progress\n  terminal_states:\n    - Done"@)).is_prefix_of(
            workflow_text(c),
        ),
{
    let text = workflow_text(c);
    if c.tracker_kind == "asahi"@ {
        let front = "---\n"@ + ("tracker:\n  kind: asahi\n  db: "@ + (match c.asahi_db {
            Some(db) => db,
            None => "./asahi.db"@,
        }) + "\n  port: "@ + decimal(
            (match c.asahi_port {
                Some(port) => port,
                None => 8080,
            }) as nat,
        ));
        assert(text.subrange(0, front.len() as int) =~= front);
    } else {
        let front = "---\n"@ + ("tracker:\n  kind: github_project\n  owner: "@ + c.owner
            + "\n  project_number: "@ + decimal(c.project_number as nat)
            + "\n  status_field: Status\n  priority_field: Priority\n  gh_command: gh\n  active_states:\n    - Todo\n    - In Progress\n  terminal_states:\n    - Done"@);
        assert(text.subrange(0, front.len() as int) =~= front);
    }
}

/// The summary names the project and its tracker, and of a project on GitHub how to open it
/// where it was created, or how to create it where it was not.
pub proof fn summary_says_what_was_set_up(c: InitView)
    ensures
        summary_of(c).len() == 2,
        c.tracker_kind == "asahi"@ && c.asahi_db is Some && c.asahi_port is Some ==> summary_of(c)
            == seq![
            "Configured Luna for Asahi tracker `"@ + c.project_title + "` (db: "@
                + c.asahi_db->Some_0 + ", port: "@ + decimal(c.asahi_port->Some_0 as nat) + ")."@,
            "Luna will embed asahi automatically when running."@,
        ],
        c.tracker_kind != "asahi"@ ==> summary_of(c)[0] == "Configured Luna for GitHub Project `"@
            + c.project_title + "` (owner `"@ + c.owner + "`, number "@ + decimal(
            c.project_number as nat,
        ) + ")."@,
        c.tracker_kind != "asahi"@ && c.created_project ==> summary_of(c)[1]
            == "Project created. Open it with: gh project view "@ + decimal(
            c.project_number as nat,
        ) + " --owner "@ + c.owner + " --web"@,
        c.tracker_kind != "asahi"@ && !c.created_project ==> summary_of(c)[1]
            == "Project not created by Luna. If needed, create one with: gh project create --owner "@
            + c.owner + " --title \""@ + c.project_title + "\""@,
{
}

/// A command that went well says what it wrote; one that failed says what it was and what
/// it complained of.
pub proof fn failed_command_is_named(
    args: Seq<Seq<char>>,
    stdout: Seq<char>,
    stderr: Seq<char>,
)
    ensures
        gh_answer(args, true, stdout, stderr) == Ok::<Seq<char>, ErrorView>(stdout),
        gh_answer(args, false, stdout, stderr) == Err::<Seq<char>, ErrorView>(
            ErrorView::InvalidConfig(
                "`gh "@ + joined(args, " "@) + "` failed: "@ + trimmed(stderr),
            ),
        ),
{
}

/// What a user answers counts, without white space around it; where nothing is answered, the
/// default does. Only the two words for yes mean yes.
pub proof fn answers_count_before_defaults(input: Seq<char>, default: Seq<char>, proposed: bool)
    ensures
        trimmed(input).len() > 0 ==> answer_or(input, default) == trimmed(input),
        trimmed(input).len() == 0 ==> answer_or(input, default) == default,
        input.len() == 0 ==> means_yes(input, proposed) == proposed,
        input.len() > 0 ==> (means_yes(input, proposed) <==> input == "y"@ || input == "yes"@),
{
}

/// Every choice is shown on a line, by its number and its name; the default has a star.
pub proof fn every_choice_is_shown(choices: Seq<Seq<char>>, default_index: int, n: int)
    requires
        0 <= n,
    ensures
        choice_lines(choices, default_index, 0).len() == 0,
        n == default_index ==> choice_lines(choices, default_index, n + 1) == choice_lines(
            choices,
            default_index,
            n,
        ) + ("  "@ + decimal((n + 1) as nat) + ") "@ + choices[n] + " *"@ + "\n"@),
        n != default_index ==> choice_lines(choices, default_index, n + 1) == choice_lines(
            choices,
            default_index,
            n,
        ) + ("  "@ + decimal((n + 1) as nat) + ") "@ + choices[n] + "\n"@),
{
    reveal_strlit("");
    let head = "  "@ + decimal((n + 1) as nat) + ") "@ + choices[n];
    assert(head + ""@ =~= head);
}

} // verus!
