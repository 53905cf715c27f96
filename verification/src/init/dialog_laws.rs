//! What the dialog asks for, and what it makes of the answers.
use vstd::prelude::*;

use crate::error::LunaError;
use crate::init::dialog::{
    dialog_start, DialogActionView, DialogEvent, DialogPhase, DialogView, StepView,
};
use crate::init::InitOptions;
use crate::path::last_name;
use crate::text::{decimal, opt_text};

verus! {

/// What is given is kept, whatever is answered.
pub open spec fn keeps_what_is_given(before: DialogView, after: DialogView) -> bool {
    &&& after.interactive == before.interactive
    &&& after.default_title == before.default_title
    &&& after.given_owner == before.given_owner
    &&& after.given_number == before.given_number
    &&& after.create == before.create
}

/// Whether a step waits in a phase for this and tells the user nothing.
pub open spec fn waits_for(
    r: (DialogView, StepView),
    phase: DialogPhase,
    action: DialogActionView,
) -> bool {
    r.0.phase == phase && r.1.action == action && r.1.notices.len() == 0
}

/// A title that is not given is made of the directory's name; the owner, the number and
/// whether a project is to be created are what the options say.
pub proof fn options_are_taken_up(options: InitOptions, interactive: bool)
    ensures
        ({
            let v = dialog_start(options, interactive);
            &&& v.interactive == interactive
            &&& (options.project_title matches Some(title) ==> v.default_title == title@)
            &&& (options.project_title is None ==> match last_name(options.target_dir@) {
                Some(name) => v.default_title == name + " backlog"@,
                None => v.default_title == "Luna Project"@,
            })
            &&& v.given_owner == opt_text(options.owner)
            &&& v.given_number == options.project_number
            &&& v.create == options.create_project
            &&& v.phase is Kind
            &&& !v.created
            &&& v.port is None
        }),
{
}

/// The local tracker needs a title, which the user is asked for where there is one, and
/// then a port.
pub proof fn local_tracker_needs_a_title_and_a_port(v: DialogView, title: String, port: u16)
    ensures
        ({
            let r = v.settles_kind("asahi"@);
            &&& keeps_what_is_given(v, r.0)
            &&& r.0.kind == "asahi"@
            &&& v.interactive ==> waits_for(
                r,
                DialogPhase::Title,
                DialogActionView::AskText { label: "Project title"@, default: v.default_title },
            )
            &&& !v.interactive ==> waits_for(r, DialogPhase::Port, DialogActionView::FindPort)
                && r.0.title == v.default_title
        }),
        v.phase is Title ==> {
            let r = v.step(DialogEvent::Text(title));
            &&& waits_for(r, DialogPhase::Port, DialogActionView::FindPort)
            &&& r.0 == (DialogView { title: title@, phase: DialogPhase::Port, ..v })
        },
        v.phase is Port ==> {
            let r = v.step(DialogEvent::Port(port));
            &&& waits_for(r, DialogPhase::Repo, DialogActionView::DetectRepo)
            &&& r.0 == (DialogView { port: Some(port), phase: DialogPhase::Repo, ..v })
        },
{
}

/// A project on GitHub needs an owner. One that is given is proposed; where none is, or
/// only the placeholder, it is found out who is logged in. A user is told what is going to
/// happen.
pub proof fn project_needs_an_owner(v: DialogView)
    ensures
        ({
            let r = v.settles_kind("github_project"@);
            let known = v.given_owner is Some && v.given_owner->Some_0 != "your-github-owner"@;
            &&& keeps_what_is_given(v, r.0)
            &&& r.0.kind == "github_project"@
            &&& v.interactive ==> r.1.notices == seq![
                "Luna will generate a GitHub Project based workflow."@,
                "If you are not logged in, run `gh auth login` first."@,
            ]
            &&& !v.interactive ==> r.1.notices.len() == 0
            &&& !known ==> r.0.phase is Login && r.1.action is DetectLogin
            &&& known && v.interactive ==> r.0.phase is Owner && r.1.action == (
            DialogActionView::AskText {
                label: "GitHub project owner"@,
                default: v.given_owner->Some_0,
            })
            &&& known && !v.interactive ==> r.0.owner == v.given_owner->Some_0
        }),
{
    reveal_strlit("github_project");
    reveal_strlit("asahi");
    assert("github_project"@.len() != "asahi"@.len());
}

/// Who is logged in is proposed as the owner, or the placeholder where nobody is; without
/// a user it is the owner.
pub proof fn login_is_proposed_as_the_owner(v: DialogView, login: Option<String>)
    requires
        v.phase is Login,
    ensures
        ({
            let r = v.step(DialogEvent::Name(login));
            let proposed = match login {
                Some(name) => name@,
                None => "your-github-owner"@,
            };
            &&& keeps_what_is_given(v, r.0)
            &&& v.interactive ==> waits_for(
                r,
                DialogPhase::Owner,
                DialogActionView::AskText { label: "GitHub project owner"@, default: proposed },
            )
            &&& !v.interactive ==> r.0.owner == proposed
        }),
{
}

/// The project of an owner whom the user has named: its title is asked for where one is to
/// be created, else whether one is, which is proposed where no number is given.
pub proof fn user_decides_about_the_project(v: DialogView, owner: String)
    requires
        v.phase is Owner,
        v.interactive,
    ensures
        ({
            let r = v.step(DialogEvent::Text(owner));
            &&& r.0 == (DialogView { owner: owner@, phase: r.0.phase, ..v })
            &&& v.create ==> waits_for(
                r,
                DialogPhase::NewTitle,
                DialogActionView::AskText {
                    label: "GitHub project title"@,
                    default: v.default_title,
                },
            )
            &&& !v.create ==> waits_for(
                r,
                DialogPhase::Create,
                DialogActionView::AskConfirm {
                    label: "Create a new GitHub Project now?"@,
                    default: v.given_number is None,
                },
            )
        }),
{
}

/// Without a user, a project is created where the options ask for one, with the title that
/// they give; else it is the one whose number they give, or the first.
pub proof fn options_decide_without_a_user(v: DialogView, login: Option<String>)
    requires
        v.phase is Login,
        !v.interactive,
    ensures
        ({
            let r = v.step(DialogEvent::Name(login));
            &&& r.0.title == v.default_title
            &&& v.create ==> waits_for(
                r,
                DialogPhase::Creating,
                DialogActionView::CreateProject { owner: r.0.owner, title: v.default_title },
            )
            &&& !v.create ==> waits_for(r, DialogPhase::Repo, DialogActionView::DetectRepo)
                && !r.0.created && r.0.number == match v.given_number {
                Some(n) => n,
                None => 1,
            }
        }),
{
}

/// A user who wants a new project is asked for its title, and it is created with that title
/// for the owner; one who does not is asked for the number of one that is there.
pub proof fn user_creates_a_project_or_names_one(
    v: DialogView,
    title: String,
    number: u32,
)
    ensures
        v.phase is Create ==> waits_for(
            v.step(DialogEvent::Flag(true)),
            DialogPhase::NewTitle,
            DialogActionView::AskText { label: "GitHub project title"@, default: v.default_title },
        ),
        v.phase is Create ==> waits_for(
            v.step(DialogEvent::Flag(false)),
            DialogPhase::Number,
            DialogActionView::AskNumber {
                label: "Existing GitHub project number"@,
                default: match v.given_number {
                    Some(n) => n,
                    None => 1,
                },
            },
        ),
        v.phase is NewTitle ==> {
            let r = v.step(DialogEvent::Text(title));
            &&& waits_for(
                r,
                DialogPhase::Creating,
                DialogActionView::CreateProject { owner: v.owner, title: title@ },
            )
            &&& r.0 == (DialogView { title: title@, phase: DialogPhase::Creating, ..v })
        },
        v.phase is Number ==> {
            let r = v.step(DialogEvent::Number(number));
            &&& waits_for(r, DialogPhase::Repo, DialogActionView::DetectRepo)
            &&& r.0 == (DialogView {
                number,
                title: v.default_title,
                created: false,
                phase: DialogPhase::Repo,
                ..v
            })
        },
{
}

/// A project that was created is the one, by its number. A user is told of it and asked
/// whether to link the repository to it, which is done for that project. Where it could not
/// be created, a user is told why; without one, the project that the options name is taken.
pub proof fn created_project_is_taken(v: DialogView, number: u32, e: LunaError)
    requires
        v.phase is Creating,
    ensures
        ({
            let r = v.step(DialogEvent::Number(number));
            &&& r.0 == (DialogView { number, created: true, phase: r.0.phase, ..v })
            &&& !v.interactive ==> waits_for(r, DialogPhase::Repo, DialogActionView::DetectRepo)
            &&& v.interactive ==> r.0.phase is Link && r.1.action == (DialogActionView::AskConfirm {
                label: "Link the current repository to that project with `gh project link`?"@,
                default: true,
            }) && r.1.notices == seq![
                "Created GitHub Project `"@ + v.title + "` with number "@ + decimal(number as nat)
                    + " for owner `"@ + v.owner + "`."@,
            ]
        }),
        ({
            let r = v.step(DialogEvent::Failed(e));
            &&& v.interactive ==> waits_for(
                r,
                DialogPhase::Finished,
                DialogActionView::Finish(Err(e@)),
            )
            &&& !v.interactive ==> waits_for(r, DialogPhase::Repo, DialogActionView::DetectRepo)
                && !r.0.created && r.0.number == match v.given_number {
                Some(n) => n,
                None => 1,
            }
        }),
{
}

/// The repository is linked where the user wants it, to the project that was created.
pub proof fn repository_is_linked_on_request(v: DialogView)
    ensures
        v.phase is Link ==> waits_for(
            v.step(DialogEvent::Flag(true)),
            DialogPhase::Linking,
            DialogActionView::LinkRepo { owner: v.owner, number: v.number },
        ),
        v.phase is Link ==> waits_for(
            v.step(DialogEvent::Flag(false)),
            DialogPhase::Repo,
            DialogActionView::DetectRepo,
        ),
        v.phase is Linking ==> waits_for(
            v.step(DialogEvent::Done),
            DialogPhase::Repo,
            DialogActionView::DetectRepo,
        ),
{
}

/// The dialog ends with what has been settled: for the local tracker the title, the port and
/// the database; for a project its owner, its number, its title and whether it was created;
/// and the repository, where there is one.
pub proof fn settled_answers_are_the_outcome(v: DialogView, repo: Option<String>)
    requires
        v.phase is Repo,
    ensures
        ({
            let r = v.step(DialogEvent::Name(repo));
            &&& r.0.phase is Finished
            &&& r.1.notices.len() == 0
            &&& r.1.action is Finish
            &&& r.1.action->Finish_0 is Ok
            &&& ({
                let c = r.1.action->Finish_0->Ok_0;
                &&& c.tracker_kind == v.kind
                &&& c.project_title == v.title
                &&& c.repo_name_with_owner == opt_text(repo)
                &&& v.kind == "asahi"@ ==> c.asahi_port == v.port && c.asahi_db == Some(
                    "./asahi.db"@,
                ) && !c.created_project && c.owner == "your-github-owner"@ && c.project_number == 1
                &&& v.kind != "asahi"@ ==> c.owner == v.owner && c.project_number == v.number
                    && c.created_project == v.created && c.asahi_port is None && c.asahi_db is None
            })
        }),
{
}

/// Any other failure ends the dialog for that reason.
pub proof fn failures_end_the_dialog(v: DialogView, e: LunaError)
    requires
        !(v.phase is Creating),
    ensures
        waits_for(
            v.step(DialogEvent::Failed(e)),
            DialogPhase::Finished,
            DialogActionView::Finish(Err(e@)),
        ),
{
}

} // verus!
