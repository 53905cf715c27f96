//! The dialog that settles how a new project is set up.
use vstd::prelude::*;

use crate::error::{ErrorView, LunaError};
use crate::init::{
    default_project_title, is_asahi, normalize_tracker_kind, title_of, InitContext, InitOptions,
    InitView, DEFAULT_OWNER, DEFAULT_PROJECT_NUMBER,
};
use crate::text::{clone_opt, decimal, opt_text, same_text, texts, unsigned_text};

verus! {

/// The answer that the dialog waits for.
#[derive(Clone, Copy, Debug, PartialEq, Eq, Structural)]
pub enum DialogPhase {
    Kind,
    Title,
    Port,
    Login,
    Owner,
    Create,
    NewTitle,
    Creating,
    Link,
    Linking,
    Number,
    Repo,
    Finished,
}

/// What is to be asked or done next.
#[derive(Debug)]
pub enum DialogAction {
    /// Ask the user for one of these.
    AskChoice { label: String, choices: Vec<String>, default_index: usize },
    /// Ask the user for a text.
    AskText { label: String, default: String },
    /// Ask the user for yes or no.
    AskConfirm { label: String, default: bool },
    /// Ask the user for a number.
    AskNumber { label: String, default: u32 },
    /// Find a port that is free.
    FindPort,
    /// Ask `gh` who is logged in.
    DetectLogin,
    /// Let `gh` create a project.
    CreateProject { owner: String, title: String },
    /// Let `gh` link the repository to a project.
    LinkRepo { owner: String, number: u32 },
    /// Ask `gh` for the repository.
    DetectRepo,
    /// The dialog has ended like this.
    Finish(Result<InitContext, LunaError>),
}

/// What is told to the user, and what is to be asked or done next.
#[derive(Debug)]
pub struct DialogStep {
    pub notices: Vec<String>,
    pub action: DialogAction,
}

/// An answer.
#[derive(Debug)]
pub enum DialogEvent {
    Text(String),
    Flag(bool),
    Number(u32),
    Port(u16),
    Name(Option<String>),
    Done,
    Failed(LunaError),
}

/// The model of an action.
pub ghost enum DialogActionView {
    AskChoice { label: Seq<char>, choices: Seq<Seq<char>>, default_index: usize },
    AskText { label: Seq<char>, default: Seq<char> },
    AskConfirm { label: Seq<char>, default: bool },
    AskNumber { label: Seq<char>, default: u32 },
    FindPort,
    DetectLogin,
    CreateProject { owner: Seq<char>, title: Seq<char> },
    LinkRepo { owner: Seq<char>, number: u32 },
    DetectRepo,
    Finish(Result<InitView, ErrorView>),
}

/// The model of a step.
#[verifier::ext_equal]
pub ghost struct StepView {
    pub notices: Seq<Seq<char>>,
    pub action: DialogActionView,
}

impl DialogAction {
    /// The model of the action.
    pub open spec fn view(&self) -> DialogActionView {
        match self {
            DialogAction::AskChoice { label, choices, default_index } =>
                DialogActionView::AskChoice {
                label: label@,
                choices: texts(choices@),
                default_index: *default_index,
            },
            DialogAction::AskText { label, default } => DialogActionView::AskText {
                label: label@,
                default: default@,
            },
            DialogAction::AskConfirm { label, default } => DialogActionView::AskConfirm {
                label: label@,
                default: *default,
            },
            DialogAction::AskNumber { label, default } => DialogActionView::AskNumber {
                label: label@,
                default: *default,
            },
            DialogAction::FindPort => DialogActionView::FindPort,
            DialogAction::DetectLogin => DialogActionView::DetectLogin,
            DialogAction::CreateProject { owner, title } => DialogActionView::CreateProject {
                owner: owner@,
                title: title@,
            },
            DialogAction::LinkRepo { owner, number } => DialogActionView::LinkRepo {
                owner: owner@,
                number: *number,
            },
            DialogAction::DetectRepo => DialogActionView::DetectRepo,
            DialogAction::Finish(result) => DialogActionView::Finish(
                match *result {
                    Ok(context) => Ok(context@),
                    Err(e) => Err(e@),
                },
            ),
        }
    }
}

impl DialogStep {
    /// The model of the step.
    pub open spec fn view(&self) -> StepView {
        StepView { notices: texts(self.notices@), action: self.action@ }
    }
}

/// A step without notices.
pub open spec fn quietly(action: DialogActionView) -> StepView {
    StepView { notices: Seq::empty(), action }
}

/// The model of the dialog: what is given, and what has been settled.
#[verifier::ext_equal]
pub ghost struct DialogView {
    pub interactive: bool,
    pub default_title: Seq<char>,
    pub given_owner: Option<Seq<char>>,
    pub given_number: Option<u32>,
    pub create: bool,
    pub phase: DialogPhase,
    pub kind: Seq<char>,
    pub owner: Seq<char>,
    pub number: u32,
    pub title: Seq<char>,
    pub created: bool,
    pub port: Option<u16>,
}

/// Which answers fit a phase.
pub open spec fn dialog_answers(phase: DialogPhase, event: DialogEvent) -> bool {
    match phase {
        DialogPhase::Kind => event is Text || event is Failed,
        DialogPhase::Title => event is Text || event is Failed,
        DialogPhase::Port => event is Port || event is Failed,
        DialogPhase::Login => event is Name,
        DialogPhase::Owner => event is Text || event is Failed,
        DialogPhase::Create => event is Flag || event is Failed,
        DialogPhase::NewTitle => event is Text || event is Failed,
        DialogPhase::Creating => event is Number || event is Failed,
        DialogPhase::Link => event is Flag || event is Failed,
        DialogPhase::Linking => event is Done || event is Failed,
        DialogPhase::Number => event is Number || event is Failed,
        DialogPhase::Repo => event is Name,
        DialogPhase::Finished => false,
    }
}

impl DialogView {
    /// The number of the project where none is created.
    pub open spec fn fallback_number(self) -> u32 {
        match self.given_number {
            Some(n) => n,
            None => DEFAULT_PROJECT_NUMBER,
        }
    }

    /// The repository is the last thing to find out.
    pub open spec fn finds_repo(self) -> (DialogView, StepView) {
        (
            DialogView { phase: DialogPhase::Repo, ..self },
            quietly(DialogActionView::DetectRepo),
        )
    }

    /// The dialog ends for a reason.
    pub open spec fn fails(self, e: ErrorView) -> (DialogView, StepView) {
        (
            DialogView { phase: DialogPhase::Finished, ..self },
            quietly(DialogActionView::Finish(Err(e))),
        )
    }

    /// The user is asked for the title of a new project.
    pub open spec fn asks_new_title(self) -> (DialogView, StepView) {
        (
            DialogView { phase: DialogPhase::NewTitle, ..self },
            quietly(
                DialogActionView::AskText {
                    label: "GitHub project title"@,
                    default: self.default_title,
                },
            ),
        )
    }

    /// The project is created.
    pub open spec fn creates(self) -> (DialogView, StepView) {
        (
            DialogView { phase: DialogPhase::Creating, ..self },
            quietly(
                DialogActionView::CreateProject { owner: self.owner, title: self.title },
            ),
        )
    }

    /// The owner is settled, and the project comes next: a new one or one that is
    /// there.
    pub open spec fn settles_project(self) -> (DialogView, StepView) {
        if self.interactive {
            if self.create {
                self.asks_new_title()
            } else {
                (
                    DialogView { phase: DialogPhase::Create, ..self },
                    quietly(
                        DialogActionView::AskConfirm {
                            label: "Create a new GitHub Project now?"@,
                            default: self.given_number is None,
                        },
                    ),
                )
            }
        } else {
            let v = DialogView { title: self.default_title, ..self };
            if self.create {
                v.creates()
            } else {
                DialogView { number: v.fallback_number(), created: false, ..v }.finds_repo()
            }
        }
    }

    /// The owner that is proposed is known.
    pub open spec fn settles_owner(self, proposed: Seq<char>) -> (DialogView, StepView) {
        if self.interactive {
            (
                DialogView { phase: DialogPhase::Owner, ..self },
                quietly(
                    DialogActionView::AskText {
                        label: "GitHub project owner"@,
                        default: proposed,
                    },
                ),
            )
        } else {
            DialogView { owner: proposed, ..self }.settles_project()
        }
    }

    /// The kind of tracker is settled.
    pub open spec fn settles_kind(self, kind: Seq<char>) -> (DialogView, StepView) {
        let v = DialogView { kind, ..self };
        if is_asahi(kind) {
            if self.interactive {
                (
                    DialogView { phase: DialogPhase::Title, ..v },
                    quietly(
                        DialogActionView::AskText {
                            label: "Project title"@,
                            default: self.default_title,
                        },
                    ),
                )
            } else {
                (
                    DialogView { title: self.default_title, phase: DialogPhase::Port, ..v },
                    quietly(DialogActionView::FindPort),
                )
            }
        } else {
            let owner = match self.given_owner {
                Some(owner) => owner,
                None => DEFAULT_OWNER@,
            };
            let (w, s) = if owner == DEFAULT_OWNER@ {
                (
                    DialogView { phase: DialogPhase::Login, ..v },
                    quietly(DialogActionView::DetectLogin),
                )
            } else {
                v.settles_owner(owner)
            };
            (
                w,
                StepView {
                    notices: if self.interactive {
                        seq![
                            "Luna will generate a GitHub Project based workflow."@,
                            "If you are not logged in, run `gh auth login` first."@,
                        ]
                    } else {
                        Seq::empty()
                    },
                    action: s.action,
                },
            )
        }
    }

    /// How the project is set up.
    pub open spec fn context(self, repo: Option<Seq<char>>) -> InitView {
        if is_asahi(self.kind) {
            InitView {
                tracker_kind: self.kind,
                owner: DEFAULT_OWNER@,
                project_number: DEFAULT_PROJECT_NUMBER,
                project_title: self.title,
                repo_name_with_owner: repo,
                created_project: false,
                asahi_port: self.port,
                asahi_db: Some("./asahi.db"@),
            }
        } else {
            InitView {
                tracker_kind: self.kind,
                owner: self.owner,
                project_number: self.number,
                project_title: self.title,
                repo_name_with_owner: repo,
                created_project: self.created,
                asahi_port: None,
                asahi_db: None,
            }
        }
    }

    /// What the dialog does with an answer.
    pub open spec fn step(self, event: DialogEvent) -> (DialogView, StepView) {
        match (self.phase, event) {
            (DialogPhase::Creating, DialogEvent::Failed(e)) => if self.interactive {
                self.fails(e@)
            } else {
                DialogView { number: self.fallback_number(), created: false, ..self }.finds_repo()
            },
            (_, DialogEvent::Failed(e)) => self.fails(e@),
            (DialogPhase::Kind, DialogEvent::Text(kind)) => self.settles_kind(kind@),
            (DialogPhase::Title, DialogEvent::Text(title)) => (
                DialogView { title: title@, phase: DialogPhase::Port, ..self },
                quietly(DialogActionView::FindPort),
            ),
            (DialogPhase::Port, DialogEvent::Port(port)) => DialogView {
                port: Some(port),
                ..self
            }.finds_repo(),
            (DialogPhase::Login, DialogEvent::Name(login)) => self.settles_owner(
                match login {
                    Some(login) => login@,
                    None => DEFAULT_OWNER@,
                },
            ),
            (DialogPhase::Owner, DialogEvent::Text(owner)) => DialogView {
                owner: owner@,
                ..self
            }.settles_project(),
            (DialogPhase::Create, DialogEvent::Flag(true)) => self.asks_new_title(),
            (DialogPhase::Create, DialogEvent::Flag(false)) => (
                DialogView { phase: DialogPhase::Number, ..self },
                quietly(
                    DialogActionView::AskNumber {
                        label: "Existing GitHub project number"@,
                        default: self.fallback_number(),
                    },
                ),
            ),
            (DialogPhase::NewTitle, DialogEvent::Text(title)) => DialogView {
                title: title@,
                ..self
            }.creates(),
            (DialogPhase::Creating, DialogEvent::Number(number)) => {
                let v = DialogView { number, created: true, ..self };
                if self.interactive {
                    (
                        DialogView { phase: DialogPhase::Link, ..v },
                        StepView {
                            notices: seq![
                                "Created GitHub Project `"@ + self.title + "` with number "@
                                    + decimal(number as nat) + " for owner `"@ + self.owner + "`."@,
                            ],
                            action: DialogActionView::AskConfirm {
                                label:
                                    "Link the current repository to that project with `gh project link`?"@,
                                default: true,
                            },
                        },
                    )
                } else {
                    v.finds_repo()
                }
            },
            (DialogPhase::Link, DialogEvent::Flag(true)) => (
                DialogView { phase: DialogPhase::Linking, ..self },
                quietly(
                    DialogActionView::LinkRepo { owner: self.owner, number: self.number },
                ),
            ),
            (DialogPhase::Link, DialogEvent::Flag(false)) => self.finds_repo(),
            (DialogPhase::Linking, DialogEvent::Done) => self.finds_repo(),
            (DialogPhase::Number, DialogEvent::Number(number)) => DialogView {
                number,
                title: self.default_title,
                created: false,
                ..self
            }.finds_repo(),
            (DialogPhase::Repo, DialogEvent::Name(repo)) => (
                DialogView { phase: DialogPhase::Finished, ..self },
                quietly(DialogActionView::Finish(Ok(self.context(opt_text(repo))))),
            ),
            _ => (self, quietly(DialogActionView::DetectRepo)),
        }
    }
}

/// The dialog that settles how a new project is set up.
#[derive(Debug)]
pub struct InitDialog {
    pub interactive: bool,
    pub default_title: String,
    pub given_owner: Option<String>,
    pub given_number: Option<u32>,
    pub create: bool,
    pub phase: DialogPhase,
    pub kind: String,
    pub owner: String,
    pub number: u32,
    pub title: String,
    pub created: bool,
    pub port: Option<u16>,
}

fn quiet(action: DialogAction) -> (r: DialogStep)
    ensures
        r@ == quietly(action@),
{
    let notices: Vec<String> = Vec::new();
    assert(texts(notices@) =~= Seq::<Seq<char>>::empty());
    DialogStep { notices, action }
}

/// What the options give the dialog to start with.
pub open spec fn dialog_start(options: InitOptions, interactive: bool) -> DialogView {
    DialogView {
        interactive,
        default_title: match options.project_title {
            Some(title) => title@,
            None => title_of(options.target_dir@),
        },
        given_owner: opt_text(options.owner),
        given_number: options.project_number,
        create: options.create_project,
        phase: DialogPhase::Kind,
        kind: Seq::empty(),
        owner: Seq::empty(),
        number: DEFAULT_PROJECT_NUMBER,
        title: Seq::empty(),
        created: false,
        port: None,
    }
}

/// Whether the options ask for a kind of tracker that there is.
pub open spec fn kind_known(options: InitOptions) -> bool {
    options.tracker_kind matches Some(kind) ==> kind@ == "github_project"@ || kind@ == "asahi"@
}

impl InitDialog {
    /// The model of the dialog.
    pub open spec fn view(&self) -> DialogView {
        DialogView {
            interactive: self.interactive,
            default_title: self.default_title@,
            given_owner: opt_text(self.given_owner),
            given_number: self.given_number,
            create: self.create,
            phase: self.phase,
            kind: self.kind@,
            owner: self.owner@,
            number: self.number,
            title: self.title@,
            created: self.created,
            port: self.port,
        }
    }

    /// Starts the dialog. A kind of tracker that there is not is refused. The user is
    /// asked for the kind where it is not given; without a user it is a GitHub
    /// project.
    pub fn begin(options: &InitOptions, interactive: bool) -> (r: Result<
        (InitDialog, DialogStep),
        LunaError,
    >)
        ensures
            (r is Ok) == kind_known(*options),
            r matches Err(e) ==> e@ == ErrorView::InvalidConfig(
                "unknown tracker kind `"@ + options.tracker_kind->Some_0@
                    + "`; expected github_project or asahi"@,
            ),
            r matches Ok((dialog, step)) ==> {
                let v = dialog_start(*options, interactive);
                (dialog@, step@) == if interactive && options.tracker_kind is None {
                    (
                        v,
                        quietly(
                            DialogActionView::AskChoice {
                                label: "Tracker kind"@,
                                choices: seq!["github_project"@, "asahi"@],
                                default_index: 0,
                            },
                        ),
                    )
                } else {
                    v.settles_kind(
                        match options.tracker_kind {
                            Some(kind) => kind@,
                            None => "github_project"@,
                        },
                    )
                }
            },
    {
        let asked = match &options.tracker_kind {
            Some(kind) => Some(kind.as_str()),
            None => None,
        };
        let kind = match normalize_tracker_kind(asked) {
            Ok(kind) => kind,
            Err(e) => return Err(e),
        };
        let default_title = match &options.project_title {
            Some(title) => title.clone(),
            None => default_project_title(options.target_dir.as_str()),
        };
        let mut dialog = InitDialog {
            interactive,
            default_title,
            given_owner: clone_opt(&options.owner),
            given_number: options.project_number,
            create: options.create_project,
            phase: DialogPhase::Kind,
            kind: String::new(),
            owner: String::new(),
            number: DEFAULT_PROJECT_NUMBER,
            title: String::new(),
            created: false,
            port: None,
        };
        assert(dialog@ =~= dialog_start(*options, interactive));
        if interactive && options.tracker_kind.is_none() {
            let mut choices: Vec<String> = Vec::new();
            choices.push("github_project".to_owned());
            choices.push("asahi".to_owned());
            assert(texts(choices@) =~= seq!["github_project"@, "asahi"@]);
            let step = quiet(
                DialogAction::AskChoice {
                    label: "Tracker kind".to_owned(),
                    choices,
                    default_index: 0,
                },
            );
            return Ok((dialog, step));
        }
        let step = dialog.settle_kind(kind);
        Ok((dialog, step))
    }

    fn fallback(&self) -> (r: u32)
        ensures
            r == self@.fallback_number(),
    {
        match self.given_number {
            Some(n) => n,
            None => DEFAULT_PROJECT_NUMBER,
        }
    }

    fn find_repo(&mut self) -> (r: DialogStep)
        ensures
            (final(self)@, r@) == old(self)@.finds_repo(),
    {
        self.phase = DialogPhase::Repo;
        quiet(DialogAction::DetectRepo)
    }

    fn fail(&mut self, e: LunaError) -> (r: DialogStep)
        ensures
            (final(self)@, r@) == old(self)@.fails(e@),
    {
        self.phase = DialogPhase::Finished;
        quiet(DialogAction::Finish(Err(e)))
    }

    fn ask_new_title(&mut self) -> (r: DialogStep)
        ensures
            (final(self)@, r@) == old(self)@.asks_new_title(),
    {
        self.phase = DialogPhase::NewTitle;
        quiet(
            DialogAction::AskText {
                label: "GitHub project title".to_owned(),
                default: self.default_title.clone(),
            },
        )
    }

    fn create_it(&mut self) -> (r: DialogStep)
        ensures
            (final(self)@, r@) == old(self)@.creates(),
    {
        self.phase = DialogPhase::Creating;
        quiet(
            DialogAction::CreateProject { owner: self.owner.clone(), title: self.title.clone() },
        )
    }

    fn settle_project(&mut self) -> (r: DialogStep)
        ensures
            (final(self)@, r@) == old(self)@.settles_project(),
    {
        if self.interactive {
            if self.create {
                self.ask_new_title()
            } else {
                self.phase = DialogPhase::Create;
                quiet(
                    DialogAction::AskConfirm {
                        label: "Create a new GitHub Project now?".to_owned(),
                        default: self.given_number.is_none(),
                    },
                )
            }
        } else {
            self.title = self.default_title.clone();
            if self.create {
                self.create_it()
            } else {
                self.number = self.fallback();
                self.created = false;
                self.find_repo()
            }
        }
    }

    fn settle_owner(&mut self, proposed: String) -> (r: DialogStep)
        ensures
            (final(self)@, r@) == old(self)@.settles_owner(proposed@),
    {
        if self.interactive {
            self.phase = DialogPhase::Owner;
            quiet(
                DialogAction::AskText {
                    label: "GitHub project owner".to_owned(),
                    default: proposed,
                },
            )
        } else {
            self.owner = proposed;
            self.settle_project()
        }
    }

    fn settle_kind(&mut self, kind: String) -> (r: DialogStep)
        ensures
            (final(self)@, r@) == old(self)@.settles_kind(kind@),
    {
        let asahi = same_text(kind.as_str(), "asahi");
        self.kind = kind;
        if asahi {
            if self.interactive {
                self.phase = DialogPhase::Title;
                quiet(
                    DialogAction::AskText {
                        label: "Project title".to_owned(),
                        default: self.default_title.clone(),
                    },
                )
            } else {
                self.title = self.default_title.clone();
                self.phase = DialogPhase::Port;
                quiet(DialogAction::FindPort)
            }
        } else {
            let interactive = self.interactive;
            let owner = match &self.given_owner {
                Some(owner) => owner.clone(),
                None => DEFAULT_OWNER.to_owned(),
            };
            let step = if same_text(owner.as_str(), DEFAULT_OWNER) {
                self.phase = DialogPhase::Login;
                quiet(DialogAction::DetectLogin)
            } else {
                self.settle_owner(owner)
            };
            let mut notices: Vec<String> = Vec::new();
            if interactive {
                notices.push("Luna will generate a GitHub Project based workflow.".to_owned());
                notices.push("If you are not logged in, run `gh auth login` first.".to_owned());
                assert(texts(notices@) =~= seq![
                    "Luna will generate a GitHub Project based workflow."@,
                    "If you are not logged in, run `gh auth login` first."@,
                ]);
            } else {
                assert(texts(notices@) =~= Seq::<Seq<char>>::empty());
            }
            DialogStep { notices, action: step.action }
        }
    }

    fn context(&self, repo: Option<String>) -> (r: InitContext)
        ensures
            r@ == self@.context(opt_text(repo)),
    {
        if same_text(self.kind.as_str(), "asahi") {
            InitContext {
                tracker_kind: self.kind.clone(),
                owner: DEFAULT_OWNER.to_owned(),
                project_number: DEFAULT_PROJECT_NUMBER,
                project_title: self.title.clone(),
                repo_name_with_owner: repo,
                created_project: false,
                asahi_port: self.port,
                asahi_db: Some("./asahi.db".to_owned()),
            }
        } else {
            InitContext {
                tracker_kind: self.kind.clone(),
                owner: self.owner.clone(),
                project_number: self.number,
                project_title: self.title.clone(),
                repo_name_with_owner: repo,
                created_project: self.created,
                asahi_port: None,
                asahi_db: None,
            }
        }
    }

    fn project_created(&mut self, number: u32) -> (r: DialogStep)
        requires
            old(self)@.phase == DialogPhase::Creating,
        ensures
            (final(self)@, r@) == old(self)@.step(DialogEvent::Number(number)),
    {
        self.number = number;
        self.created = true;
        if !self.interactive {
            return self.find_repo();
        }
        self.phase = DialogPhase::Link;
        let mut notice = "Created GitHub Project `".to_owned();
        notice.append(self.title.as_str());
        notice.append("` with number ");
        let digits = unsigned_text(number as u64);
        notice.append(digits.as_str());
        notice.append(" for owner `");
        notice.append(self.owner.as_str());
        notice.append("`.");
        let ghost text = notice@;
        let mut notices: Vec<String> = Vec::new();
        notices.push(notice);
        assert(texts(notices@) =~= seq![text]);
        DialogStep {
            notices,
            action: DialogAction::AskConfirm {
                label: "Link the current repository to that project with `gh project link`?".to_owned(),
                default: true,
            },
        }
    }

    /// Gives the dialog an answer, and gets the next step.
    #[verifier::spinoff_prover]
    pub fn step(&mut self, event: DialogEvent) -> (r: DialogStep)
        requires
            dialog_answers(old(self)@.phase, event),
        ensures
            (final(self)@, r@) == old(self)@.step(event),
    {
        match (self.phase, event) {
            (DialogPhase::Creating, DialogEvent::Failed(e)) => {
                if self.interactive {
                    self.fail(e)
                } else {
                    self.number = self.fallback();
                    self.created = false;
                    self.find_repo()
                }
            },
            (_, DialogEvent::Failed(e)) => self.fail(e),
            (DialogPhase::Kind, DialogEvent::Text(kind)) => self.settle_kind(kind),
            (DialogPhase::Title, DialogEvent::Text(title)) => {
                self.title = title;
                self.phase = DialogPhase::Port;
                quiet(DialogAction::FindPort)
            },
            (DialogPhase::Port, DialogEvent::Port(port)) => {
                self.port = Some(port);
                self.find_repo()
            },
            (DialogPhase::Login, DialogEvent::Name(login)) => {
                let proposed = match login {
                    Some(login) => login,
                    None => DEFAULT_OWNER.to_owned(),
                };
                self.settle_owner(proposed)
            },
            (DialogPhase::Owner, DialogEvent::Text(owner)) => {
                self.owner = owner;
                self.settle_project()
            },
            (DialogPhase::Create, DialogEvent::Flag(yes)) => {
                if yes {
                    self.ask_new_title()
                } else {
                    self.phase = DialogPhase::Number;
                    quiet(
                        DialogAction::AskNumber {
                            label: "Existing GitHub project number".to_owned(),
                            default: self.fallback(),
                        },
                    )
                }
            },
            (DialogPhase::NewTitle, DialogEvent::Text(title)) => {
                self.title = title;
                self.create_it()
            },
            (DialogPhase::Creating, DialogEvent::Number(number)) => self.project_created(number),
            (DialogPhase::Link, DialogEvent::Flag(yes)) => {
                if yes {
                    self.phase = DialogPhase::Linking;
                    quiet(
                        DialogAction::LinkRepo { owner: self.owner.clone(), number: self.number },
                    )
                } else {
                    self.find_repo()
                }
            },
            (DialogPhase::Linking, DialogEvent::Done) => self.find_repo(),
            (DialogPhase::Number, DialogEvent::Number(number)) => {
                self.number = number;
                self.title = self.default_title.clone();
                self.created = false;
                self.find_repo()
            },
            (DialogPhase::Repo, DialogEvent::Name(repo)) => {
                let context = self.context(repo);
                self.phase = DialogPhase::Finished;
                quiet(DialogAction::Finish(Ok(context)))
            },
            _ => quiet(DialogAction::DetectRepo),
        }
    }
}

/// Without a user nobody is asked anything.
pub proof fn no_user_is_asked(v: DialogView, event: DialogEvent)
    requires
        !v.interactive,
        v.phase == DialogPhase::Port || v.phase == DialogPhase::Login || v.phase
            == DialogPhase::Creating || v.phase == DialogPhase::Repo,
        dialog_answers(v.phase, event),
    ensures
        ({
            let (w, s) = v.step(event);
            &&& !w.interactive
            &&& !(s.action is AskChoice) && !(s.action is AskText) && !(s.action is AskConfirm)
                && !(s.action is AskNumber)
            &&& s.notices.len() == 0
            &&& w.phase == DialogPhase::Finished || w.phase == DialogPhase::Port || w.phase
                == DialogPhase::Login || w.phase == DialogPhase::Creating || w.phase
                == DialogPhase::Repo
        }),
{
}

/// A project counts as created only where it was created.
pub proof fn only_created_projects_count_as_created(v: DialogView, event: DialogEvent)
    requires
        dialog_answers(v.phase, event),
        !v.created,
    ensures
        v.step(event).0.created ==> v.phase == DialogPhase::Creating && event is Number && v.step(
            event,
        ).0.number == event->Number_0,
{
}

} // verus!
