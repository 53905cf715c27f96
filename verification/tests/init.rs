use luna::error::LunaError;
use luna::init::dialog::{DialogAction, DialogEvent, InitDialog};
use luna::init::files::{
    create_project_args, created_project_number, detected_name, ensure_gitignore_entries,
    gh_result, gitignore_entries, link_args, login_args, print_init_summary, repo_args,
    run_gh_capture, write_file,
};
use luna::init::prompt::{
    choice_question, confirm_question, confirm_word, prompt_choice, prompt_confirm, prompt_string,
    prompt_u32, string_question,
};
use luna::init::template::{render_workflow_template, ENV_TEMPLATE};
use luna::init::{
    default_project_title, normalize_tracker_kind, InitContext, InitOptions, DEFAULT_PROJECT_TITLE,
};

fn options(tracker: Option<&str>) -> InitOptions {
    InitOptions {
        target_dir: "/tmp/example-project".to_string(),
        force: false,
        owner: None,
        project_number: None,
        create_project: false,
        project_title: None,
        non_interactive: true,
        tracker_kind: tracker.map(str::to_string),
    }
}

#[test]
fn creates_gitignore_from_template() {
    assert_eq!(
        ensure_gitignore_entries(None, &gitignore_entries()).unwrap(),
        "/target\n.env.luna\n.luna/\nasahi.db\n"
    );
}

#[test]
fn appends_missing_gitignore_entries() {
    let entries = gitignore_entries();
    let text = ensure_gitignore_entries(Some("/target\n.env.luna"), &entries).unwrap();
    assert_eq!(text, "/target\n.env.luna\n.luna/\nasahi.db\n");
    assert_eq!(ensure_gitignore_entries(Some(&text), &entries), None);
}

#[test]
fn renders_asahi_workflow_with_codex_runner_and_wiki_guidance() {
    let context = InitContext {
        tracker_kind: "asahi".to_string(),
        owner: "unused".to_string(),
        project_number: 1,
        project_title: "Local Backlog".to_string(),
        repo_name_with_owner: None,
        created_project: false,
        asahi_port: Some(49306),
        asahi_db: Some("./asahi.db".to_string()),
    };

    let workflow = render_workflow_template(&context);

    assert!(workflow.starts_with("---\ntracker:\n  kind: asahi\n  db: ./asahi.db\n  port: 49306\n"));
    assert!(workflow.contains("kind: codex\n  command: codex app-server\n"));
    assert!(workflow.contains("approval_policy: never\n"));
    assert!(workflow.contains("luna wiki <command>"));
    assert!(workflow.contains("luna show"));
    assert!(workflow.contains("luna comment"));
    assert!(workflow.contains("luna move"));
}

#[test]
fn renders_github_project_workflow_with_codex_runner_and_pr_ci_guidance() {
    let context = InitContext {
        tracker_kind: "github_project".to_string(),
        owner: "acme".to_string(),
        project_number: 42,
        project_title: "GitHub Backlog".to_string(),
        repo_name_with_owner: Some("acme/repo".to_string()),
        created_project: false,
        asahi_port: None,
        asahi_db: None,
    };

    let workflow = render_workflow_template(&context);

    assert!(workflow.contains("kind: github_project\n  owner: acme\n  project_number: 42\n"));
    assert!(workflow.contains("gh_command: gh\n"));
    assert!(workflow.contains("kind: codex\n"));
    assert!(workflow.contains("gh pr checks"));
    assert!(workflow.contains("gh run watch"));
    assert!(workflow.contains("gh pr merge"));
    assert!(workflow.contains("gh pr create -R acme/repo --fill"));
    assert!(ENV_TEMPLATE.contains("GH_TOKEN="));
}

fn finish(action: DialogAction) -> InitContext {
    match action {
        DialogAction::Finish(Ok(context)) => context,
        other => panic!("expected the end, got {other:?}"),
    }
}

#[test]
fn the_local_tracker_is_set_up_with_a_free_port() {
    let mut given = options(Some("asahi"));
    given.project_title = Some("Local Backlog".to_string());
    let (mut dialog, step) = InitDialog::begin(&given, false).unwrap();
    assert!(matches!(step.action, DialogAction::FindPort));
    assert!(matches!(dialog.step(DialogEvent::Port(4321)).action, DialogAction::DetectRepo));
    let context = finish(dialog.step(DialogEvent::Name(None)).action);
    assert_eq!(context.tracker_kind, "asahi");
    assert_eq!(context.asahi_port, Some(4321));
    assert_eq!(context.asahi_db.as_deref(), Some("./asahi.db"));
    assert_eq!(context.project_title, "Local Backlog");
    let workflow = render_workflow_template(&context);
    assert!(workflow.contains("Tracker: Asahi (local)"));
}

/// Answers what a dialog asks until it ends.
fn drive(given: &InitOptions, created: Result<u32, LunaError>) -> (InitContext, Vec<String>) {
    let (mut dialog, mut step) = InitDialog::begin(given, false).unwrap();
    let mut asked = Vec::new();
    let mut created = Some(created);
    loop {
        let event = match step.action {
            DialogAction::Finish(Ok(context)) => return (context, asked),
            DialogAction::CreateProject { owner, title } => {
                asked.push(format!("create {owner} {title}"));
                match created.take().unwrap() {
                    Ok(number) => DialogEvent::Number(number),
                    Err(err) => DialogEvent::Failed(err),
                }
            }
            DialogAction::DetectLogin => DialogEvent::Name(Some("detected".to_string())),
            DialogAction::DetectRepo => DialogEvent::Name(None),
            DialogAction::LinkRepo { .. } => DialogEvent::Done,
            other => panic!("unexpected {other:?}"),
        };
        step = dialog.step(event);
    }
}

#[test]
fn a_given_project_is_not_created() {
    let mut given = options(Some("github_project"));
    given.owner = Some("acme".to_string());
    given.project_number = Some(7);
    let (context, asked) = drive(&given, Ok(1));
    assert!(asked.is_empty());
    assert_eq!(context.owner, "acme");
    assert_eq!(context.project_number, 7);
    assert!(!context.created_project);
}

#[test]
fn a_created_project_gives_its_number() {
    let mut given = options(Some("github_project"));
    given.owner = Some("acme".to_string());
    given.project_number = Some(99);
    given.create_project = true;
    given.project_title = Some("Created Backlog".to_string());
    let (context, asked) = drive(&given, Ok(17));
    assert_eq!(asked, vec!["create acme Created Backlog"]);
    assert_eq!(context.project_number, 17);
    assert!(context.created_project);
}

#[test]
fn a_project_that_cannot_be_created_falls_back_to_the_given_number() {
    let mut given = options(Some("github_project"));
    given.owner = Some("acme".to_string());
    given.project_number = Some(99);
    given.create_project = true;
    given.project_title = Some("Fallback Backlog".to_string());
    let (context, asked) = drive(&given, Err(LunaError::Tracker("nope".to_string())));
    assert_eq!(asked, vec!["create acme Fallback Backlog"]);
    assert_eq!(context.project_number, 99);
    assert!(!context.created_project);
}

#[test]
fn run_init_rejects_unknown_tracker_kind() {
    let err = InitDialog::begin(&options(Some("linear")), false).unwrap_err();
    assert!(err.message().contains("unknown tracker kind"));
    assert!(normalize_tracker_kind(Some("linear")).is_err());
    assert_eq!(normalize_tracker_kind(Some("asahi")).unwrap(), "asahi");
}

#[test]
fn default_project_title_uses_directory_name_or_static_default() {
    assert_eq!(default_project_title("/tmp/example-project"), "example-project backlog");
    assert_eq!(default_project_title("."), DEFAULT_PROJECT_TITLE);
}

#[test]
fn write_file_refuses_overwrite_unless_forced() {
    assert!(write_file("WORKFLOW.md", false, false).is_ok());
    let err = write_file("WORKFLOW.md", true, false).unwrap_err();
    assert!(err.message().contains("refusing to overwrite"));
    assert!(write_file("WORKFLOW.md", true, true).is_ok());
}

#[test]
fn answers_are_read_with_their_defaults() {
    assert_eq!(string_question("Owner", "acme"), "Owner [acme]: ");
    assert_eq!(prompt_string(" x \n", "acme"), "x");
    assert_eq!(prompt_string("\n", "acme"), "acme");
    assert_eq!(confirm_question("Create?", true), "Create? [Y/n]: ");
    assert_eq!(confirm_question("Create?", false), "Create? [y/N]: ");
    assert!(prompt_confirm("YES\n", false));
    assert!(!prompt_confirm("no\n", true));
    assert!(prompt_confirm("\n", true));
    assert!(confirm_word("y", false));
    assert_eq!(prompt_u32("Number", "7\n", 1).unwrap(), 7);
    assert_eq!(prompt_u32("Number", "\n", 1).unwrap(), 1);
    assert!(prompt_u32("Number", "x\n", 1).is_err());
    let choices = vec!["a".to_string(), "b".to_string()];
    assert!(choice_question("Kind", &choices, 1).starts_with("Kind"));
    assert_eq!(prompt_choice("Kind", "\n", &choices, 1).unwrap(), "b");
    assert!(prompt_choice("Kind", "zzz\n", &choices, 1).is_err());
    assert_eq!(prompt_choice("Kind", "1\n", &choices, 7).unwrap(), "a");
    assert!(prompt_choice("Kind", "3\n", &choices, 7).is_err());
    assert_eq!(choice_question("Kind", &[], 7), "Kind:\n[default: 8]: ");
}

#[test]
fn github_is_asked_with_these_words() {
    assert!(login_args().contains(&"user".to_string()));
    assert!(repo_args().contains(&"repo".to_string()));
    let args = create_project_args("acme", "Created Backlog").join(" ");
    assert!(args.contains("project create --owner acme --title Created Backlog"));
    assert!(link_args("acme", 7).contains(&"7".to_string()));
    let args = vec!["project".to_string()];
    assert_eq!(gh_result(&args, true, "17\n".to_string(), "").unwrap(), "17\n");
    assert!(gh_result(&args, false, String::new(), "nope").unwrap_err().message().contains("nope"));
    assert!(run_gh_capture(&args, false, b"", b"\xffnope").unwrap_err().message().contains("nope"));
    assert_eq!(detected_name(Ok(" acme \n".to_string())).as_deref(), Some("acme"));
    assert_eq!(detected_name(Ok("\n".to_string())), None);
    assert_eq!(created_project_number(Ok("17\n".to_string())).unwrap(), 17);
    assert!(created_project_number(Ok("x".to_string())).is_err());
}

#[test]
fn the_summary_names_the_project() {
    let context = InitContext {
        tracker_kind: "github_project".to_string(),
        owner: "acme".to_string(),
        project_number: 42,
        project_title: "Backlog".to_string(),
        repo_name_with_owner: None,
        created_project: true,
        asahi_port: None,
        asahi_db: None,
    };
    let lines = print_init_summary(&context).join("\n");
    assert!(lines.contains("acme") && lines.contains("42"));
}
