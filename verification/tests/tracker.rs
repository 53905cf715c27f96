use luna::config::{AsahiTrackerConfig, GitHubProjectTrackerConfig, TrackerConfig};
use luna::domain::project::ProjectRef;
use luna::error::LunaError;
use luna::model::{BlockerRef, Issue};
use luna::time::Timestamp;
use luna::tracker::asahi::{
    check_endpoint, check_status, check_url, get_issue, AsahiTracker, Method, Operation,
};
use luna::tracker::commands::format_issue;
use luna::tracker::context::{
    collect_issue_locators, detect_workspace_locator, needs_workspace_locator, push_locator,
    workspace_name, IssueSearch, Search, TrackerTargetOptions,
};
use luna::tracker::github_item::{
    issue_matches_locator, normalize_project_item, parse_datetime, parse_github_issue_reference,
    parse_priority_string, priority_of, short_item_suffix, FieldNumber, ProjectDraftIssueContent,
    ProjectFieldValue, ProjectIssueContent, ProjectIssueLabelNode, ProjectIssueLabels,
    ProjectIssueRepository, ProjectItemContent, ProjectItemNode,
};
use luna::tracker::github_project::{
    check_updated_item, checked_state_name, comments_from_rows, create_comment, failed_command,
    fetch_comments, graphql, needs_request, parse_gh_json_output, read_comments,
    GitHubProjectTracker, ProjectFieldConfig, ProjectFieldOption, ProjectItemRow, ProjectPage,
    ProjectStatusNode, PROJECT_ITEMS_QUERY, STATUS_FIELD_QUERY, UPDATE_STATUS_QUERY,
};
use luna::wiki::command::{run_wiki_command, wiki_project, wiki_tracker, WikiStep};

fn strings(values: &[&str]) -> Vec<String> {
    values.iter().map(|value| value.to_string()).collect()
}

fn pairs(values: &[(String, String)]) -> Vec<(&str, &str)> {
    values.iter().map(|(key, value)| (key.as_str(), value.as_str())).collect()
}

fn issue(identifier: &str) -> Issue {
    Issue {
        id: "project-item-id".to_string(),
        identifier: identifier.to_string(),
        title: "title".to_string(),
        description: None,
        priority: None,
        state: "Todo".to_string(),
        branch_name: None,
        url: None,
        labels: Vec::new(),
        blocked_by: Vec::new(),
        created_at: None,
        updated_at: None,
        project: None,
        source_data: None,
    }
}

fn github_config() -> GitHubProjectTrackerConfig {
    GitHubProjectTrackerConfig {
        owner: "acme".to_string(),
        project_number: 12,
        status_field: "Status".to_string(),
        priority_field: "Priority".to_string(),
        gh_command: "gh".to_string(),
        active_states: strings(&["Todo", "In Progress"]),
        terminal_states: strings(&["Done"]),
    }
}

fn asahi_config(endpoint: &str) -> AsahiTrackerConfig {
    AsahiTrackerConfig { endpoint: endpoint.to_string(), db: None, port: None }
}

fn asahi(endpoint: &str) -> AsahiTracker {
    AsahiTracker::new(asahi_config(endpoint))
}

// ---------------------------------------------------------------------------
// Commands
// ---------------------------------------------------------------------------

fn summary_issue() -> Issue {
    Issue {
        id: "id".to_string(),
        identifier: "ENG-42".to_string(),
        title: "Fix tracker CLI".to_string(),
        description: Some("Detailed description".to_string()),
        priority: Some(1),
        state: "In Progress".to_string(),
        branch_name: Some("eng-42".to_string()),
        url: Some("https://example.com".to_string()),
        labels: vec!["backend".to_string(), "cli".to_string()],
        blocked_by: Vec::new(),
        created_at: None,
        updated_at: None,
        project: None,
        source_data: None,
    }
}

#[test]
fn formats_issue_summary() {
    let text = format_issue(&summary_issue());
    assert!(text.contains("Issue: ENG-42"));
    assert!(text.contains("Priority: 1"));
    assert!(text.contains("Description:"));
}

#[test]
fn shows_every_part_of_an_issue_on_its_line() {
    let mut issue = summary_issue();
    issue.blocked_by = vec![
        BlockerRef { id: None, identifier: Some("ENG-1".to_string()), state: None },
        BlockerRef { id: Some("b".to_string()), identifier: None, state: None },
        BlockerRef { id: None, identifier: None, state: None },
    ];
    assert_eq!(
        format_issue(&issue),
        "Issue: ENG-42\nTitle: Fix tracker CLI\nState: In Progress\nPriority: 1\nURL: https://example.com\nBranch: eng-42\nLabels: backend, cli\nBlocked by: ENG-1, b, unknown\n\nDescription:\nDetailed description"
    );
}

// ---------------------------------------------------------------------------
// Locators
// ---------------------------------------------------------------------------

fn target(issue_locator: Option<&str>) -> TrackerTargetOptions {
    TrackerTargetOptions {
        workflow_path: "/work/WORKFLOW.md".to_string(),
        issue_locator: issue_locator.map(str::to_string),
        cwd: "/work/repo".to_string(),
    }
}

#[test]
fn push_locator_drops_blank_and_case_insensitive_duplicates() {
    let mut locators = Vec::new();

    push_locator(&mut locators, "  ");
    push_locator(&mut locators, "COD-1");
    push_locator(&mut locators, "cod-1");
    push_locator(&mut locators, "COD-2");

    assert_eq!(locators, vec!["COD-1", "COD-2"]);
}

#[test]
fn matches_issue_locator_against_identifier_and_workspace_key() {
    let issue = issue("acme/repo#42");
    assert!(issue_matches_locator(&issue, "acme/repo#42"));
    assert!(issue_matches_locator(&issue, "acme_repo_42"));
    assert!(!issue_matches_locator(&issue, "acme/repo#43"));
}

#[test]
fn parses_backing_issue_reference() {
    let reference = parse_github_issue_reference("acme/repo#42");
    assert_eq!(
        reference.as_ref().map(|(repo, number)| (repo.as_str(), *number)),
        Some(("acme/repo", 42))
    );
    assert_eq!(parse_github_issue_reference("acme/projects/1#draft-42"), None);
}

#[test]
fn identifiers_lead_back_to_their_issue() {
    for (repo, number) in [("acme/repo", 0), ("a/b", 7), ("acme/repo#x", 18_446_744_073_709_551_615)] {
        let identifier = format!("{repo}#{number}");
        assert_eq!(
            parse_github_issue_reference(&identifier),
            Some((repo.to_string(), number))
        );
    }
    assert_eq!(parse_github_issue_reference("repo#1"), None);
    assert_eq!(parse_github_issue_reference("acme/repo"), None);
    assert_eq!(parse_github_issue_reference("acme/repo#18446744073709551616"), None);
    assert_eq!(
        parse_github_issue_reference("acme/repo#+5"),
        Some(("acme/repo".to_string(), 5))
    );
}

#[test]
fn locators_come_from_the_option_then_the_environment_then_the_workspace() {
    let options = target(Some("  COD-2  "));
    let env_id = Some("missing-id".to_string());
    let env_identifier = Some(" COD-2 ".to_string());
    let workspace = Some("workspace-name".to_string());
    assert!(!needs_workspace_locator(&options, &env_id, &env_identifier));
    assert_eq!(
        collect_issue_locators(&options, &env_id, &env_identifier, &workspace),
        vec!["COD-2"]
    );
    let options = target(None);
    let locators = collect_issue_locators(&options, &env_id, &env_identifier, &workspace);
    assert_eq!(locators, ["missing-id", "COD-2"]);
    assert!(needs_workspace_locator(&options, &None, &None));
    assert_eq!(
        collect_issue_locators(&options, &None, &None, &workspace),
        vec!["workspace-name"]
    );
}

#[test]
fn detect_workspace_locator_falls_back_to_directory_name_outside_git() {
    let locator = detect_workspace_locator("/tmp/acme_repo_42", false, b"");
    assert_eq!(locator.as_deref(), Some("acme_repo_42"));
}

#[test]
fn detect_workspace_locator_uses_git_root_directory_name() {
    let locator = detect_workspace_locator("/tmp/repo-root/nested", true, b"/tmp/repo-root\n");
    assert_eq!(locator.as_deref(), Some("repo-root"));
    assert_eq!(workspace_name("/tmp/a", Some("/tmp/b")).as_deref(), Some("b"));
}

#[test]
fn resolve_issue_uses_luna_env_locators_before_workspace_locator() {
    let locators = collect_issue_locators(
        &target(None),
        &Some("missing-id".to_string()),
        &Some(" COD-2 ".to_string()),
        &Some("workspace-name".to_string()),
    );
    assert_eq!(locators, ["missing-id", "COD-2"]);
    let (mut search, first) = IssueSearch::begin(locators).unwrap();
    assert_eq!(first, "missing-id");
    match search.resolve_issue(None) {
        Search::Try(next) => assert_eq!(next, "COD-2"),
        other => panic!("expected another try, got {other:?}"),
    }
    match search.resolve_issue(Some(issue("COD-2"))) {
        Search::Found(found) => assert_eq!(found.identifier, "COD-2"),
        other => panic!("expected the issue, got {other:?}"),
    }
}

#[test]
fn resolve_issue_reports_attempted_locators_when_missing() {
    let (mut search, first) = IssueSearch::begin(strings(&["COD-404"])).unwrap();
    assert_eq!(first, "COD-404");
    match search.resolve_issue(None) {
        Search::Failed(err) => {
            assert!(err.message().contains("COD-404"));
            assert!(err.message().contains("pass --issue explicitly"));
        }
        other => panic!("expected a failure, got {other:?}"),
    }
    assert!(IssueSearch::begin(Vec::new()).is_err());
}

// ---------------------------------------------------------------------------
// Project items
// ---------------------------------------------------------------------------

fn project_item_issue(
    id: &str,
    status: Option<ProjectFieldValue>,
    priority: Option<ProjectFieldValue>,
    number: i64,
    closed: bool,
) -> ProjectItemNode {
    ProjectItemNode {
        id: id.to_string(),
        created_at: "2026-01-01T00:00:00Z".to_string(),
        updated_at: "2026-01-02T00:00:00Z".to_string(),
        status,
        priority,
        content: Some(ProjectItemContent::Issue(ProjectIssueContent {
            number,
            title: format!("Issue {number}"),
            body: Some("Body".to_string()),
            url: format!("https://github.com/acme/repo/issues/{number}"),
            state: if closed { "CLOSED" } else { "OPEN" }.to_string(),
            closed,
            created_at: "2026-01-01T00:00:00Z".to_string(),
            updated_at: "2026-01-02T00:00:00Z".to_string(),
            repository: ProjectIssueRepository { name_with_owner: "acme/repo".to_string() },
            labels: ProjectIssueLabels {
                nodes: vec![ProjectIssueLabelNode { name: "Bug".to_string() }],
            },
        })),
    }
}

fn project_item_draft(id: &str) -> ProjectItemNode {
    ProjectItemNode {
        id: id.to_string(),
        created_at: "2026-01-01T00:00:00Z".to_string(),
        updated_at: "2026-01-02T00:00:00Z".to_string(),
        status: None,
        priority: None,
        content: Some(ProjectItemContent::DraftIssue(ProjectDraftIssueContent {
            title: "Draft task".to_string(),
            body: None,
            created_at: "2026-01-01T00:00:00Z".to_string(),
            updated_at: "2026-01-02T00:00:00Z".to_string(),
        })),
    }
}

fn selected(name: &str) -> Option<ProjectFieldValue> {
    Some(ProjectFieldValue::ProjectV2ItemFieldSingleSelectValue { name: Some(name.to_string()) })
}

const PROJECT_URL: &str = "https://github.com/orgs/acme/projects/12";

#[test]
fn normalizes_issue_draft_and_ignored_project_items() {
    let config = github_config();

    let issue = normalize_project_item(
        project_item_issue(
            "PVTI_open",
            selected("In Progress"),
            Some(ProjectFieldValue::ProjectV2ItemFieldTextValue { text: Some("P1".to_string()) }),
            42,
            false,
        ),
        Some("{}".to_string()),
        PROJECT_URL,
        &config,
    )
    .unwrap();
    assert_eq!(issue.identifier, "acme/repo#42");
    assert_eq!(issue.state, "In Progress");
    assert_eq!(issue.priority, Some(1));
    assert_eq!(issue.labels, vec!["bug"]);
    assert!(issue.source_data.is_some());
    assert_eq!(issue.created_at, Some(Timestamp { secs: 1_767_225_600, nanos: 0 }));
    assert_eq!(issue.updated_at, Some(Timestamp { secs: 1_767_312_000, nanos: 0 }));

    let closed = normalize_project_item(
        project_item_issue("PVTI_closed", None, None, 43, true),
        None,
        PROJECT_URL,
        &config,
    )
    .unwrap();
    assert_eq!(closed.state, "Done");

    let draft = normalize_project_item(
        project_item_draft("PVTI_draft_abc123"),
        None,
        PROJECT_URL,
        &config,
    )
    .unwrap();
    assert_eq!(draft.identifier, "acme/projects/12#draft-abc123");
    assert_eq!(draft.state, "Todo");
    assert_eq!(draft.url.as_deref(), Some(PROJECT_URL));

    let mut pull_request = project_item_draft("PVTI_pr");
    pull_request.content = Some(ProjectItemContent::PullRequest);
    assert!(normalize_project_item(pull_request, None, PROJECT_URL, &config).is_none());
    let mut nothing = project_item_draft("PVTI_none");
    nothing.content = None;
    assert!(normalize_project_item(nothing, None, PROJECT_URL, &config).is_none());
}

#[test]
fn closed_state_counts_in_any_case_and_bad_dates_fall_back() {
    let mut item = project_item_issue("PVTI_1", None, None, 1, false);
    if let Some(ProjectItemContent::Issue(content)) = &mut item.content {
        content.state = "Closed".to_string();
        content.created_at = "soon".to_string();
    }
    let issue = normalize_project_item(item, None, PROJECT_URL, &github_config()).unwrap();
    assert_eq!(issue.state, "Done");
    assert_eq!(issue.created_at, Some(Timestamp { secs: 1_767_225_600, nanos: 0 }));
    assert_eq!(parse_datetime(None), None);
    assert_eq!(parse_datetime(Some("soon")), None);
    assert_eq!(
        parse_datetime(Some("2026-01-01T01:00:00.5+01:00")),
        Some(Timestamp { secs: 1_767_225_600, nanos: 500_000_000 })
    );
}

#[test]
fn parses_priority_field_variants() {
    assert_eq!(parse_priority_string("P0 urgent"), Some(0));
    assert_eq!(parse_priority_string("critical"), Some(1));
    assert_eq!(parse_priority_string("High"), Some(2));
    assert_eq!(parse_priority_string("medium"), Some(3));
    assert_eq!(parse_priority_string("low"), Some(4));
    assert_eq!(parse_priority_string("none"), None);
    let value: f64 = 2.6;
    assert_eq!(
        ProjectFieldValue::ProjectV2ItemFieldNumberValue {
            number: Some(FieldNumber { text: value.to_string(), rounded: value.round() as i64 }),
        }
        .as_priority(),
        Some(3)
    );
    assert_eq!(priority_of("urgent"), Some(1));
    assert_eq!(parse_priority_string(" ÄP12x3 "), Some(12));
    assert_eq!(parse_priority_string("9223372036854775808"), None);
    assert_eq!(parse_priority_string("9223372036854775807"), Some(i64::MAX));
}

#[test]
fn fields_name_states() {
    assert_eq!(selected("Todo").unwrap().as_state_name().as_deref(), Some("Todo"));
    let number = ProjectFieldValue::ProjectV2ItemFieldNumberValue {
        number: Some(FieldNumber { text: "2.5".to_string(), rounded: 3 }),
    };
    assert_eq!(number.as_state_name().as_deref(), Some("2.5"));
    let text = ProjectFieldValue::ProjectV2ItemFieldTextValue { text: None };
    assert_eq!(text.as_state_name(), None);
    assert_eq!(text.as_priority(), None);
}

#[test]
fn drafts_are_named_by_the_end_of_their_id() {
    assert_eq!(short_item_suffix("PVTI_draft_abc123"), "abc123");
    assert_eq!(short_item_suffix("plain"), "plain");
    assert_eq!(short_item_suffix("ends_"), "ends_");
    assert_eq!(short_item_suffix(""), "");
}

// ---------------------------------------------------------------------------
// The project
// ---------------------------------------------------------------------------

fn tracker() -> GitHubProjectTracker {
    GitHubProjectTracker::new(github_config())
}

fn row(node: ProjectItemNode) -> ProjectItemRow {
    ProjectItemRow { node, source_data: None }
}

fn page(items: Vec<ProjectItemNode>, has_next_page: bool, end_cursor: Option<&str>) -> ProjectPage {
    ProjectPage {
        url: PROJECT_URL.to_string(),
        items: items.into_iter().map(row).collect(),
        has_next_page,
        end_cursor: end_cursor.map(str::to_string),
    }
}

#[test]
fn requests_name_the_project_and_its_fields() {
    let tracker = tracker();
    let fields = tracker.fetch_page(&Some("cursor-1".to_string()));
    assert_eq!(
        pairs(&fields),
        vec![
            ("owner", "acme"),
            ("projectNumber", "12"),
            ("statusField", "Status"),
            ("priorityField", "Priority"),
            ("cursor", "cursor-1"),
        ]
    );
    assert_eq!(tracker.fetch_page(&None).len(), 4);
    assert_eq!(
        pairs(&tracker.status_fields()),
        vec![("owner", "acme"), ("projectNumber", "12"), ("statusField", "Status")]
    );
    assert_eq!(
        graphql("query", &[("a".to_string(), "1".to_string()), ("b".to_string(), "2".to_string())]),
        vec!["api", "graphql", "-f", "query=query", "-F", "a=1", "-F", "b=2"]
    );
    assert!(PROJECT_ITEMS_QUERY.starts_with("\nquery ProjectItems("));
    assert!(STATUS_FIELD_QUERY.contains("ProjectV2SingleSelectField"));
    assert!(UPDATE_STATUS_QUERY.ends_with("}\n"));
}

#[test]
fn fetch_candidate_issues_filters_active_items_across_pages() {
    let tracker = tracker();
    let mut walk = tracker.begin_walk();
    assert_eq!(walk.cursor, None);
    let first = page(
        vec![
            project_item_issue("PVTI_1", selected("Todo"), None, 42, false),
            project_item_issue("PVTI_2", selected("Backlog"), None, 43, false),
        ],
        true,
        Some("cursor-1"),
    );
    assert!(matches!(tracker.fetch_all_items(&mut walk, Some(first)), Ok(true)));
    assert_eq!(walk.cursor.as_deref(), Some("cursor-1"));
    let mut draft = project_item_draft("PVTI_draft_xyz");
    draft.status = selected("In Progress");
    let second = page(vec![draft], false, None);
    assert!(matches!(tracker.fetch_all_items(&mut walk, Some(second)), Ok(false)));

    let candidates = tracker.fetch_candidate_issues(walk.issues);

    assert_eq!(candidates.len(), 2);
    assert_eq!(candidates[0].identifier, "acme/repo#42");
    assert_eq!(candidates[1].identifier, "acme/projects/12#draft-xyz");
}

#[test]
fn fetch_candidate_issues_errors_when_paginated_response_has_no_cursor() {
    let tracker = tracker();
    let mut walk = tracker.begin_walk();
    let err = tracker
        .fetch_all_items(&mut walk, Some(page(Vec::new(), true, None)))
        .unwrap_err();
    assert!(err.message().contains("github_project_missing_end_cursor"));
    let err = tracker.fetch_all_items(&mut walk, None).unwrap_err();
    assert_eq!(
        err.message(),
        "github_project_not_found: owner=acme, project_number=12"
    );
}

fn issues() -> Vec<Issue> {
    let mut all = Vec::new();
    for (id, identifier, state) in
        [("a", "acme/repo#1", "Todo"), ("b", "acme/repo#2", "DONE"), ("c", "acme/repo#3", "todo")]
    {
        let mut one = issue(identifier);
        one.id = id.to_string();
        one.state = state.to_string();
        all.push(one);
    }
    all
}

#[test]
fn issues_are_selected_by_state_id_and_locator() {
    let tracker = tracker();
    let ids = |found: Vec<Issue>| found.into_iter().map(|issue| issue.id).collect::<Vec<_>>();
    assert_eq!(
        ids(tracker.fetch_issues_by_states(&strings(&["TODO"]), issues())),
        vec!["a", "c"]
    );
    assert_eq!(
        ids(tracker.fetch_issue_states_by_ids(&strings(&["c", "b", "z"]), issues())),
        vec!["b", "c"]
    );
    assert!(!needs_request(&[]));
    assert!(needs_request(&strings(&["x"])));
    assert_eq!(tracker.bare_locator("  "), None);
    let locator = tracker.bare_locator(" ACME_repo_2 ").unwrap();
    let found = tracker.find_issue_by_locator(&locator, issues()).unwrap();
    assert_eq!(found.id, "b");
    assert!(tracker.find_issue_by_locator("acme/repo#9", issues()).is_none());
}

fn status_project(options: &[(&str, &str)]) -> ProjectStatusNode {
    ProjectStatusNode {
        id: "PVT_1".to_string(),
        fields: vec![
            ProjectFieldConfig::Unknown,
            ProjectFieldConfig::ProjectV2SingleSelectField {
                id: "PVTSSF_status".to_string(),
                name: "status".to_string(),
                options: options
                    .iter()
                    .map(|(id, name)| ProjectFieldOption {
                        id: id.to_string(),
                        name: name.to_string(),
                    })
                    .collect(),
            },
        ],
    }
}

#[test]
fn update_issue_state_resolves_status_field_and_updates_project_item() {
    let tracker = tracker();
    let state = checked_state_name(" done ").unwrap();
    let resolved = tracker
        .resolve_status_field_option(
            Some(status_project(&[("todo-id", "Todo"), ("done-id", "Done")])),
            &state,
        )
        .unwrap();
    let fields = tracker.update_issue_state("PVTI_1", resolved);
    assert_eq!(
        pairs(&fields),
        vec![
            ("projectId", "PVT_1"),
            ("itemId", "PVTI_1"),
            ("fieldId", "PVTSSF_status"),
            ("optionId", "done-id"),
        ]
    );
    assert!(check_updated_item(Some("PVTI_1".to_string()), "PVTI_1").is_ok());
}

#[test]
fn update_issue_state_reports_missing_status_option() {
    let tracker = tracker();
    let err = tracker
        .resolve_status_field_option(Some(status_project(&[("todo-id", "Todo")])), "Done")
        .unwrap_err();
    assert_eq!(err.message(), "github_project_state_option_not_found: Done");
    let mut project = status_project(&[]);
    project.fields.pop();
    let err = tracker.resolve_status_field_option(Some(project), "Done").unwrap_err();
    assert_eq!(err.message(), "github_project_status_field_not_found: Status");
    let err = tracker.resolve_status_field_option(None, "Done").unwrap_err();
    assert_eq!(err.message(), "github_project_not_found: owner=acme, project_number=12");
    assert_eq!(
        checked_state_name("  ").unwrap_err().message(),
        "state name must be non-empty"
    );
    assert_eq!(
        check_updated_item(None, "PVTI_1").unwrap_err().message(),
        "github_project_state_update_failed"
    );
    assert_eq!(
        check_updated_item(Some("PVTI_2".to_string()), "PVTI_1").unwrap_err().message(),
        "github_project_state_update_failed: unexpected item id PVTI_2"
    );
}

#[test]
fn fetch_comments_parses_backing_issue_comments_and_skips_drafts() {
    assert_eq!(
        fetch_comments(&issue("acme/repo#42")).unwrap(),
        vec!["api", "repos/acme/repo/issues/42/comments", "--paginate"]
    );
    assert!(fetch_comments(&issue("acme/projects/12#draft-xyz")).is_none());

    let answer = br#"[{"node_id":"IC_kw1","body":"please update docs","created_at":"2026-01-01T00:00:00Z"},
        {"id":"comment-2","body":"second"},
        {"node_id":7,"id":"unused","body":null,"created_at":"soon"}]"#;
    let comments = read_comments(&issue("acme/repo#42"), answer).unwrap();
    assert_eq!(comments.len(), 3);
    assert_eq!(comments[0].id, "IC_kw1");
    assert_eq!(comments[0].issue_id, "project-item-id");
    assert_eq!(comments[0].body, "please update docs");
    assert_eq!(comments[0].created_at, Timestamp { secs: 1_767_225_600, nanos: 0 });
    assert_eq!(comments[1].id, "comment-2");
    assert!(comments[1].created_at.secs > 1_600_000_000);
    assert_eq!(comments[2].id, "");
    assert_eq!(comments[2].body, "");
    let err = read_comments(&issue("acme/repo#42"), b"not json").unwrap_err();
    assert!(matches!(err, LunaError::Json(_)));
}

#[test]
fn comments_without_a_time_are_made_now() {
    let now = Timestamp { secs: 9, nanos: 0 };
    let rows = vec![vec![None, Some(Some("i".to_string())), None, Some(None)]];
    let comments = comments_from_rows(&rows, "issue", now);
    assert_eq!(comments[0].id, "i");
    assert_eq!(comments[0].issue_id, "issue");
    assert_eq!(comments[0].body, "");
    assert_eq!(comments[0].created_at, now);
}

#[test]
fn create_comment_posts_to_backing_issue_and_rejects_draft() {
    assert_eq!(
        create_comment(&issue("acme/repo#42"), "hello from luna").unwrap(),
        vec!["issue", "comment", "42", "-R", "acme/repo", "--body", "hello from luna"]
    );
    let err = create_comment(&issue("acme/projects/12#draft-xyz"), "draft").unwrap_err();
    assert!(err.message().contains("requires a backing GitHub issue"));
}

#[test]
fn a_failed_command_line_is_told_with_what_it_wrote() {
    assert!(matches!(parse_gh_json_output("gh test", true, "exit status: 0", b""), Some(Ok(()))));
    let err = parse_gh_json_output("gh test", false, "exit status: 1", b"permission denied")
        .unwrap()
        .unwrap_err();
    assert!(err.message().contains("gh test failed"));
    assert!(err.message().contains("permission denied"));
    assert_eq!(err.message(), failed_command("gh test", "exit status: 1", "permission denied").message());
    let long = "x".repeat(401);
    let err = parse_gh_json_output("gh", false, "1", long.as_bytes()).unwrap().unwrap_err();
    assert_eq!(err.message(), format!("gh failed: status=1, stderr={}...", "x".repeat(400)));
    let odd = format!("{}é", "x".repeat(399));
    assert!(parse_gh_json_output("gh", false, "1", odd.as_bytes()).is_none());
}

// ---------------------------------------------------------------------------
// The local tracker
// ---------------------------------------------------------------------------

#[test]
fn fetch_candidate_issues_requests_asahi_active_states() {
    let request = asahi("http://127.0.0.1:9000").fetch_candidate_issues().unwrap();
    assert_eq!(request.method, Method::Get);
    assert_eq!(request.url, "http://127.0.0.1:9000/api/issues");
    assert_eq!(pairs(&request.query), vec![("states", "Todo,In Progress")]);
    assert!(request.body.is_empty());
}

#[test]
fn empty_state_and_id_filters_return_empty_without_http() {
    let tracker = asahi("http://127.0.0.1:9");
    assert!(tracker.fetch_issues_by_states(&[]).is_none());
    assert!(tracker.fetch_issue_states_by_ids(&[]).is_none());
    let request = tracker.fetch_issue_states_by_ids(&strings(&["1", "2"])).unwrap().unwrap();
    assert_eq!(pairs(&request.query), vec![("ids", "1,2")]);
    let request = tracker.fetch_issues_by_states(&strings(&[""])).unwrap().unwrap();
    assert!(request.query.is_empty());
}

#[test]
fn find_issue_by_locator_maps_success_and_not_found() {
    let request = asahi("http://127.0.0.1:9/").issue_request("ASAHI-1").unwrap();
    assert_eq!(request.url, "http://127.0.0.1:9/api/issues/ASAHI-1");
    assert!(matches!(get_issue(200, "200 OK"), Ok(true)));
    assert!(matches!(get_issue(404, "404 Not Found"), Ok(false)));
    assert_eq!(
        get_issue(500, "500 Internal Server Error").unwrap_err().message(),
        "asahi get_issue failed: status=500 Internal Server Error"
    );
}

#[test]
fn list_issues_reports_http_status_before_json_decode() {
    let err = check_status(Operation::ListIssues, 502, "502 Bad Gateway").unwrap_err();
    assert_eq!(err.message(), "asahi list_issues failed: status=502 Bad Gateway");
    assert!(check_status(Operation::ListIssues, 204, "204 No Content").is_ok());
    assert!(check_status(Operation::ListIssues, 300, "300").is_err());
    assert!(check_status(Operation::ListIssues, 199, "199").is_err());
    for (op, name) in [
        (Operation::FetchProjectWiki, "fetch_project_wiki"),
        (Operation::FetchComments, "fetch_comments"),
        (Operation::CreateComment, "create_comment"),
        (Operation::UpdateIssueState, "update_issue_state"),
        (Operation::CreateActivity, "create_activity"),
    ] {
        assert_eq!(
            check_status(op, 500, "500").unwrap_err().message(),
            format!("asahi {name} failed: status=500")
        );
    }
}

#[test]
fn comments_and_wiki_use_expected_asahi_endpoints() {
    let tracker = asahi("http://127.0.0.1:9");
    let request = tracker.fetch_comments("issue-id").unwrap();
    assert_eq!(request.url, "http://127.0.0.1:9/api/issues/issue-id/comments");
    let request = tracker.fetch_project_wiki("proj-a").unwrap();
    assert_eq!(request.url, "http://127.0.0.1:9/api/projects/proj-a/wiki");
    assert_eq!(pairs(&request.query), vec![("recursive", "true")]);
}

#[test]
fn comment_state_and_activity_mutations_send_json_payloads() {
    let tracker = asahi("http://127.0.0.1:9");
    let request = tracker.create_comment("issue-id", "hello").unwrap();
    assert_eq!(request.method, Method::Post);
    assert_eq!(request.url, "http://127.0.0.1:9/api/issues/issue-id/comments");
    assert_eq!(request.body, vec![("body".to_string(), Some("hello".to_string()))]);
    let request = tracker.update_issue_state("issue-id", "Done").unwrap();
    assert_eq!(request.method, Method::Patch);
    assert_eq!(request.url, "http://127.0.0.1:9/api/issues/issue-id/state");
    assert_eq!(request.body, vec![("state".to_string(), Some("Done".to_string()))]);
    let request = tracker.create_activity("issue-id", "kind", "title", None).unwrap();
    assert_eq!(request.url, "http://127.0.0.1:9/api/issues/issue-id/activities");
    assert_eq!(
        request.body,
        vec![
            ("kind".to_string(), Some("kind".to_string())),
            ("title".to_string(), Some("title".to_string())),
            ("body".to_string(), None),
        ]
    );
}

#[test]
fn endpoints_that_are_no_urls_are_refused() {
    let err = asahi("not a url").base_url().unwrap_err();
    assert!(matches!(err, LunaError::InvalidConfig(_)));
    assert!(err.message().starts_with("invalid asahi endpoint: "));
    assert!(asahi("").fetch_comments("1").is_err());
    assert_eq!(asahi("http://LOCALHOST").base_url().unwrap(), "http://localhost/");
    assert_eq!(
        check_url(Err("odd".to_string())).unwrap_err().message(),
        "invalid asahi url: odd"
    );
    assert_eq!(
        check_endpoint(Err("odd".to_string())).unwrap_err().message(),
        "invalid asahi endpoint: odd"
    );
    assert_eq!(check_url(Ok("http://a/".to_string())).unwrap(), "http://a/");
}

// ---------------------------------------------------------------------------
// Wikis
// ---------------------------------------------------------------------------

#[test]
fn wiki_command_rejects_non_asahi_tracker_even_with_codex_runner() {
    let err = wiki_tracker(&TrackerConfig::GitHubProject(github_config())).unwrap_err();
    assert!(err.message().contains("only supported with the asahi tracker"));
    let config = wiki_tracker(&TrackerConfig::Asahi(asahi_config("http://x"))).unwrap();
    assert_eq!(config.endpoint, "http://x");
}

#[test]
fn wiki_arguments_are_a_shell_command_that_lists_by_default() {
    match run_wiki_command(3, &strings(&["cat", "readme.md"])) {
        WikiStep::Run(command) => assert_eq!(command, "cat readme.md"),
        other => panic!("expected a command, got {other:?}"),
    }
    match run_wiki_command(3, &[]) {
        WikiStep::Run(command) => assert_eq!(command, "ls"),
        other => panic!("expected a command, got {other:?}"),
    }
}

#[test]
fn wiki_command_returns_empty_message_for_empty_project_wiki() {
    match run_wiki_command(0, &[]) {
        WikiStep::Finish(result) => {
            assert_eq!(result.exit_code, 0);
            assert_eq!(result.stdout, "");
            assert_eq!(result.stderr, "project wiki is empty");
        }
        other => panic!("expected the end, got {other:?}"),
    }
}

#[test]
fn wiki_command_requires_issue_project_association() {
    let err = wiki_project(issue("ASAHI-3")).unwrap_err();
    assert!(err.message().contains("requires an issue associated with a project"));
    let mut with_project = issue("ASAHI-1");
    with_project.project = Some(ProjectRef {
        id: "p".to_string(),
        slug: "proj-a".to_string(),
        name: "A".to_string(),
        state: "Active".to_string(),
        priority: None,
    });
    assert_eq!(wiki_project(with_project).unwrap().slug, "proj-a");
}
