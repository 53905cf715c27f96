use luna::api::notifications::{list_notifications, notification_list, ListNotificationsQuery};
use luna::cli::{
    dotenv_path, needs_stdin, read_comment_body, read_job_prompt, read_text_arg_or_stdin,
    resolve_tracker_target,
};
use luna::desktop::{navigate_when_ready, sidecar_args, WindowStep};
use luna::error::LunaError;
use luna::path::{file_name, join_path, normalize, parent, starts_with};
use luna::table::{TextMap, TextSet};
use luna::text::{lines, parse_unsigned, signed_text, trim, unsigned_text};
use luna::time::{elapsed_millis, Timestamp};

#[test]
fn cli_text_args_join_trim_and_report_missing_prompt_or_comment() {
    assert_eq!(
        read_job_prompt(vec!["  inspect".to_string(), "repo  ".to_string()], None).unwrap(),
        "inspect repo"
    );
    assert_eq!(
        read_comment_body(vec!["  ship".to_string(), "it  ".to_string()], None).unwrap(),
        "ship it"
    );
    assert_eq!(
        read_text_arg_or_stdin(vec!["  hello ".to_string()], None, "missing").unwrap(),
        "hello"
    );

    let job_err = read_job_prompt(vec!["  ".to_string()], None).unwrap_err();
    assert!(job_err.message().contains("job prompt is required"));
    let comment_err = read_comment_body(vec!["  ".to_string()], None).unwrap_err();
    assert!(comment_err.message().contains("comment body is required"));
}

#[test]
fn piped_text_is_used_where_no_argument_gives_one() {
    assert!(needs_stdin(&[]));
    assert!(!needs_stdin(&["x".to_string()]));
    assert_eq!(read_job_prompt(Vec::new(), Some(" piped\n".to_string())).unwrap(), "piped");
    assert!(read_job_prompt(Vec::new(), None).is_err());
    assert_eq!(
        read_job_prompt(vec!["given".to_string()], Some("piped".to_string())).unwrap(),
        "given"
    );
}

#[test]
fn resolve_tracker_target_absolutizes_explicit_workflow_and_preserves_issue() {
    let unused = || Err(LunaError::Io("not looked for".to_string()));
    let target = resolve_tracker_target(
        Some("WORKFLOW.md".to_string()),
        unused(),
        Some("ASAHI-1".to_string()),
        "/work".to_string(),
    )
    .unwrap();
    assert_eq!(target.workflow_path, "/work/WORKFLOW.md");
    assert_eq!(target.issue_locator.as_deref(), Some("ASAHI-1"));
    assert_eq!(target.cwd, "/work");
    let target =
        resolve_tracker_target(None, Ok("/found.md".to_string()), None, "/work".to_string())
            .unwrap();
    assert_eq!(target.workflow_path, "/found.md");
    assert!(resolve_tracker_target(None, unused(), None, "/work".to_string()).is_err());
}

#[test]
fn the_environment_is_read_beside_the_workflow() {
    assert_eq!(dotenv_path("/a/b/WORKFLOW.md"), "/a/b/.env.luna");
    assert_eq!(dotenv_path("WORKFLOW.md"), ".env.luna");
    assert_eq!(dotenv_path("/"), "./.env.luna");
}

#[test]
fn the_count_of_notifications_ignores_what_is_shown() {
    let query = ListNotificationsQuery {
        include_archived: Some(true),
        unread_only: None,
        recipient_id: Some("me".to_string()),
        issue_id: None,
        limit: Some(10),
    };
    let (shown, counted) = list_notifications(query);
    assert!(shown.include_archived && counted.include_archived);
    assert!(!shown.unread_only && counted.unread_only);
    assert_eq!(shown.limit, Some(10));
    assert_eq!(counted.limit, None);
    assert_eq!(counted.recipient_id.as_deref(), Some("me"));
    assert_eq!(notification_list(Vec::new(), 3).unread_count, 3);
}

#[test]
fn the_window_waits_shows_or_gives_up() {
    assert_eq!(
        sidecar_args("/data/asahi.db"),
        vec!["asahi-desktop", "--port", "49306", "--db", "/data/asahi.db"]
    );
    assert!(matches!(navigate_when_ready(0, false), WindowStep::Wait(250)));
    match navigate_when_ready(79, true) {
        WindowStep::Run(script) => {
            assert_eq!(script, "window.location.replace('http://127.0.0.1:49306/')");
        }
        other => panic!("expected the page, got {other:?}"),
    }
    match navigate_when_ready(80, false) {
        WindowStep::Run(script) => assert_eq!(script, "document.body.dataset.status = 'failed'"),
        other => panic!("expected the end, got {other:?}"),
    }
}

#[test]
fn paths_agree_with_the_standard_library() {
    for path in ["", "/", "a", "/a", "a/b", "a//b/", "./a", "a/./b", "..", "a/..", "/..", ".", "/.", "a/b/."] {
        let std_path = std::path::Path::new(path);
        assert_eq!(
            file_name(path),
            std_path.file_name().map(|name| name.to_string_lossy().to_string()),
            "{path}"
        );
        assert_eq!(
            parent(path).map(|p| std::path::PathBuf::from(p)),
            std_path.parent().map(std::path::Path::to_path_buf),
            "{path}"
        );
        assert_eq!(std::path::PathBuf::from(normalize(path)), std_path, "{path}");
        for tail in ["x", "/x", "", "../x"] {
            assert_eq!(
                std::path::PathBuf::from(join_path(path, tail)),
                std_path.join(tail),
                "{path} {tail}"
            );
        }
        for root in ["", "/", "a", "/a", "a/b"] {
            assert_eq!(starts_with(path, root), std_path.starts_with(root), "{path} {root}");
        }
    }
}

#[test]
fn texts_agree_with_the_standard_library() {
    for text in ["", " ", " a ", "\u{a0}x\u{2003}", "a\nb", "a\r\nb\r\n", "\n", "a\n\nb", "é ", "\u{85}q"] {
        assert_eq!(trim(text), text.trim(), "{text:?}");
        assert_eq!(
            lines(text),
            text.lines().map(str::to_string).collect::<Vec<_>>(),
            "{text:?}"
        );
    }
    for n in [0, 9, 10, 1_234_567_890, u64::MAX] {
        assert_eq!(unsigned_text(n), n.to_string());
    }
    for n in [i64::MIN, -1, 0, 7, i64::MAX] {
        assert_eq!(signed_text(n), n.to_string());
    }
    for text in ["", "+", "-1", "+7", "007", "18446744073709551615", "18446744073709551616", "1x"] {
        assert_eq!(parse_unsigned(text, u64::MAX), text.parse::<u64>().ok(), "{text}");
    }
    assert_eq!(parse_unsigned("11", 10), None);
}

#[test]
fn maps_and_sets_keep_one_entry_for_a_key() {
    let mut map: TextMap<u32> = TextMap::new();
    map.insert("a".to_string(), 1);
    map.insert("b".to_string(), 2);
    map.insert("a".to_string(), 3);
    assert_eq!(map.len(), 2);
    assert_eq!(map.get("a"), Some(&3));
    assert_eq!(map.remove("a"), Some(3));
    assert_eq!(map.remove("a"), None);
    assert!(!map.contains_key("a") && map.contains_key("b"));
    let mut set = TextSet::new();
    assert!(set.insert("x".to_string()));
    assert!(!set.insert("x".to_string()));
    assert_eq!(set.len(), 1);
    assert!(set.remove("x"));
    assert!(!set.remove("x") && !set.contains("x"));
}

#[test]
fn elapsed_time_is_counted_in_whole_milliseconds() {
    let since = Timestamp { secs: 10, nanos: 900_000_000 };
    let now = Timestamp { secs: 11, nanos: 1_999_999 };
    assert_eq!(elapsed_millis(&now, &since), 101);
    assert_eq!(elapsed_millis(&since, &now), -101);
    assert!(since.is_before(&now));
}
