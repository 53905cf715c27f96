use luna::domain::project::{project_matches_locator, Project};
use luna::domain::wiki::{wiki_node_matches_locator, WikiNode, WikiNodeKind};

fn project() -> Project {
    Project {
        id: "project-1".to_string(),
        slug: "asahi-web".to_string(),
        name: "Asahi Web".to_string(),
        description: None,
        priority: Some(1),
        state: "Todo".to_string(),
        url: None,
        created_at: None,
        updated_at: None,
    }
}

fn node() -> WikiNode {
    WikiNode {
        id: "node-1".to_string(),
        project_id: "project-1".to_string(),
        parent_id: None,
        kind: WikiNodeKind::Page,
        title: "Design Notes".to_string(),
        slug: "design-notes".to_string(),
        content: Some("content".to_string()),
        current_version: None,
        created_at: None,
        updated_at: None,
        deleted_at: None,
    }
}

#[test]
fn project_locator_matches_id_or_slug_case_insensitive() {
    let project = project();
    assert!(project_matches_locator(&project, "project-1"));
    assert!(project_matches_locator(&project, "ASAHI-WEB"));
}

#[test]
fn project_locator_does_not_match_display_name() {
    let project = project();
    assert!(!project_matches_locator(&project, "Asahi Web"));
}

#[test]
fn project_id_is_compared_with_its_case() {
    assert!(!project_matches_locator(&project(), "PROJECT-1"));
}

#[test]
fn wiki_node_kind_parse_accepts_trimmed_case_insensitive_values() {
    assert_eq!(WikiNodeKind::parse(" folder "), Some(WikiNodeKind::Folder));
    assert_eq!(WikiNodeKind::parse("PAGE"), Some(WikiNodeKind::Page));
}

#[test]
fn wiki_node_kind_parse_rejects_unknown_values() {
    assert_eq!(WikiNodeKind::parse("document"), None);
    assert_eq!(WikiNodeKind::parse(""), None);
}

#[test]
fn wiki_node_kind_reads_back_what_it_writes() {
    for kind in [WikiNodeKind::Folder, WikiNodeKind::Page] {
        assert_eq!(WikiNodeKind::parse(kind.as_str()), Some(kind));
    }
    assert_eq!(WikiNodeKind::Folder.as_str(), "folder");
}

#[test]
fn wiki_node_locator_matches_id_or_slug_case_insensitive() {
    let node = node();
    assert!(wiki_node_matches_locator(&node, "node-1"));
    assert!(wiki_node_matches_locator(&node, "DESIGN-NOTES"));
    assert!(!wiki_node_matches_locator(&node, "Design Notes"));
}
