use filenav::nav::{IoFailure, Node, NodeKind, State};

fn node(name: &str, kind: NodeKind) -> Node {
    Node {
        path: format!("/tmp/{}", name),
        name: name.to_string(),
        kind,
        size: 10,
        created: 1_000_000_000,
        modified: 1_000_000_000,
    }
}

fn three_nodes() -> Vec<Node> {
    vec![
        node("a", NodeKind::File),
        node("b", NodeKind::File),
        node("c", NodeKind::Directory),
    ]
}

#[test]
fn navigate_then_back_scenario() {
    let mut s = State::init("/a".to_string());
    assert!(s.set_path("/a".to_string()).is_none());
    assert!(s.set_path("/b".to_string()).is_some());
    assert!(s.go_back().is_some());
    assert_eq!(s.path(), "/a");
    assert!(!s.can_go_back());
    assert!(s.can_go_forward());
    assert!(s.go_forward().is_some());
    assert_eq!(s.path(), "/b");
    assert!(!s.can_go_forward());
}

#[test]
fn navigate_to_current_is_noop() {
    let mut s = State::init("/x".to_string());
    assert!(s.set_path("/x".to_string()).is_none());
    assert!(!s.can_go_back());
    assert!(!s.can_go_forward());
    assert_eq!(s.path(), "/x");
}

#[test]
fn navigate_clears_forward_stack() {
    let mut s = State::init("/a".to_string());
    s.set_path("/b".to_string());
    s.go_back();
    assert!(s.can_go_forward());
    s.set_path("/c".to_string());
    assert!(!s.can_go_forward());
    assert!(s.can_go_back());
}

#[test]
fn go_back_noop_when_empty() {
    let mut s = State::init("/a".to_string());
    assert!(s.go_back().is_none());
    assert_eq!(s.path(), "/a");
}

#[test]
fn go_forward_noop_when_empty() {
    let mut s = State::init("/a".to_string());
    assert!(s.go_forward().is_none());
    assert_eq!(s.path(), "/a");
}

#[test]
fn selection_scenario() {
    let mut s = State::init("/a".to_string());
    s.apply_listing(Ok(three_nodes()));
    assert_eq!(s.selected(), None);
    assert!(s.next_selected().is_some());
    assert_eq!(s.selected(), Some(0));
    assert!(s.next_selected().is_some());
    assert_eq!(s.selected(), Some(1));
    assert!(s.next_selected().is_some());
    assert_eq!(s.selected(), Some(2));
    assert!(s.next_selected().is_none());
    assert_eq!(s.selected(), Some(2));
}

#[test]
fn back_selection_never_wraps() {
    let mut s = State::init("/a".to_string());
    s.apply_listing(Ok(three_nodes()));
    assert!(s.back_selected().is_some());
    assert_eq!(s.selected(), Some(0));
    assert!(s.back_selected().is_none());
    assert_eq!(s.selected(), Some(0));
}

#[test]
fn selection_on_empty_listing_is_noop() {
    let mut s = State::init("/a".to_string());
    assert!(s.next_selected().is_none());
    assert_eq!(s.selected(), None);
    assert!(s.back_selected().is_none());
    assert_eq!(s.selected(), None);
}

#[test]
fn navigation_resets_selection() {
    let mut s = State::init("/a".to_string());
    s.apply_listing(Ok(three_nodes()));
    s.next_selected();
    assert_eq!(s.selected(), Some(0));
    s.set_path("/b".to_string());
    assert_eq!(s.selected(), None);

    s.apply_listing(Ok(three_nodes()));
    s.next_selected();
    s.go_back();
    assert_eq!(s.selected(), None);
}

#[test]
fn go_up_resets_selection() {
    let mut s = State::init("/a/b".to_string());
    s.apply_listing(Ok(three_nodes()));
    s.next_selected();
    assert!(s.go_up().is_some());
    assert_eq!(s.path(), "/a");
    assert_eq!(s.selected(), None);
}

#[test]
fn go_forward_keeps_selection() {
    let mut s = State::init("/a".to_string());
    s.set_path("/b".to_string());
    s.go_back();
    s.apply_listing(Ok(three_nodes()));
    s.next_selected();
    assert_eq!(s.selected(), Some(0));
    assert!(s.go_forward().is_some());
    assert_eq!(s.selected(), Some(0));
}

#[test]
fn stale_selection_cleared_by_new_listing() {
    let mut s = State::init("/a".to_string());
    s.apply_listing(Ok(three_nodes()));
    s.next_selected();
    s.next_selected();
    s.next_selected();
    assert_eq!(s.selected(), Some(2));
    s.apply_listing(Ok(vec![node("only", NodeKind::File)]));
    assert_eq!(s.selected(), None);
    s.next_selected();
    assert_eq!(s.selected(), Some(0));
    s.apply_listing(Ok(three_nodes()));
    assert_eq!(s.selected(), Some(0));
}

#[test]
fn clear_selection() {
    let mut s = State::init("/a".to_string());
    s.apply_listing(Ok(three_nodes()));
    s.next_selected();
    s.clear_selection();
    assert_eq!(s.selected(), None);
}

#[test]
fn failed_listing_degrades_to_empty() {
    let mut s = State::init("/a".to_string());
    s.apply_listing(Ok(three_nodes()));
    assert_eq!(s.nodes().len(), 3);
    s.apply_listing(Err(IoFailure::PermissionDenied));
    assert_eq!(s.nodes().len(), 0);
    s.apply_listing(Err(IoFailure::NotFound));
    assert_eq!(s.nodes().len(), 0);
    s.apply_listing(Err(IoFailure::Other("disk on fire".to_string())));
    assert_eq!(s.nodes().len(), 0);
    assert_eq!(s.path(), "/a");
}

#[test]
fn go_up_to_root_then_noop() {
    let mut s = State::init("/a/b".to_string());
    assert!(s.can_go_up());
    s.go_up();
    assert_eq!(s.path(), "/a");
    s.go_up();
    assert_eq!(s.path(), "/");
    assert!(!s.can_go_up());
    assert!(s.go_up().is_none());
    assert_eq!(s.path(), "/");
}

#[test]
fn go_up_without_separator_is_noop() {
    let mut s = State::init("plain".to_string());
    assert!(!s.can_go_up());
    assert!(s.go_up().is_none());
    assert_eq!(s.path(), "plain");
}

#[test]
fn node_kind_from_flags() {
    assert_eq!(NodeKind::from_flags(true, false), NodeKind::Directory);
    assert_eq!(NodeKind::from_flags(true, true), NodeKind::Directory);
    assert_eq!(NodeKind::from_flags(false, true), NodeKind::File);
    assert_eq!(NodeKind::from_flags(false, false), NodeKind::Unknown);
}

#[test]
fn nodes_returns_listing_in_order() {
    let mut s = State::init("/a".to_string());
    s.apply_listing(Ok(three_nodes()));
    let names: Vec<String> = s.nodes().iter().map(|n| n.name.clone()).collect();
    assert_eq!(names, vec!["a".to_string(), "b".to_string(), "c".to_string()]);
}
