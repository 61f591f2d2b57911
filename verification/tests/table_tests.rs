use filenav::nav::{Node, NodeKind, State};
use filenav::table::{follow_selection, visible_rows};
use filenav::viewport::ListViewport;

fn listing(n: usize) -> Vec<Node> {
    (0..n)
        .map(|i| Node {
            path: format!("/d/n{}", i),
            name: format!("n{}", i),
            kind: NodeKind::File,
            size: i as u64,
            created: 0,
            modified: 0,
        })
        .collect()
}

#[test]
fn visible_rows_materializes_the_slice() {
    let mut s = State::init("/d".to_string());
    s.apply_listing(Ok(listing(100)));
    s.next_selected();
    s.next_selected();
    s.next_selected(); // selection Some(2)
    let rows = visible_rows(&s, 1, 4);
    assert_eq!(rows.len(), 3);
    assert_eq!(rows[0].0, 1);
    assert_eq!(rows[0].1.name, "n1");
    assert!(!rows[0].2);
    assert_eq!(rows[1].0, 2);
    assert!(rows[1].2);
    assert_eq!(rows[2].0, 3);
    assert!(!rows[2].2);
}

#[test]
fn visible_rows_of_empty_range() {
    let mut s = State::init("/d".to_string());
    s.apply_listing(Ok(listing(5)));
    assert!(visible_rows(&s, 3, 3).is_empty());
}

#[test]
fn follow_selection_scrolls_to_the_row() {
    let mut s = State::init("/d".to_string());
    s.apply_listing(Ok(listing(100)));
    let mut vp = ListViewport::new(20);
    vp.set_viewport_height(60);
    follow_selection(&s, &mut vp);
    assert_eq!(vp.total_item_count(), 100);
    assert_eq!(vp.scroll_offset(), 0);
    for _ in 0..50 {
        s.next_selected();
    }
    // selection 49: row top 980, clamped into [0, 2000 - 60]
    follow_selection(&s, &mut vp);
    assert_eq!(vp.scroll_offset(), 980);
}

#[test]
fn stale_listing_is_discarded() {
    let mut s = State::init("/a".to_string());
    s.set_path("/b".to_string());
    // A load that was started for /a arrives after the navigation to /b.
    assert!(!s.apply_listing_for(&"/a".to_string(), Ok(listing(3))));
    assert_eq!(s.nodes().len(), 0);
    // The load for the current location applies.
    assert!(s.apply_listing_for(&"/b".to_string(), Ok(listing(3))));
    assert_eq!(s.nodes().len(), 3);
}
