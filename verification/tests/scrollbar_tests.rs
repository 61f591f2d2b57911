use filenav::scrollbar::{thumb_offset, Point, Scrollbar};
use filenav::viewport::ListViewport;

fn drag_viewport() -> ListViewport {
    // 100 rows of 20: content height 2000; viewport 400; max scroll 1600.
    let mut vp = ListViewport::new(20);
    vp.set_total_item_count(100);
    vp.set_viewport_height(400);
    vp
}

#[test]
fn drag_scenario() {
    let mut vp = drag_viewport();
    let mut sb = Scrollbar::new();
    // Grab the thumb 5 units below its top edge: anchor (0, 5).
    sb.pointer_down(Point { x: 0, y: 5 }, Point { x: 0, y: 0 });
    assert!(sb.is_dragging());
    // Track origin 0, track height 400; pointer at y = 100.
    // (100 - 5) / 400 of the 1600 scrollable units = 380.
    let applied = sb.pointer_move(&mut vp, 100, 0, 400, true);
    assert_eq!(applied, Some(380));
    assert_eq!(vp.scroll_offset(), 380);
}

#[test]
fn drag_clamps_to_track_ends() {
    let mut vp = drag_viewport();
    let mut sb = Scrollbar::new();
    sb.pointer_down(Point { x: 3, y: 0 }, Point { x: 0, y: 0 });
    // Far above the track: percentage clamps to 0.
    assert_eq!(sb.pointer_move(&mut vp, -5000, 0, 400, true), Some(0));
    assert_eq!(vp.scroll_offset(), 0);
    // Far below the track: percentage clamps to 1, offset to max scroll.
    assert_eq!(sb.pointer_move(&mut vp, 5000, 0, 400, true), Some(1600));
    assert_eq!(vp.scroll_offset(), 1600);
}

#[test]
fn move_without_grab_is_ignored() {
    let mut vp = drag_viewport();
    let sb = Scrollbar::new();
    assert_eq!(sb.pointer_move(&mut vp, 100, 0, 400, true), None);
    assert_eq!(vp.scroll_offset(), 0);
}

#[test]
fn press_outside_thumb_is_ignored() {
    let mut sb = Scrollbar::new();
    // Thumb is 8 wide and 100 tall at (0, 0).
    sb.pointer_down(Point { x: 9, y: 5 }, Point { x: 0, y: 0 });
    assert!(!sb.is_dragging());
    sb.pointer_down(Point { x: 3, y: 100 }, Point { x: 0, y: 0 });
    assert!(!sb.is_dragging());
    sb.pointer_down(Point { x: 3, y: -1 }, Point { x: 0, y: 0 });
    assert!(!sb.is_dragging());
}

#[test]
fn pointer_up_ends_drag() {
    let mut vp = drag_viewport();
    let mut sb = Scrollbar::new();
    sb.pointer_down(Point { x: 0, y: 0 }, Point { x: 0, y: 0 });
    assert!(sb.is_dragging());
    sb.pointer_up();
    assert!(!sb.is_dragging());
    assert_eq!(sb.pointer_move(&mut vp, 100, 0, 400, true), None);
    assert_eq!(vp.scroll_offset(), 0);
}

#[test]
fn second_press_does_not_move_anchor() {
    let mut vp = drag_viewport();
    let mut sb = Scrollbar::new();
    sb.pointer_down(Point { x: 0, y: 5 }, Point { x: 0, y: 0 });
    // A second press while dragging keeps the first anchor.
    sb.pointer_down(Point { x: 0, y: 50 }, Point { x: 0, y: 0 });
    assert_eq!(sb.pointer_move(&mut vp, 100, 0, 400, true), Some(380));
}

#[test]
fn move_without_button_pressed_is_ignored() {
    let mut vp = drag_viewport();
    let mut sb = Scrollbar::new();
    sb.pointer_down(Point { x: 0, y: 0 }, Point { x: 0, y: 0 });
    assert_eq!(sb.pointer_move(&mut vp, 100, 0, 400, false), None);
    assert_eq!(vp.scroll_offset(), 0);
}

#[test]
fn move_on_zero_track_is_ignored() {
    let mut vp = drag_viewport();
    let mut sb = Scrollbar::new();
    sb.pointer_down(Point { x: 0, y: 0 }, Point { x: 0, y: 0 });
    assert_eq!(sb.pointer_move(&mut vp, 100, 0, 0, true), None);
    assert_eq!(vp.scroll_offset(), 0);
}

#[test]
fn thumb_offset_tracks_scroll() {
    // Track 400, content 2000.
    assert_eq!(thumb_offset(400, 2000, 0), Some(4)); // lifted to the margin
    assert_eq!(thumb_offset(400, 2000, 500), Some(100));
    assert_eq!(thumb_offset(400, 2000, 1600), Some(296)); // capped at 400 - 104
}

#[test]
fn thumb_hidden_without_extent() {
    assert_eq!(thumb_offset(0, 2000, 10), None);
    assert_eq!(thumb_offset(400, 0, 10), None);
}

#[test]
fn thumb_offset_on_short_track() {
    // A track shorter than thumb + margins pins the thumb at the margin.
    assert_eq!(thumb_offset(50, 2000, 1999), Some(4));
}

#[test]
fn thumb_offset_stays_inside_margins() {
    let mut scroll = 0;
    while scroll <= 2000 {
        let off = thumb_offset(400, 2000, scroll).unwrap();
        assert!((4..=296).contains(&off));
        scroll += 13;
    }
}
