use filenav::viewport::{ListViewport, ScrollStrategy};

fn five_item_viewport() -> ListViewport {
    let mut vp = ListViewport::new(20);
    vp.set_total_item_count(5);
    vp.set_viewport_height(45);
    vp
}

#[test]
fn visible_range_scenario() {
    let mut vp = five_item_viewport();
    vp.set_scroll_offset(0);
    assert_eq!(vp.visible_range(), (0, 3));
    vp.set_scroll_offset(20);
    assert_eq!(vp.visible_range(), (1, 4));
}

#[test]
fn visible_range_at_max_scroll() {
    let mut vp = five_item_viewport();
    // content 100, viewport 45: max scroll 55
    vp.set_scroll_offset(55);
    assert_eq!(vp.scroll_offset(), 55);
    assert_eq!(vp.visible_range(), (2, 5));
}

#[test]
fn scroll_offset_is_clamped() {
    let mut vp = five_item_viewport();
    vp.set_scroll_offset(1000);
    assert_eq!(vp.scroll_offset(), 55);
    assert_eq!(vp.max_scroll(), 55);
}

#[test]
fn small_content_never_scrolls() {
    let mut vp = ListViewport::new(20);
    vp.set_total_item_count(2);
    vp.set_viewport_height(100);
    assert_eq!(vp.max_scroll(), 0);
    vp.set_scroll_offset(30);
    assert_eq!(vp.scroll_offset(), 0);
    assert_eq!(vp.visible_range(), (0, 2));
}

#[test]
fn empty_listing_has_empty_range() {
    let mut vp = ListViewport::new(20);
    vp.set_viewport_height(45);
    assert_eq!(vp.visible_range(), (0, 0));
}

#[test]
fn shrinking_content_reclamps_scroll() {
    let mut vp = five_item_viewport();
    vp.set_scroll_offset(55);
    vp.set_total_item_count(3);
    // content 60, viewport 45: max scroll 15
    assert_eq!(vp.scroll_offset(), 15);
}

#[test]
fn growing_viewport_reclamps_scroll() {
    let mut vp = five_item_viewport();
    vp.set_scroll_offset(55);
    vp.set_viewport_height(90);
    // content 100, viewport 90: max scroll 10
    assert_eq!(vp.scroll_offset(), 10);
}

#[test]
fn scroll_to_index_top() {
    let mut vp = ListViewport::new(20);
    vp.set_total_item_count(100);
    vp.set_viewport_height(60);
    vp.scroll_to_index(10, ScrollStrategy::Top);
    assert_eq!(vp.scroll_offset(), 200);
    vp.scroll_to_index(99, ScrollStrategy::Top);
    // target 1980 clamped to max scroll 2000 - 60
    assert_eq!(vp.scroll_offset(), 1940);
}

#[test]
fn scroll_to_index_center() {
    let mut vp = ListViewport::new(20);
    vp.set_total_item_count(100);
    vp.set_viewport_height(60);
    // row 10 top 200, + row/2 (10) - viewport/2 (30) = 180
    vp.scroll_to_index(10, ScrollStrategy::Center);
    assert_eq!(vp.scroll_offset(), 180);
    // row 0: 0 + 10 - 30 goes below zero, clamped to 0
    vp.scroll_to_index(0, ScrollStrategy::Center);
    assert_eq!(vp.scroll_offset(), 0);
}

#[test]
fn scroll_to_index_nearest() {
    let mut vp = ListViewport::new(20);
    vp.set_total_item_count(100);
    vp.set_viewport_height(60);
    vp.set_scroll_offset(200);
    // row 11 spans 220..240, fully inside 200..260: no movement
    vp.scroll_to_index(11, ScrollStrategy::Nearest);
    assert_eq!(vp.scroll_offset(), 200);
    // row 5 spans 100..120, above: scroll to its top
    vp.scroll_to_index(5, ScrollStrategy::Nearest);
    assert_eq!(vp.scroll_offset(), 100);
    // row 20 spans 400..420, below: scroll so its bottom is the band's end
    vp.scroll_to_index(20, ScrollStrategy::Nearest);
    assert_eq!(vp.scroll_offset(), 360);
}

#[test]
fn visible_range_size_is_bounded() {
    let mut vp = ListViewport::new(20);
    vp.set_total_item_count(1000);
    vp.set_viewport_height(45);
    let bound = (45 + 20 - 1) / 20 + 1; // ceil(45/20) + 1 = 4
    let mut offset = 0;
    while offset <= vp.max_scroll() {
        vp.set_scroll_offset(offset);
        let (first, last) = vp.visible_range();
        assert!(first < last);
        assert!(last - first <= bound);
        offset += 7;
    }
}
