use chat_scroll::anchor::{backward_anchor, continuation_anchor, forward_anchor};
use chat_scroll::{ItemFrame, LoadingDirection, WindowItem};

fn row(timestamp: i64, top: i32, height: i32) -> WindowItem {
    WindowItem { timestamp: Some(timestamp), frame: Some(ItemFrame { top, height, offset: None }) }
}

fn rows(count: usize, height: i32) -> Vec<WindowItem> {
    let mut window = Vec::new();
    for i in 0..count {
        window.push(row(1000 + i as i64, i as i32 * height, height));
    }
    window
}

#[test]
fn backward_anchor_is_first_item_above_target() {
    // Ten rows of 100 px: the newest ends at 1000 px. Stepping back 450 px
    // gives 550 px; the first bottom edge at or above it, from the newest
    // down, is that of row 4 (500 px).
    let window = rows(10, 100);
    assert_eq!(backward_anchor(&window, 450_000), Some(4));
}

#[test]
fn backward_anchor_takes_item_whose_bottom_is_on_target() {
    let window = rows(10, 100);
    assert_eq!(backward_anchor(&window, 500_000), Some(4));
    assert_eq!(backward_anchor(&window, 500_001), Some(3));
    assert_eq!(backward_anchor(&window, 499_999), Some(4));
}

#[test]
fn backward_anchor_falls_back_to_oldest() {
    let window = rows(3, 100);
    assert_eq!(backward_anchor(&window, 5_000_000), Some(0));
}

#[test]
fn backward_anchor_with_no_step_is_newest() {
    let window = rows(3, 100);
    assert_eq!(backward_anchor(&window, 0), Some(2));
}

#[test]
fn forward_anchor_is_first_item_below_target() {
    // The oldest row starts at 0 px. Stepping forward 450 px, the first top
    // edge at or below it, from the oldest up, is that of row 5 (500 px).
    let window = rows(10, 100);
    assert_eq!(forward_anchor(&window, 450_000), Some(5));
}

#[test]
fn forward_anchor_takes_item_whose_top_is_on_target() {
    let window = rows(10, 100);
    assert_eq!(forward_anchor(&window, 500_000), Some(5));
    assert_eq!(forward_anchor(&window, 500_001), Some(6));
}

#[test]
fn forward_anchor_falls_back_to_newest() {
    let window = rows(3, 100);
    assert_eq!(forward_anchor(&window, 5_000_000), Some(2));
}

#[test]
fn forward_anchor_with_no_step_is_oldest() {
    let window = rows(3, 100);
    assert_eq!(forward_anchor(&window, 0), Some(0));
}

#[test]
fn empty_window_has_no_anchor() {
    let window: Vec<WindowItem> = Vec::new();
    assert_eq!(backward_anchor(&window, 100_000), None);
    assert_eq!(forward_anchor(&window, 100_000), None);
    assert_eq!(continuation_anchor(LoadingDirection::Backward, &window, 0), None);
    assert_eq!(continuation_anchor(LoadingDirection::Forward, &window, 0), None);
}

#[test]
fn single_item_is_its_own_anchor() {
    let window = rows(1, 80);
    assert_eq!(backward_anchor(&window, 600_000), Some(0));
    assert_eq!(forward_anchor(&window, 600_000), Some(0));
}

#[test]
fn unmeasured_newest_item_stops_backward_scan() {
    let mut window = rows(5, 100);
    window[4].frame = None;
    assert_eq!(backward_anchor(&window, 150_000), None);
}

#[test]
fn unmeasured_item_on_the_way_stops_backward_scan() {
    let mut window = rows(5, 100);
    window[3].frame = None;
    // The target is 500 - 250 = 250 px: row 1 would be the anchor, but the
    // scan meets row 3 first.
    assert_eq!(backward_anchor(&window, 250_000), None);
}

#[test]
fn unmeasured_item_past_the_anchor_is_not_looked_at() {
    let mut window = rows(5, 100);
    window[0].frame = None;
    assert_eq!(backward_anchor(&window, 250_000), Some(1));
    let mut window = rows(5, 100);
    window[4].frame = None;
    assert_eq!(forward_anchor(&window, 250_000), Some(3));
}

#[test]
fn unmeasured_oldest_item_stops_forward_scan() {
    let mut window = rows(5, 100);
    window[0].frame = None;
    assert_eq!(forward_anchor(&window, 150_000), None);
}

#[test]
fn unmeasured_item_stops_the_fallback() {
    let mut window = rows(3, 100);
    window[0].frame = None;
    assert_eq!(backward_anchor(&window, 5_000_000), None);
    let mut window = rows(3, 100);
    window[2].frame = None;
    assert_eq!(forward_anchor(&window, 5_000_000), None);
}

#[test]
fn anchor_is_always_an_item_of_the_window() {
    for count in 1..12usize {
        let window = rows(count, 37);
        for step in [0i64, 1, 36_999, 37_000, 37_001, 100_000, 369_000, 10_000_000, -50_000] {
            for direction in [LoadingDirection::Backward, LoadingDirection::Forward] {
                let found = continuation_anchor(direction, &window, step);
                assert!(matches!(found, Some(i) if i < window.len()));
            }
        }
    }
}

#[test]
fn continuation_anchor_follows_the_direction() {
    let window = rows(10, 100);
    assert_eq!(continuation_anchor(LoadingDirection::Backward, &window, 450_000), Some(4));
    assert_eq!(continuation_anchor(LoadingDirection::Forward, &window, 450_000), Some(5));
}

#[test]
fn anchor_scan_survives_extreme_frames() {
    let window = vec![
        WindowItem { timestamp: None, frame: Some(ItemFrame { top: i32::MIN, height: i32::MIN, offset: None }) },
        WindowItem { timestamp: None, frame: Some(ItemFrame { top: i32::MAX, height: i32::MAX, offset: None }) },
    ];
    assert_eq!(backward_anchor(&window, i64::MIN), Some(1));
    assert_eq!(backward_anchor(&window, i64::MAX), Some(0));
    assert_eq!(forward_anchor(&window, i64::MIN), Some(0));
    assert_eq!(forward_anchor(&window, i64::MAX), Some(1));
}

#[test]
fn offset_of_an_item_comes_from_its_frame() {
    let drawn = WindowItem {
        timestamp: None,
        frame: Some(ItemFrame { top: 10, height: 20, offset: Some(10_500) }),
    };
    let orphan =
        WindowItem { timestamp: None, frame: Some(ItemFrame { top: 10, height: 20, offset: None }) };
    let unmeasured = WindowItem { timestamp: None, frame: None };
    assert_eq!(drawn.offset(), Some(10_500));
    assert_eq!(orphan.offset(), None);
    assert_eq!(unmeasured.offset(), None);
}

#[test]
fn boundary_timestamp_defaults_to_zero() {
    let with = WindowItem { timestamp: Some(-7), frame: None };
    let without = WindowItem { timestamp: None, frame: None };
    assert_eq!(with.boundary(), -7);
    assert_eq!(without.boundary(), 0);
}
