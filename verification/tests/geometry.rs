use chat_scroll::geometry::{
    offset_to_parent, scroll_command, shift_of, to_i64, to_whole_pixels, Corner,
};
use chat_scroll::{ScrollCommand, ScrollConfig, ScrollMetrics, Viewport};

fn viewport(scroll_top: i32, scroll_height: i32, client_height: i32) -> Viewport {
    Viewport { scroll_top, scroll_height, client_height, padding_top: 0, padding_bottom: 0 }
}

#[test]
fn standard_config_values() {
    let config = ScrollConfig::new();
    assert_eq!(config.min_row, 74_000);
    assert_eq!(config.min_buffer_size, 750);
    assert_eq!(config.continuation_step_back, 750);
    assert_eq!(config.query_size, 3000);
}

#[test]
fn limit_without_viewport_is_default() {
    assert_eq!(ScrollConfig::new().compute_limit(None), 100);
}

#[test]
fn limit_covers_three_viewport_heights() {
    // 600 px * 3 / 74 px = 24.32..., so 25 rows.
    assert_eq!(ScrollConfig::new().compute_limit(Some(viewport(0, 5000, 600))), 25);
    // 740 px * 3 / 74 px = 30 exactly.
    assert_eq!(ScrollConfig::new().compute_limit(Some(viewport(0, 5000, 740))), 30);
    // One pixel more needs one more row.
    assert_eq!(ScrollConfig::new().compute_limit(Some(viewport(0, 5000, 741))), 31);
}

#[test]
fn limit_excludes_padding() {
    let v = Viewport {
        scroll_top: 0,
        scroll_height: 5000,
        client_height: 600,
        padding_top: 16_000,
        padding_bottom: 12_500,
    };
    // (600 - 16 - 12.5) * 3 / 74 = 23.16..., so 24 rows.
    assert_eq!(ScrollConfig::new().compute_limit(Some(v)), 24);
}

#[test]
fn limit_of_empty_viewport_is_zero() {
    assert_eq!(ScrollConfig::new().compute_limit(Some(viewport(0, 0, 0))), 0);
    let v = Viewport {
        scroll_top: 0,
        scroll_height: 0,
        client_height: 10,
        padding_top: 20_000,
        padding_bottom: 0,
    };
    assert_eq!(ScrollConfig::new().compute_limit(Some(v)), 0);
}

#[test]
fn limit_with_rows_of_no_height_is_unbounded() {
    let config = ScrollConfig { min_row: 0, ..ScrollConfig::new() };
    assert_eq!(config.compute_limit(Some(viewport(0, 5000, 600))), usize::MAX);
    assert_eq!(config.compute_limit(Some(viewport(0, 0, 0))), 0);
}

#[test]
fn limit_survives_extreme_geometry() {
    let v = Viewport {
        scroll_top: 0,
        scroll_height: 0,
        client_height: i32::MAX,
        padding_top: i64::MIN,
        padding_bottom: i64::MIN,
    };
    let config = ScrollConfig { min_row: 1, query_size: u32::MAX, ..ScrollConfig::new() };
    assert_eq!(config.compute_limit(Some(v)), usize::MAX);
    let v = Viewport { padding_top: i64::MAX, padding_bottom: i64::MAX, ..v };
    assert_eq!(config.compute_limit(Some(v)), 0);
}

#[test]
fn thresholds_without_viewport_are_defaults() {
    assert_eq!(ScrollConfig::new().get_thresholds(None), (150_000, 240_000));
}

#[test]
fn thresholds_are_three_quarters_of_the_height() {
    assert_eq!(
        ScrollConfig::new().get_thresholds(Some(viewport(0, 5000, 600))),
        (450_000, 450_000)
    );
    assert_eq!(ScrollConfig::new().get_thresholds(Some(viewport(0, 5000, 1))), (750, 750));
    let config =
        ScrollConfig { min_buffer_size: 500, continuation_step_back: 250, ..ScrollConfig::new() };
    assert_eq!(config.get_thresholds(Some(viewport(0, 5000, 600))), (300_000, 150_000));
}

#[test]
fn thresholds_survive_extreme_geometry() {
    let config = ScrollConfig {
        min_buffer_size: u32::MAX,
        continuation_step_back: u32::MAX,
        ..ScrollConfig::new()
    };
    let t = config.get_thresholds(Some(viewport(0, 0, i32::MIN)));
    assert_eq!(t.0, -(u32::MAX as i64) * 2_147_483_648);
    let t = config.get_thresholds(Some(viewport(0, 0, i32::MAX)));
    assert_eq!(t.1, u32::MAX as i64 * 2_147_483_647);
}

#[test]
fn metrics_of_a_viewport() {
    let metrics = ScrollConfig::new().measure(viewport(120, 5000, 600), 42);
    assert_eq!(
        metrics,
        ScrollMetrics {
            top_gap: 120_000,
            bottom_gap: 4_280_000,
            min_buffer: 450_000,
            step_back: 450_000,
            result_count: 42,
        }
    );
}

#[test]
fn metrics_survive_extreme_geometry() {
    let metrics = ScrollConfig::new().measure(viewport(i32::MIN, i32::MAX, i32::MIN), 0);
    assert_eq!(metrics.top_gap, -2_147_483_648_000);
    assert_eq!(metrics.bottom_gap, 1000 * (2_147_483_647i64 + 2 * 2_147_483_648));
}

#[test]
fn whole_pixels_drop_the_fraction() {
    assert_eq!(to_whole_pixels(0), 0);
    assert_eq!(to_whole_pixels(999), 0);
    assert_eq!(to_whole_pixels(1000), 1);
    assert_eq!(to_whole_pixels(1999), 1);
    assert_eq!(to_whole_pixels(-999), 0);
    assert_eq!(to_whole_pixels(-1000), -1);
    assert_eq!(to_whole_pixels(-1999), -1);
}

#[test]
fn whole_pixels_stay_in_range() {
    assert_eq!(to_whole_pixels(2_147_483_647_999), i32::MAX);
    assert_eq!(to_whole_pixels(2_147_483_648_000), i32::MAX);
    assert_eq!(to_whole_pixels(-2_147_483_648_000), i32::MIN);
    assert_eq!(to_whole_pixels(-2_147_483_649_000), i32::MIN);
    assert_eq!(to_whole_pixels(i128::MAX), i32::MAX);
    assert_eq!(to_whole_pixels(i128::MIN), i32::MIN);
    assert_eq!(to_whole_pixels(i128::MIN + 1), i32::MIN);
}

#[test]
fn scroll_command_needs_more_than_a_tenth_of_a_pixel() {
    assert_eq!(scroll_command(100_000, 100), None);
    assert_eq!(scroll_command(100_100, 100), None);
    assert_eq!(scroll_command(99_900, 100), None);
    assert_eq!(scroll_command(100_101, 100), Some(ScrollCommand { scroll_top: 100 }));
    assert_eq!(scroll_command(99_899, 100), Some(ScrollCommand { scroll_top: 99 }));
    assert_eq!(scroll_command(250_500, 100), Some(ScrollCommand { scroll_top: 250 }));
    assert_eq!(scroll_command(-3_700, 0), Some(ScrollCommand { scroll_top: -3 }));
}

#[test]
fn scroll_command_survives_extremes() {
    assert_eq!(scroll_command(i128::MAX, i32::MIN), Some(ScrollCommand { scroll_top: i32::MAX }));
    assert_eq!(scroll_command(i128::MIN, i32::MAX), Some(ScrollCommand { scroll_top: i32::MIN }));
}

#[test]
fn anchor_shift_is_after_minus_before() {
    assert_eq!(shift_of(Some(120_000), Some(980_500)), 860_500);
    assert_eq!(shift_of(Some(980_500), Some(120_000)), -860_500);
    assert_eq!(shift_of(Some(5), Some(5)), 0);
}

#[test]
fn anchor_lost_after_reload_has_not_moved() {
    assert_eq!(shift_of(Some(120_000), None), 0);
    assert_eq!(shift_of(None, None), 0);
}

#[test]
fn anchor_not_measured_before_counts_from_zero() {
    assert_eq!(shift_of(None, Some(300_000)), 300_000);
}

#[test]
fn anchor_shift_survives_extremes() {
    assert_eq!(shift_of(Some(i64::MIN), Some(i64::MAX)), i64::MAX as i128 - i64::MIN as i128);
    assert_eq!(shift_of(Some(i64::MAX), Some(i64::MIN)), i64::MIN as i128 - i64::MAX as i128);
}

#[test]
fn clipping_to_i64() {
    assert_eq!(to_i64(0), 0);
    assert_eq!(to_i64(-12), -12);
    assert_eq!(to_i64(i64::MAX as i128 + 1), i64::MAX);
    assert_eq!(to_i64(i64::MIN as i128 - 1), i64::MIN);
}

#[test]
fn offset_within_parent() {
    let element = Corner { left: 30_250, top: 412_000 };
    let parent = Corner { left: 10_000, top: 12_500 };
    assert_eq!(offset_to_parent(element, Some(parent)), Some((20_250, 399_500)));
}

#[test]
fn offset_without_parent_is_none() {
    assert_eq!(offset_to_parent(Corner { left: 1, top: 2 }, None), None);
}

#[test]
fn offset_is_clipped() {
    let element = Corner { left: i64::MAX, top: i64::MIN };
    let parent = Corner { left: i64::MIN, top: i64::MAX };
    assert_eq!(offset_to_parent(element, Some(parent)), Some((i64::MAX, i64::MIN)));
}
