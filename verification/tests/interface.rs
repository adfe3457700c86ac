use chat_scroll::menu::place_menu;
use chat_scroll::qr::{picture_for, qr_code_svg};
use chat_scroll::readout::{
    class_of, format_gap, name_of, percent, to_rounded_pixels, will_trigger,
};
use chat_scroll::rooms::{choose_room, find_by_id, find_by_name, unread_badge, RoomEntry};
use chat_scroll::ScrollMode;

fn entry(id: &str, name: &str) -> RoomEntry {
    RoomEntry { id: id.to_string(), name: name.to_string() }
}

#[test]
fn qr_code_is_an_svg_picture_of_the_address() {
    let picture = qr_code_svg("http://192.168.1.20:5173/?room=abc");
    assert!(picture.starts_with("<?xml version=\"1.0\" standalone=\"yes\"?><svg "));
    assert!(picture.ends_with("\"/></svg>"));
    assert!(picture.contains("<path fill=\"#000\" d=\"M"));
    assert_ne!(picture, "http://192.168.1.20:5173/?room=abc");
}

#[test]
fn qr_code_is_at_least_256_pixels_wide() {
    // A short address gives a code of 21 modules, 29 with the quiet zone;
    // modules of 9 pixels are the smallest that reach 256 pixels.
    let picture = qr_code_svg("a");
    assert!(picture.contains("width=\"261\" height=\"261\""));
}

#[test]
fn qr_code_is_the_same_for_the_same_address() {
    assert_eq!(qr_code_svg("http://example.test/"), qr_code_svg("http://example.test/"));
    assert_ne!(qr_code_svg("http://example.test/"), qr_code_svg("http://example.test/?"));
}

#[test]
fn qr_code_of_too_long_an_address_is_an_empty_picture() {
    let long = "x".repeat(8000);
    assert_eq!(qr_code_svg(&long), "<svg></svg>");
}

#[test]
fn picture_for_a_rendering() {
    assert_eq!(picture_for(Some("<svg>1</svg>".to_string())), "<svg>1</svg>");
    assert_eq!(picture_for(None), "<svg></svg>");
}

#[test]
fn menu_that_fits_opens_where_asked() {
    assert_eq!(place_menu(200, 300, 120, 80, 1024, 768), (200, 300));
    assert_eq!(place_menu(904, 688, 120, 80, 1024, 768), (904, 688));
}

#[test]
fn menu_is_moved_off_the_right_and_bottom_edges() {
    assert_eq!(place_menu(905, 300, 120, 80, 1024, 768), (894, 300));
    assert_eq!(place_menu(200, 689, 120, 80, 1024, 768), (200, 678));
    assert_eq!(place_menu(2000, 2000, 120, 80, 1024, 768), (894, 678));
}

#[test]
fn menu_keeps_a_margin_to_the_left_and_top() {
    assert_eq!(place_menu(3, 5, 120, 80, 1024, 768), (10, 10));
    assert_eq!(place_menu(-40, 10, 120, 80, 1024, 768), (10, 10));
    // A menu wider than the window starts at the margin.
    assert_eq!(place_menu(50, 50, 2000, 900, 1024, 768), (10, 10));
}

#[test]
fn menu_placement_survives_extremes() {
    assert_eq!(place_menu(i32::MAX, i32::MAX, i32::MAX, i32::MAX, 0, 0), (10, 10));
    assert_eq!(
        place_menu(i32::MAX, i32::MAX, i32::MIN, i32::MIN, i32::MAX, i32::MAX),
        (i32::MAX, i32::MAX)
    );
    assert_eq!(place_menu(0, 0, 1, 1, i32::MIN, i32::MIN), (10, 10));
}

#[test]
fn unread_badge_texts() {
    assert_eq!(unread_badge(0), None);
    assert_eq!(unread_badge(1), Some("1".to_string()));
    assert_eq!(unread_badge(9), Some("9".to_string()));
    assert_eq!(unread_badge(10), Some("10+".to_string()));
    assert_eq!(unread_badge(11), Some("10+".to_string()));
    assert_eq!(unread_badge(usize::MAX), Some("10+".to_string()));
}

#[test]
fn wanted_room_opens_first() {
    let rooms = vec![entry("a", "General"), entry("b", "Random"), entry("c", "Dev")];
    assert_eq!(choose_room(false, &rooms, &Some("c".to_string())), Some(2));
    assert_eq!(choose_room(false, &rooms, &Some("a".to_string())), Some(0));
}

#[test]
fn general_opens_where_no_room_is_wanted() {
    let rooms = vec![entry("b", "Random"), entry("a", "General"), entry("c", "General")];
    assert_eq!(choose_room(false, &rooms, &None), Some(1));
    assert_eq!(choose_room(false, &rooms, &Some("zzz".to_string())), Some(1));
}

#[test]
fn no_room_opens_where_none_qualifies() {
    let rooms = vec![entry("b", "Random"), entry("c", "general")];
    assert_eq!(choose_room(false, &rooms, &None), None);
    assert_eq!(choose_room(false, &rooms, &Some("zzz".to_string())), None);
    assert_eq!(choose_room(false, &Vec::new(), &Some("b".to_string())), None);
}

#[test]
fn no_room_opens_while_one_is_selected() {
    let rooms = vec![entry("a", "General")];
    assert_eq!(choose_room(true, &rooms, &Some("a".to_string())), None);
    assert_eq!(choose_room(true, &rooms, &None), None);
}

#[test]
fn rooms_are_found_by_identity_and_name() {
    let rooms = vec![entry("a", "One"), entry("b", "Two"), entry("b", "One")];
    assert_eq!(find_by_id(&rooms, &"b".to_string()), Some(1));
    assert_eq!(find_by_id(&rooms, &"x".to_string()), None);
    assert_eq!(find_by_name(&rooms, &"One".to_string()), Some(0));
    assert_eq!(find_by_name(&rooms, &"Two".to_string()), Some(1));
    assert_eq!(find_by_name(&rooms, &"".to_string()), None);
}

#[test]
fn gaps_are_rounded_to_whole_pixels() {
    assert_eq!(to_rounded_pixels(0), 0);
    assert_eq!(to_rounded_pixels(499), 0);
    assert_eq!(to_rounded_pixels(500), 1);
    assert_eq!(to_rounded_pixels(1499), 1);
    assert_eq!(to_rounded_pixels(1500), 2);
    assert_eq!(to_rounded_pixels(-499), 0);
    assert_eq!(to_rounded_pixels(-500), -1);
    assert_eq!(to_rounded_pixels(-1500), -2);
    assert_eq!(to_rounded_pixels(i64::MAX), i32::MAX);
    assert_eq!(to_rounded_pixels(i64::MIN), i32::MIN);
}

#[test]
fn gap_as_a_percentage_of_the_trigger() {
    assert_eq!(percent(450_000, 450_000), 100);
    assert_eq!(percent(120_000, 450_000), 27);
    assert_eq!(percent(2_250, 450_000), 1);
    assert_eq!(percent(2_249, 450_000), 0);
    assert_eq!(percent(-2_250, 450_000), -1);
    assert_eq!(percent(120_000, -450_000), -27);
    assert_eq!(percent(-120_000, -450_000), 27);
    assert_eq!(percent(0, 450_000), 0);
}

#[test]
fn percentage_of_no_trigger() {
    assert_eq!(percent(1, 0), i32::MAX);
    assert_eq!(percent(-1, 0), i32::MIN);
    assert_eq!(percent(0, 0), 0);
}

#[test]
fn percentage_survives_extremes() {
    assert_eq!(percent(i64::MAX, 1), i32::MAX);
    assert_eq!(percent(i64::MIN, 1), i32::MIN);
    assert_eq!(percent(i64::MIN, -1), i32::MAX);
    assert_eq!(percent(i64::MAX, i64::MIN), -100);
    assert_eq!(percent(i64::MIN, i64::MIN), 100);
    assert_eq!(percent(1, i64::MAX), 0);
}

#[test]
fn gap_readout_text() {
    assert_eq!(format_gap(120_000, 450_000), "120px (27%)");
    assert_eq!(format_gap(4_280_400, 450_000), "4280px (951%)");
    assert_eq!(format_gap(0, 0), "0px (0%)");
    assert_eq!(format_gap(-1_500, 450_000), "-2px (0%)");
    assert_eq!(format_gap(-9_000, 450_000), "-9px (-2%)");
}

#[test]
fn gap_under_the_trigger_will_trigger() {
    assert!(will_trigger(449_999, 450_000));
    assert!(!will_trigger(450_000, 450_000));
    assert!(!will_trigger(450_001, 450_000));
}

#[test]
fn mode_names_and_classes() {
    assert_eq!(name_of(ScrollMode::Live), "Live");
    assert_eq!(name_of(ScrollMode::Backward), "Backward");
    assert_eq!(name_of(ScrollMode::Forward), "Forward");
    assert_eq!(class_of(ScrollMode::Live), "debugvalue mode-live");
    assert_eq!(class_of(ScrollMode::Backward), "debugvalue mode-backward");
    assert_eq!(class_of(ScrollMode::Forward), "debugvalue mode-forward");
    for mode in [ScrollMode::Live, ScrollMode::Backward, ScrollMode::Forward] {
        assert_eq!(name_of(mode), format!("{:?}", mode));
        assert_eq!(class_of(mode), format!("debugValue mode-{:?}", mode).to_lowercase());
    }
}
