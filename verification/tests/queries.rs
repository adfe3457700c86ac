use chat_scroll::text::{decimal, push_decimal, push_signed_decimal, same_text};
use chat_scroll::{Bound, LoadingDirection, Order, WindowQuery};

fn query(bound: Bound, limit: usize) -> WindowQuery {
    WindowQuery { scope: "r1".to_string(), bound, limit }
}

#[test]
fn live_selection_text() {
    assert_eq!(
        query(Bound::Unbounded, 100).selection(),
        "room = 'r1' AND deleted = false ORDER BY timestamp DESC LIMIT 100"
    );
}

#[test]
fn backward_selection_text() {
    assert_eq!(
        query(Bound::AtMost(1_700_000_000_123), 25).selection(),
        "room = 'r1' AND deleted = false AND timestamp <= 1700000000123 ORDER BY timestamp DESC LIMIT 25"
    );
}

#[test]
fn forward_selection_text() {
    assert_eq!(
        query(Bound::AtLeast(42), 7).selection(),
        "room = 'r1' AND deleted = false AND timestamp >= 42 ORDER BY timestamp ASC LIMIT 7"
    );
}

#[test]
fn selection_with_negative_timestamp_and_no_limit() {
    assert_eq!(
        query(Bound::AtMost(-5), 0).selection(),
        "room = 'r1' AND deleted = false AND timestamp <= -5 ORDER BY timestamp DESC LIMIT 0"
    );
}

#[test]
fn selection_matches_formatting_for_many_values() {
    for limit in [0usize, 1, 9, 10, 11, 99, 100, 101, 12345, usize::MAX] {
        for t in [0i64, 1, -1, 9, 10, -10, 1_000_000_007, i64::MAX, i64::MIN] {
            let room = "AbC_-9";
            assert_eq!(
                WindowQuery { scope: room.to_string(), bound: Bound::AtMost(t), limit }.selection(),
                format!(
                    "room = '{}' AND deleted = false AND timestamp <= {} ORDER BY timestamp DESC LIMIT {}",
                    room, t, limit
                )
            );
            assert_eq!(
                WindowQuery { scope: room.to_string(), bound: Bound::AtLeast(t), limit }
                    .selection(),
                format!(
                    "room = '{}' AND deleted = false AND timestamp >= {} ORDER BY timestamp ASC LIMIT {}",
                    room, t, limit
                )
            );
        }
        assert_eq!(
            WindowQuery { scope: String::new(), bound: Bound::Unbounded, limit }.selection(),
            format!("room = '' AND deleted = false ORDER BY timestamp DESC LIMIT {}", limit)
        );
    }
}

#[test]
fn order_follows_the_bound() {
    assert_eq!(Bound::Unbounded.order(), Order::Descending);
    assert_eq!(Bound::AtMost(3).order(), Order::Descending);
    assert_eq!(Bound::AtLeast(3).order(), Order::Ascending);
    assert_eq!(query(Bound::AtLeast(3), 1).order(), Order::Ascending);
    assert_eq!(query(Bound::Unbounded, 1).order(), Order::Descending);
}

#[test]
fn bound_admits_timestamps_on_its_side() {
    assert!(Bound::Unbounded.holds(i64::MIN));
    assert!(Bound::Unbounded.holds(i64::MAX));
    assert!(Bound::AtMost(10).holds(10));
    assert!(Bound::AtMost(10).holds(-3));
    assert!(!Bound::AtMost(10).holds(11));
    assert!(Bound::AtLeast(10).holds(10));
    assert!(Bound::AtLeast(10).holds(11));
    assert!(!Bound::AtLeast(10).holds(9));
}

#[test]
fn bound_follows_the_direction() {
    assert_eq!(Bound::continue_from(LoadingDirection::Backward, 9), Bound::AtMost(9));
    assert_eq!(Bound::continue_from(LoadingDirection::Forward, 9), Bound::AtLeast(9));
}

#[test]
fn decimal_text_of_naturals() {
    assert_eq!(decimal(0), "0");
    assert_eq!(decimal(7), "7");
    assert_eq!(decimal(10), "10");
    assert_eq!(decimal(1905), "1905");
    assert_eq!(decimal(u64::MAX), "18446744073709551615");
}

#[test]
fn decimal_text_is_appended() {
    let mut text = String::from("n=");
    push_decimal(&mut text, 120);
    assert_eq!(text, "n=120");
    push_signed_decimal(&mut text, -45);
    assert_eq!(text, "n=120-45");
    push_signed_decimal(&mut text, 0);
    assert_eq!(text, "n=120-450");
}

#[test]
fn decimal_text_of_extreme_integers() {
    let mut text = String::new();
    push_signed_decimal(&mut text, i64::MIN);
    assert_eq!(text, "-9223372036854775808");
    let mut text = String::new();
    push_signed_decimal(&mut text, i64::MAX);
    assert_eq!(text, "9223372036854775807");
}

#[test]
fn texts_that_may_be_missing_are_compared() {
    assert!(same_text(&None, &None));
    assert!(same_text(&Some("a".to_string()), &Some("a".to_string())));
    assert!(!same_text(&Some("a".to_string()), &Some("b".to_string())));
    assert!(!same_text(&Some(String::new()), &None));
    assert!(!same_text(&None, &Some(String::new())));
}
