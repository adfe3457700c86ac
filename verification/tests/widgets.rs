use chat_scroll::text::is_text;
use chat_scroll::widgets::{
    bubble_class, can_send, connection_class, connection_label, display_text, entered,
    entered_text, guest_name, is_own_message, key_action, send_label, websocket_url, KeyAction,
};

#[test]
fn enter_sends_unless_shift_is_held() {
    assert_eq!(key_action("Enter", false, false, false), KeyAction::Send);
    assert_eq!(key_action("Enter", false, true, true), KeyAction::Send);
    assert_eq!(key_action("Enter", true, false, false), KeyAction::Type);
}

#[test]
fn escape_cancels_an_edit_only() {
    assert_eq!(key_action("Escape", false, false, true), KeyAction::CancelEdit);
    assert_eq!(key_action("Escape", true, true, true), KeyAction::CancelEdit);
    assert_eq!(key_action("Escape", false, false, false), KeyAction::Type);
}

#[test]
fn arrows_with_command_walk_own_messages() {
    assert_eq!(key_action("ArrowUp", false, true, false), KeyAction::PreviousOwn);
    assert_eq!(key_action("ArrowUp", false, true, true), KeyAction::PreviousOwn);
    assert_eq!(key_action("ArrowUp", false, false, true), KeyAction::Type);
    assert_eq!(key_action("ArrowDown", false, true, true), KeyAction::NextOwn);
    assert_eq!(key_action("ArrowDown", false, true, false), KeyAction::Type);
    assert_eq!(key_action("ArrowDown", false, false, true), KeyAction::Type);
}

#[test]
fn other_keys_are_typed() {
    assert_eq!(key_action("a", false, true, true), KeyAction::Type);
    assert_eq!(key_action("enter", false, false, false), KeyAction::Type);
    assert_eq!(key_action("", false, false, false), KeyAction::Type);
}

#[test]
fn own_messages_are_those_of_the_current_user() {
    assert!(is_own_message(&Some("u1".to_string()), &"u1".to_string()));
    assert!(!is_own_message(&Some("u1".to_string()), &"u2".to_string()));
    assert!(!is_own_message(&None, &"u1".to_string()));
    assert!(!is_own_message(&None, &String::new()));
    assert!(is_own_message(&Some(String::new()), &String::new()));
}

#[test]
fn bubble_classes_are_joined_with_spaces() {
    assert_eq!(bubble_class(false, false), "messageBubble");
    assert_eq!(bubble_class(true, false), "messageBubble editing");
    assert_eq!(bubble_class(false, true), "messageBubble ownMessage");
    assert_eq!(bubble_class(true, true), "messageBubble editing ownMessage");
}

#[test]
fn connection_status_class_and_label() {
    assert_eq!(connection_class("Connected"), "connectionStatus connected");
    assert_eq!(connection_class("connected"), "connectionStatus disconnected");
    assert_eq!(connection_class(""), "connectionStatus disconnected");
    assert_eq!(connection_label("Connected".to_string()), "Connected");
    assert_eq!(connection_label("Connecting".to_string()), "Connecting");
    assert_eq!(connection_label(String::new()), "Disconnected");
}

#[test]
fn editable_field_shows_its_placeholder_when_empty() {
    assert_eq!(display_text("Ada".to_string(), "Click to edit".to_string()), "Ada");
    assert_eq!(display_text(String::new(), "Click to edit".to_string()), "Click to edit");
    assert_eq!(display_text(" ".to_string(), "Click to edit".to_string()), " ");
}

#[test]
fn send_button_label() {
    assert_eq!(send_label(false), "Send");
    assert_eq!(send_label(true), "Update");
}

#[test]
fn websocket_address_of_a_host() {
    assert_eq!(websocket_url(Some("chat.example".to_string())), "ws://chat.example:9797");
    assert_eq!(websocket_url(Some(String::new())), "ws://:9797");
    assert_eq!(websocket_url(None), "ws://127.0.0.1:9797");
}

#[test]
fn guest_names() {
    assert_eq!(guest_name(0), "User-0");
    assert_eq!(guest_name(4711), "User-4711");
    assert_eq!(guest_name(u32::MAX), "User-4294967295");
}

#[test]
fn texts_are_compared_by_their_characters() {
    assert!(is_text("", ""));
    assert!(is_text("Enter", "Enter"));
    assert!(!is_text("Enter", "Enter "));
    assert!(!is_text("é", "e"));
}

#[test]
fn entered_text_is_trimmed() {
    assert_eq!(entered_text("  hello there \n"), Some("hello there".to_string()));
    assert_eq!(entered_text("hi"), Some("hi".to_string()));
    assert_eq!(entered_text("\u{2003}x\u{a0}"), Some("x".to_string()));
}

#[test]
fn blank_input_holds_no_text() {
    assert_eq!(entered_text(""), None);
    assert_eq!(entered_text("   "), None);
    assert_eq!(entered_text("\t\r\n"), None);
}

#[test]
fn entered_keeps_what_trimming_left() {
    assert_eq!(entered(""), None);
    assert_eq!(entered("a b"), Some("a b".to_string()));
    assert_eq!(entered(" "), Some(" ".to_string()));
}

#[test]
fn sending_needs_a_text_and_a_connection() {
    assert!(can_send("hello", true));
    assert!(can_send("  x  ", true));
    assert!(!can_send("hello", false));
    assert!(!can_send("   ", true));
    assert!(!can_send("", true));
}
