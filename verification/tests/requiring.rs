use chat_scroll::require::{complaint, Thrown, ThrownShape};
use chat_scroll::Require;

fn thrown(shape: ThrownShape) -> Thrown {
    Thrown { shape, debug: "JsValue(thing)".to_string() }
}

#[test]
fn present_option_is_handed_out() {
    assert_eq!(Some(5).require("window"), Ok(5));
}

#[test]
fn missing_option_names_what_was_asked_for() {
    assert_eq!(None::<u8>.require("window"), Err("window: None".to_string()));
}

#[test]
fn ok_result_is_handed_out() {
    let found: Result<u8, Thrown> = Ok(3);
    assert_eq!(found.require("style"), Ok(3));
}

#[test]
fn thrown_string_is_reported_by_its_text() {
    let failed: Result<u8, Thrown> = Err(thrown(ThrownShape::Text("boom".to_string())));
    assert_eq!(failed.require("fetch"), Err("fetch: boom".to_string()));
}

#[test]
fn thrown_object_is_reported_by_its_json() {
    let failed: Result<u8, Thrown> =
        Err(thrown(ThrownShape::Object(Some("{\"code\":7}".to_string()))));
    assert_eq!(failed.require("fetch"), Err("fetch: {\"code\":7}".to_string()));
}

#[test]
fn thrown_object_without_json_is_reported_as_object() {
    let failed: Result<u8, Thrown> = Err(thrown(ThrownShape::Object(None)));
    assert_eq!(failed.require("fetch"), Err("fetch: [object]".to_string()));
}

#[test]
fn other_thrown_value_is_reported_by_its_debug_text() {
    let failed: Result<u8, Thrown> = Err(thrown(ThrownShape::Other));
    assert_eq!(failed.require("fetch"), Err("fetch: JsValue(thing)".to_string()));
}

#[test]
fn found_element_is_handed_out() {
    let found: Result<Option<u8>, Thrown> = Ok(Some(9));
    let required: Result<u8, String> = found.require("element");
    assert_eq!(required, Ok(9));
}

#[test]
fn absent_element_is_reported_as_none() {
    let found: Result<Option<u8>, Thrown> = Ok(None);
    let required: Result<u8, String> = found.require("element");
    assert_eq!(required, Err("element: None".to_string()));
}

#[test]
fn failed_lookup_is_reported_by_its_debug_text() {
    let found: Result<Option<u8>, Thrown> = Err(thrown(ThrownShape::Text("boom".to_string())));
    let required: Result<u8, String> = found.require("element");
    assert_eq!(required, Err("element: JsValue(thing)".to_string()));
}

#[test]
fn ok_result_of_an_option_can_be_required_whole() {
    let found: Result<Option<u8>, Thrown> = Ok(None);
    let required: Result<Option<u8>, String> = found.require("element");
    assert_eq!(required, Ok(None));
}

#[test]
fn complaint_joins_with_a_colon() {
    assert_eq!(complaint("a", "b"), "a: b");
    assert_eq!(complaint("", ""), ": ");
}

#[test]
fn thrown_value_description() {
    assert_eq!(thrown(ThrownShape::Text(String::new())).describe(), "");
    assert_eq!(thrown(ThrownShape::Other).describe(), "JsValue(thing)");
}
