use yabai::parse_spaces;
use yabai::parse_spaces_response;
use yabai::SpaceInfo;
use yabai::YabaiError;

fn space_json(s: &SpaceInfo) -> String {
    let windows = s
        .windows
        .iter()
        .map(|w| w.to_string())
        .collect::<Vec<_>>()
        .join(",");
    format!(
        "{{\"id\":{},\"uuid\":\"{}\",\"index\":{},\"label\":\"{}\",\"type\":\"{}\",\
         \"display\":{},\"windows\":[{}],\"first-window\":{},\"last-window\":{},\
         \"has-focus\":{},\"is-visible\":{},\"is-native-fullscreen\":{}}}",
        s.id,
        s.uuid,
        s.index,
        s.label,
        s.space_type,
        s.display,
        windows,
        s.first_window,
        s.last_window,
        s.has_focus,
        s.is_visible,
        s.is_native_fullscreen
    )
}

fn sample_space() -> SpaceInfo {
    SpaceInfo {
        id: 7,
        uuid: "A5E607F8".to_string(),
        index: 2,
        label: "mail".to_string(),
        space_type: "bsp".to_string(),
        display: 1,
        windows: vec![101, 102, 103],
        first_window: 101,
        last_window: 103,
        has_focus: true,
        is_visible: true,
        is_native_fullscreen: false,
    }
}

#[test]
fn empty_array_is_an_empty_list_not_an_error() {
    assert_eq!(parse_spaces("[]"), Ok(vec![]));
}

#[test]
fn missing_response_is_an_explicit_error_carrying_the_query() {
    let r = parse_spaces_response(None);
    assert_eq!(r, Err(YabaiError::EmptyResult("query --spaces".to_string())));
}

#[test]
fn require_response_hands_back_present_text() {
    let r = yabai::require_response("query --windows", Some("[]".to_string()));
    assert_eq!(r, Ok("[]".to_string()));
}

#[test]
fn require_response_names_the_query_on_empty() {
    let r = yabai::require_response("query --windows", None);
    assert_eq!(r, Err(YabaiError::EmptyResult("query --windows".to_string())));
}

#[test]
fn present_response_goes_through_the_parser() {
    assert_eq!(parse_spaces_response(Some("[]".to_string())), Ok(vec![]));
}

#[test]
fn present_but_malformed_response_is_a_deserialization_error() {
    let r = parse_spaces_response(Some("nope".to_string()));
    assert!(matches!(r, Err(YabaiError::DeserializationError(_))));
}

#[test]
fn round_trips_a_record_through_json() {
    let record = sample_space();
    let text = format!("[{}]", space_json(&record));
    assert_eq!(parse_spaces(&text), Ok(vec![record]));
}

#[test]
fn round_trips_two_records_in_order() {
    let first = sample_space();
    let mut second = sample_space();
    second.id = 9;
    second.index = 3;
    second.label = "web".to_string();
    second.windows = vec![];
    second.has_focus = false;
    let text = format!("[{},{}]", space_json(&first), space_json(&second));
    assert_eq!(parse_spaces(&text), Ok(vec![first, second]));
}

#[test]
fn rejects_text_that_is_not_json() {
    let r = parse_spaces("nope");
    assert!(matches!(r, Err(YabaiError::DeserializationError(_))));
}

#[test]
fn rejects_a_document_that_is_not_an_array() {
    let r = parse_spaces("{}");
    assert!(matches!(r, Err(YabaiError::DeserializationError(_))));
}

#[test]
fn rejects_a_record_with_a_missing_member() {
    let text = space_json(&sample_space()).replace("\"display\":1,", "");
    let r = parse_spaces(&format!("[{}]", text));
    assert!(matches!(r, Err(YabaiError::DeserializationError(_))));
}

#[test]
fn rejects_a_record_with_a_mistyped_member() {
    let text = space_json(&sample_space()).replace("\"id\":7", "\"id\":\"7\"");
    let r = parse_spaces(&format!("[{}]", text));
    assert!(matches!(r, Err(YabaiError::DeserializationError(_))));
}

#[test]
fn rejects_an_id_beyond_u32() {
    let text = space_json(&sample_space()).replace("\"id\":7", "\"id\":4294967296");
    let r = parse_spaces(&format!("[{}]", text));
    assert!(matches!(r, Err(YabaiError::DeserializationError(_))));
}

#[test]
fn rejects_a_negative_id() {
    let text = space_json(&sample_space()).replace("\"id\":7", "\"id\":-1");
    let r = parse_spaces(&format!("[{}]", text));
    assert!(matches!(r, Err(YabaiError::DeserializationError(_))));
}

#[test]
fn rejects_a_fractional_id() {
    let text = space_json(&sample_space()).replace("\"id\":7", "\"id\":1.5");
    let r = parse_spaces(&format!("[{}]", text));
    assert!(matches!(r, Err(YabaiError::DeserializationError(_))));
}

#[test]
fn rejects_a_bad_window_list_element() {
    let text = space_json(&sample_space()).replace("[101,102,103]", "[101,\"x\",103]");
    let r = parse_spaces(&format!("[{}]", text));
    assert!(matches!(r, Err(YabaiError::DeserializationError(_))));
}
