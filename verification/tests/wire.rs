use yabai::codec::decode_response;
use yabai::send;
use yabai::send_command;
use yabai::Command;
use yabai::FocusSpaceOption;
use yabai::YabaiError;

fn frame(payload: &[u8]) -> Vec<u8> {
    let mut v = (payload.len() as u32).to_le_bytes().to_vec();
    v.extend_from_slice(payload);
    v
}

#[test]
fn encodes_space_focus_two() {
    let got = send("space --focus 2").unwrap();
    assert_eq!(got, frame(b"space\x00--focus\x002\x00\x00"));
}

#[test]
fn encodes_with_length_prefix() {
    let got = send("space --focus 2").unwrap();
    assert_eq!(&got[..4], &[17u8, 0, 0, 0]);
    assert_eq!(&got[4..], b"space\x00--focus\x002\x00\x00");
}

#[test]
fn trims_surrounding_whitespace() {
    let got = send("  space --balance \t\n").unwrap();
    assert_eq!(got, frame(b"space\x00--balance\x00\x00"));
}

#[test]
fn keeps_empty_tokens_between_double_spaces() {
    let got = send("a  b").unwrap();
    assert_eq!(got, frame(b"a\x00\x00b\x00\x00"));
}

#[test]
fn encodes_empty_message() {
    assert_eq!(send("").unwrap(), frame(b"\x00\x00"));
    assert_eq!(send("   ").unwrap(), frame(b"\x00\x00"));
}

#[test]
fn trims_unicode_whitespace() {
    let got = send("\u{2003}space --balance\u{a0}").unwrap();
    assert_eq!(got, frame(b"space\x00--balance\x00\x00"));
}

#[test]
fn a_unicode_whitespace_only_message_trims_to_empty() {
    assert_eq!(send("\u{a0}").unwrap(), frame(b"\x00\x00"));
    assert_eq!(send("\u{a0}").unwrap(), send("").unwrap());
}

#[test]
fn interior_unicode_whitespace_is_kept_and_not_split_on() {
    let got = send("a\u{a0}b").unwrap();
    assert_eq!(got, frame(b"a\xc2\xa0b\x00\x00"));
}

#[test]
fn length_prefix_is_little_endian_over_one_byte() {
    let message = "x".repeat(300);
    let got = send(&message).unwrap();
    // payload: 300 bytes plus the two terminating nulls
    assert_eq!(&got[..4], &[46u8, 1, 0, 0]);
    assert_eq!(got.len(), 4 + 302);
}

#[test]
fn command_matches_raw_send_of_rendered_string() {
    let command = Command::FocusSpace(FocusSpaceOption::Recent);
    let direct = send("space --focus recent").unwrap();
    assert_eq!(send_command(command).unwrap(), direct);
}

#[test]
fn numeric_command_matches_raw_send_of_rendered_string() {
    let command = Command::MoveActiveWindowToSpace(42);
    let direct = send("window --space 42").unwrap();
    assert_eq!(send_command(command).unwrap(), direct);
    assert_eq!(send_command(command).unwrap(), frame(b"window\x00--space\x0042\x00\x00"));
}

#[test]
fn toggle_command_matches_raw_send_of_rendered_string() {
    let command = Command::ToggleZoomFullscreen;
    let direct = send("window --toggle zoom-fullscreen").unwrap();
    assert_eq!(send_command(command).unwrap(), direct);
}

#[test]
fn decodes_error_sentinel() {
    let r = decode_response("cmd", &[0x07, b'b', b'a', b'd']);
    assert_eq!(
        r,
        Err(YabaiError::CommandError { command: "cmd".to_string(), message: "bad".to_string() })
    );
}

#[test]
fn decodes_lone_sentinel_as_empty_message() {
    let r = decode_response("window --focus 1", &[0x07]);
    assert_eq!(
        r,
        Err(YabaiError::CommandError {
            command: "window --focus 1".to_string(),
            message: String::new()
        })
    );
}

#[test]
fn decodes_empty_buffer_as_no_response() {
    assert_eq!(decode_response("space --balance", &[]), Ok(None));
}

#[test]
fn decodes_text_response() {
    let r = decode_response("query --spaces", b"[]");
    assert_eq!(r, Ok(Some("[]".to_string())));
}

#[test]
fn rejects_invalid_utf8_in_error_message() {
    let r = decode_response("cmd", &[0x07, 0xff]);
    assert!(matches!(r, Err(YabaiError::FormatError(_))));
}

#[test]
fn rejects_invalid_utf8_in_response_text() {
    let r = decode_response("cmd", &[0xc3]);
    assert!(matches!(r, Err(YabaiError::FormatError(_))));
}
