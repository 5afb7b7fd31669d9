//! Client-side protocol library for the yabai tiling window manager.
//!
//! The daemon listens on a Unix socket and speaks a simple length-prefixed
//! text protocol.  This crate builds the framed request bytes for a raw
//! message or a typed [`Command`], decodes the daemon's raw reply, and
//! parses the JSON payload of the space query into typed records.  The
//! socket I/O itself lives in the companion application crate.

use vstd::prelude::*;

pub mod codec;
pub mod commands;
pub mod errors;
pub mod json;
pub mod query;

pub use codec::decode_response;
pub use commands::Command;
pub use commands::Direction;
pub use commands::FocusSpaceOption;
pub use commands::SpaceInfo;
pub use commands::SpaceRotation;
pub use errors::YabaiError;
pub use query::parse_spaces;
pub use query::parse_spaces_response;
pub use query::require_response;

verus! {

use crate::codec::encode_payload;
use crate::codec::frame_payload;
use crate::codec::request_frame;
use crate::codec::request_payload;
use crate::commands::wire_string;

/// Builds the framed request bytes for a raw command message: the
/// message's Unicode whitespace is trimmed at both ends, the
/// space-separated tokens of what remains are joined by null bytes, two
/// null bytes terminate the payload, and a 4-byte little-endian length
/// field prefixes it.  The transport in the application crate writes these
/// bytes to the daemon's socket and hands the reply to
/// [`codec::decode_response`].  A message whose payload would overflow the
/// length field is refused.
pub fn send(message: &str) -> (r: Result<Vec<u8>, YabaiError>)
    ensures
        request_payload(message@).len() <= u32::MAX ==> (r matches Ok(b) && b@ == request_frame(
            message@,
        )),
        request_payload(message@).len() > u32::MAX ==> (r matches Err(e) && e is FormatError),
{
    let payload = encode_payload(message);
    frame_payload(payload)
}

/// Builds the framed request bytes for a typed command.  Rendering the
/// command to its message string and then encoding that string is exactly
/// what this does, so the bytes equal those of [`send`] on
/// [`Command::render`]'s result.  Every command renders to a short ASCII
/// string, so framing always succeeds.
pub fn send_command(command: Command) -> (r: Result<Vec<u8>, YabaiError>)
    ensures
        r matches Ok(b) && b@ == request_frame(wire_string(command)),
{
    proof {
        crate::commands::lemma_wire_string_ascii_short(command);
        crate::codec::lemma_trim_message_ascii_len(wire_string(command));
        vstd::utf8::is_ascii_chars_encode_utf8(
            crate::codec::trim_message(wire_string(command)),
        );
        crate::codec::lemma_request_payload_len(wire_string(command));
    }
    let rendered = command.render();
    send(rendered.as_str())
}

} // verus!
