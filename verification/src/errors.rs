use vstd::prelude::*;

verus! {

/// The failures this client can report, one variant per error class.
#[derive(Debug, Clone, PartialEq, Eq, Hash)]
pub enum YabaiError {
    /// The socket could not be opened, written, or read.  Only the transport
    /// layer in the application crate produces this; the codec never does.
    TransportError(String),
    /// A buffer that should carry text was not valid UTF-8, or a request was
    /// too large for the 4-byte length field of the wire frame.
    FormatError(String),
    /// The daemon answered with its error sentinel; carries the outbound
    /// command text and the daemon's decoded message.
    CommandError { command: String, message: String },
    /// A query that requires a payload got zero bytes back; carries the
    /// query text.
    EmptyResult(String),
    /// A JSON payload did not match the expected record schema.
    DeserializationError(String),
}

} // verus!
