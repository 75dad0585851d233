//! The inbound path: what becomes of a datagram that was received, and the
//! addresses of the two socket roles.

use vstd::prelude::*;
use vstd::string::*;
use crate::event::Payload;

verus! {

/// The port on which frames are received, and to which a playback sends.
pub const FRAME_PORT: u16 = 38013;

/// What is done with inbound frames.
#[derive(Clone, Copy, Debug, PartialEq, Eq, Structural)]
pub enum RelayMode {
    /// Each frame is shown.
    Receive,
    /// Each frame is shown and appended to a file.
    Record,
}

/// What becomes of one inbound frame: the payload to show and, when
/// recording, the line to append to the file.
#[derive(Debug)]
pub struct Relayed {
    pub payload: Payload,
    pub line: Option<String>,
}

/// The address on which frames are received: every interface, the frame port.
pub open spec fn listen_text() -> Seq<char> {
    "0.0.0.0:38013"@
}

/// The local address of a playback: every interface, a port that the system
/// picks.
pub open spec fn send_from_text() -> Seq<char> {
    "0.0.0.0:0"@
}

/// The address on which frames are received.
pub fn listen_address() -> (address: String)
    ensures
        address@ == listen_text(),
{
    String::from_str("0.0.0.0:38013")
}

/// The local address that a playback binds.
pub fn send_from_address() -> (address: String)
    ensures
        address@ == send_from_text(),
{
    String::from_str("0.0.0.0:0")
}

/// The address that a playback sends to: the frame port of `host`.
pub fn destination(host: &str) -> (address: String)
    ensures
        address@ == host@ + ":38013"@,
{
    String::from_str(host).concat(":38013")
}

/// The line that a recording holds for the frame `text`: the text and a
/// newline.
pub fn record_line(text: &str) -> (line: String)
    ensures
        line@ == text@.push('\n'),
{
    let line = String::from_str(text).concat("\n");
    proof {
        reveal_strlit("\n");
        assert(line@ =~= text@.push('\n'));
    }
    line
}

/// Decides what becomes of the inbound frame `text`. It is shown as it came,
/// with index 0 and timestamp 0; when recording it is also written out as a
/// line.
pub fn relay(text: String, mode: RelayMode) -> (out: Relayed)
    ensures
        out.payload.filetext@ == text@,
        out.payload.current_frame == 0,
        out.payload.current_stamp == 0,
        mode == RelayMode::Receive ==> out.line is None,
        mode == RelayMode::Record ==> (out.line matches Some(line) && line@ == text@.push('\n')),
{
    let line = match mode {
        RelayMode::Receive => None,
        RelayMode::Record => Some(record_line(text.as_str())),
    };
    Relayed { payload: Payload::notice(text), line }
}

} // verus!
