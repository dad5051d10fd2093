//! The line-command channel: turns what one non-blocking read of the serial
//! transport returned into at most one command.
//!
//! A command arrives as one line of text, terminated by a single
//! newline-class byte. [`poll`] takes the bytes the read produced: when the
//! read produced nothing there is no command this cycle; otherwise the
//! trailing terminator byte is stripped and the rest is matched,
//! case-sensitively, against the fixed vocabulary. A line outside the
//! vocabulary that still decodes as text becomes [`Command::Unrecognized`];
//! a line that is not valid UTF-8 is a local decode error, answered by
//! skipping the cycle rather than by failing.

use vstd::prelude::*;
use vstd::slice::slice_index_get;
use vstd::slice::slice_subrange;
use vstd::string::StringSliceAdditionalSpecFns;
use vstd::utf8::decode_utf8;
use vstd::utf8::encode_utf8_decode_utf8;
use vstd::utf8::encode_utf8_valid_utf8;
use vstd::utf8::valid_utf8;

verus! {

/// One parsed command, produced from a whole line and consumed within the
/// same control-loop iteration.
#[derive(Debug, PartialEq, Eq)]
pub enum Command {
    /// A liveness check, answered with a fixed reply.
    Ping,
    /// A request for the current clock reading.
    ReportClock,
    /// A request for a fresh orientation classification.
    ReportOrientation,
    /// Any line outside the vocabulary, carrying its decoded text.
    Unrecognized(String),
}

/// The mathematical value of a [`Command`]: the same four cases, with the
/// carried text as a character sequence.
pub enum CommandModel {
    Ping,
    ReportClock,
    ReportOrientation,
    Unrecognized(Seq<char>),
}

impl View for Command {
    type V = CommandModel;

    open spec fn view(&self) -> CommandModel {
        match self {
            Command::Ping => CommandModel::Ping,
            Command::ReportClock => CommandModel::ReportClock,
            Command::ReportOrientation => CommandModel::ReportOrientation,
            Command::Unrecognized(text) => CommandModel::Unrecognized(text@),
        }
    }
}

/// The UTF-8 bytes of "ping".
pub open spec fn ping_bytes() -> Seq<u8> {
    seq![112u8, 105u8, 110u8, 103u8]
}

/// The UTF-8 bytes of "tick".
pub open spec fn tick_bytes() -> Seq<u8> {
    seq![116u8, 105u8, 99u8, 107u8]
}

/// The UTF-8 bytes of "gyro".
pub open spec fn gyro_bytes() -> Seq<u8> {
    seq![103u8, 121u8, 114u8, 111u8]
}

/// What a stripped line parses to: a vocabulary word gives its command, any
/// other text gives `Unrecognized` with the decoded characters, and bytes
/// that are not valid UTF-8 give nothing.
pub open spec fn spec_parse_line(line: Seq<u8>) -> Option<CommandModel> {
    if line == ping_bytes() {
        Some(CommandModel::Ping)
    } else if line == tick_bytes() {
        Some(CommandModel::ReportClock)
    } else if line == gyro_bytes() {
        Some(CommandModel::ReportOrientation)
    } else if valid_utf8(line) {
        Some(CommandModel::Unrecognized(decode_utf8(line)))
    } else {
        None
    }
}

/// What one polling cycle yields from the bytes the transport read: nothing
/// when no bytes were available, otherwise the parse of the line with its
/// trailing terminator byte stripped.
pub open spec fn spec_poll(buf: Seq<u8>) -> Option<CommandModel> {
    if buf.len() == 0 {
        None
    } else {
        spec_parse_line(buf.drop_last())
    }
}

/// Relies on core::str::from_utf8: it returns `Ok` exactly when the bytes
/// are valid UTF-8, and the resulting text views the same bytes.
#[verifier::external_body]
fn decode_text(v: &[u8]) -> (r: Option<&str>)
    ensures
        r is Some <==> valid_utf8(v@),
        r matches Some(s) ==> s.spec_bytes() == v@,
{
    core::str::from_utf8(v).ok()
}

/// Whether the line is exactly the four given bytes.
fn line_is(line: &[u8], b0: u8, b1: u8, b2: u8, b3: u8) -> (r: bool)
    ensures
        r == (line@ == seq![b0, b1, b2, b3]),
{
    let r = line.len() == 4 && *slice_index_get(line, 0) == b0 && *slice_index_get(line, 1) == b1
        && *slice_index_get(line, 2) == b2 && *slice_index_get(line, 3) == b3;
    proof {
        if r {
            assert(line@ =~= seq![b0, b1, b2, b3]);
        } else {
            assert(line@ != seq![b0, b1, b2, b3]);
        }
    }
    r
}

/// Parse one stripped line against the vocabulary; `None` is the recovered
/// decode error of a line that is not valid UTF-8.
pub fn parse_line(line: &[u8]) -> (r: Option<Command>)
    ensures
        match r {
            Some(c) => spec_parse_line(line@) == Some(c@),
            None => spec_parse_line(line@) is None,
        },
{
    if line_is(line, 112, 105, 110, 103) {
        Some(Command::Ping)
    } else if line_is(line, 116, 105, 99, 107) {
        Some(Command::ReportClock)
    } else if line_is(line, 103, 121, 114, 111) {
        Some(Command::ReportOrientation)
    } else {
        match decode_text(line) {
            Some(text) => {
                proof {
                    encode_utf8_valid_utf8(text@);
                    encode_utf8_decode_utf8(text@);
                }
                Some(Command::Unrecognized(text.to_owned()))
            },
            None => None,
        }
    }
}

/// One non-blocking polling cycle: consume the bytes the transport read and
/// yield at most one command. Zero bytes available means no command this
/// cycle; otherwise the trailing terminator is stripped and the line parsed.
pub fn poll(buf: &[u8]) -> (r: Option<Command>)
    ensures
        match r {
            Some(c) => spec_poll(buf@) == Some(c@),
            None => spec_poll(buf@) is None,
        },
{
    if buf.len() == 0 {
        None
    } else {
        let line = slice_subrange(buf, 0, buf.len() - 1);
        proof {
            assert(line@ =~= buf@.drop_last());
        }
        parse_line(line)
    }
}

} // verus!
