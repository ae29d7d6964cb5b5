//! The command dispatcher: interprets one drained command line as UTF-8
//! text and routes it to the one built-in command or to a report.

use vstd::prelude::*;
use crate::buffer::CommandBuffer;
use crate::buffer::spec_drain_result;
use crate::buffer::spec_drain_state;

verus! {

/// What a byte sequence reads as text, when it is valid UTF-8.
pub uninterp spec fn utf8_decode(bytes: Seq<u8>) -> Option<Seq<char>>;

/// Relies on alloc::string::String::from_utf8: returns the bytes as owned
/// text exactly when they are valid UTF-8, and always succeeds on pure
/// ASCII, since UTF-8 extends it.
#[verifier::external_body]
fn decode_utf8(bytes: &[u8]) -> (r: Option<String>)
    ensures
        r is Some <==> utf8_decode(bytes@) is Some,
        r matches Some(text) ==> utf8_decode(bytes@) == Some(text@),
        (forall|i: int| 0 <= i < bytes@.len() ==> bytes@[i] < 128) ==> r is Some,
{
    match String::from_utf8(bytes.to_vec()) {
        Ok(text) => Some(text),
        Err(_) => None,
    }
}

/// The dispatcher's verdict on one drained command line.
pub enum DispatchOutcome {
    /// The line read exactly "clear": the display must be cleared.
    ClearScreen,
    /// The line was valid UTF-8 but named no built-in command: report it
    /// back with the text itself.
    Unknown(String),
    /// The line was not valid UTF-8: report that, nothing else.
    NonUtf8,
}

/// The UTF-8 bytes of the one built-in command, "clear".
pub open spec fn clear_bytes() -> Seq<u8> {
    seq![0x63u8, 0x6cu8, 0x65u8, 0x61u8, 0x72u8]
}

/// Which verdict belongs to which line: invalid UTF-8 is reported as
/// such; the exact text "clear" clears the screen; any other text,
/// the empty line included, is reported back unknown, verbatim.
pub open spec fn outcome_of(bytes: Seq<u8>, r: DispatchOutcome) -> bool {
    match r {
        DispatchOutcome::ClearScreen => utf8_decode(bytes) is Some && bytes == clear_bytes(),
        DispatchOutcome::Unknown(text) => utf8_decode(bytes) == Some(text@) && bytes
            != clear_bytes(),
        DispatchOutcome::NonUtf8 => utf8_decode(bytes) is None,
    }
}

/// Whether the line spells the built-in command "clear", byte for byte
/// and case-sensitively.
fn is_clear_command(bytes: &[u8]) -> (r: bool)
    ensures
        r == (bytes@ == clear_bytes()),
{
    if bytes.len() != 5 {
        assert(bytes@ != clear_bytes());
        return false;
    }
    let r = bytes[0] == 0x63 && bytes[1] == 0x6c && bytes[2] == 0x65 && bytes[3] == 0x61
        && bytes[4] == 0x72;
    proof {
        if r {
            assert(bytes@ =~= clear_bytes());
        } else {
            assert(bytes@ != clear_bytes());
        }
    }
    r
}

/// Decide the fate of one drained line: the non-UTF8 report, the clear
/// command, or the unknown-command report carrying the text.
pub fn dispatch_bytes(bytes: &[u8]) -> (r: DispatchOutcome)
    ensures
        outcome_of(bytes@, r),
{
    match decode_utf8(bytes) {
        None => DispatchOutcome::NonUtf8,
        Some(text) => {
            if is_clear_command(bytes) {
                DispatchOutcome::ClearScreen
            } else {
                DispatchOutcome::Unknown(text)
            }
        },
    }
}

/// Process the command line: drain the buffer, leaving it empty for the
/// next command, and dispatch what it held.
pub fn process_command(buffer: &mut CommandBuffer) -> (r: DispatchOutcome)
    requires
        old(buffer).wf(),
    ensures
        final(buffer).wf(),
        final(buffer)@ == spec_drain_state(old(buffer)@),
        outcome_of(spec_drain_result(old(buffer)@), r),
{
    let line = buffer.drain_and_reset();
    dispatch_bytes(line.as_slice())
}

} // verus!
