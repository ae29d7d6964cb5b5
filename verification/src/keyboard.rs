//! The scancode decoder and the keyboard interrupt handler's logic: one
//! raw byte in, a buffer mutation and a display instruction out, with the
//! keyboard vector named for acknowledgement whatever the byte decoded to.

use vstd::prelude::*;
use crate::buffer::CommandBuffer;
use crate::buffer::add_char;
use crate::buffer::remove_char;
use crate::buffer::spec_append;
use crate::buffer::spec_remove_last;
use crate::buffer::spec_drain_state;
use crate::dispatch::DispatchOutcome;
use crate::dispatch::outcome_of;
use crate::dispatch::process_command;
use crate::vectors::InterruptIndex;

verus! {

#[verifier::external_type_specification]
#[verifier::external_body]
pub struct ExKeyEvent(pc_keyboard::KeyEvent);

/// The scancode decoder: the keyed-layout state machine that turns the
/// keyboard's raw byte stream into decoded keys, tracking partial
/// multi-byte sequences and the modifier keys currently held. The state
/// itself is opaque: its declaration names trait bounds of the outside
/// crate, so it is held behind an opaque struct and reached only through
/// the wrappers below.
#[verifier::external_body]
pub struct Decoder {
    kb: pc_keyboard::PS2Keyboard<pc_keyboard::layouts::Us104Key, pc_keyboard::ScancodeSet1>,
}

/// One decoded key, ready for the handler to act on.
pub enum Key {
    /// A printable or control character.
    Char(char),
    /// A non-printable key, carried as its debug text for echoing.
    Raw(String),
}

/// Relies on pc_keyboard::PS2Keyboard::new: a fresh decoder for the US
/// 104-key layout and scancode set 1, with control characters left
/// untranslated, as the core's one fixed layout.
#[verifier::external_body]
fn new_decoder() -> (d: Decoder) {
    Decoder {
        kb: pc_keyboard::PS2Keyboard::new(
            pc_keyboard::ScancodeSet1::new(),
            pc_keyboard::layouts::Us104Key,
            pc_keyboard::HandleControl::Ignore,
        ),
    }
}

/// Relies on pc_keyboard::PS2Keyboard::add_byte: consumes one scancode
/// byte; a partial multi-byte sequence yields nothing yet, and a
/// malformed byte is absorbed silently, as an interrupt handler can
/// report errors to nobody.
#[verifier::external_body]
fn decoder_add_byte(d: &mut Decoder, scancode: u8) -> (r: Option<pc_keyboard::KeyEvent>) {
    match d.kb.add_byte(scancode) {
        Ok(event) => event,
        Err(_) => None,
    }
}

/// Relies on pc_keyboard::PS2Keyboard::process_keyevent: resolves one key
/// event against the modifier state; a press that only changes that state
/// yields nothing visible. A non-printable key comes out as its debug
/// text, ready to echo.
#[verifier::external_body]
fn decoder_process_event(d: &mut Decoder, event: pc_keyboard::KeyEvent) -> (r: Option<Key>) {
    match d.kb.process_keyevent(event) {
        Some(pc_keyboard::DecodedKey::Unicode(c)) => Some(Key::Char(c)),
        Some(pc_keyboard::DecodedKey::RawKey(code)) => Some(Key::Raw(format!("{:?}", code))),
        None => None,
    }
}

impl Decoder {
    /// A fresh decoder in its start state, nothing pressed.
    pub fn new() -> (d: Decoder) {
        new_decoder()
    }
}

/// What the display and dispatcher owe after one scancode byte.
pub enum HandlerEffect {
    /// No complete key was decoded: nothing to show.
    Nothing,
    /// A character went into the buffer (or was dropped, if it was full):
    /// echo it.
    Echo(char),
    /// Backspace: the buffer lost its last byte; erase and retreat.
    EraseLast,
    /// Newline: the line was dispatched with this outcome; show a fresh
    /// prompt.
    Submitted(DispatchOutcome),
    /// A non-printable key: echo its debug text.
    RawEcho(String),
}

/// Everything one keyboard interrupt asks of its caller: the visible
/// effect, and the vector to acknowledge — the keyboard's, always.
pub struct KeyboardIrqResult {
    pub effect: HandlerEffect,
    pub acknowledge: InterruptIndex,
}

/// The byte the buffer stores for an echoed character: its low eight
/// bits.
pub open spec fn byte_of_char(c: char) -> u8 {
    (c as u32) as u8
}

/// How one handled key relates the buffer before to the buffer after and
/// to the effect reported.
pub open spec fn effect_consistent(before: Seq<u8>, after: Seq<u8>, e: HandlerEffect) -> bool {
    match e {
        HandlerEffect::Nothing => after == before,
        HandlerEffect::Echo(c) => c != '\n' && c != '\u{8}' && after == spec_append(
            before,
            byte_of_char(c),
        ),
        HandlerEffect::EraseLast => after == spec_remove_last(before),
        HandlerEffect::Submitted(out) => outcome_of(before, out) && after == spec_drain_state(
            before,
        ),
        HandlerEffect::RawEcho(_) => after == before,
    }
}

/// Act on one decoded key: newline dispatches the line, backspace removes
/// the last byte, any other character is appended; a non-printable key
/// touches the buffer not at all.
pub fn handle_key(buffer: &mut CommandBuffer, key: Key) -> (e: HandlerEffect)
    requires
        old(buffer).wf(),
    ensures
        final(buffer).wf(),
        effect_consistent(old(buffer)@, final(buffer)@, e),
        key matches Key::Char(c) ==> ((c == '\n' ==> e is Submitted) && (c == '\u{8}' ==> e
            is EraseLast) && (c != '\n' && c != '\u{8}' ==> (e matches HandlerEffect::Echo(echoed)
            && echoed == c))),
        key matches Key::Raw(text) ==> (e matches HandlerEffect::RawEcho(echoed) && echoed@
            == text@),
{
    match key {
        Key::Char(c) => {
            if c == '\n' {
                let out = process_command(buffer);
                HandlerEffect::Submitted(out)
            } else if c == '\u{8}' {
                remove_char(buffer);
                HandlerEffect::EraseLast
            } else {
                add_char(buffer, c as u8);
                HandlerEffect::Echo(c)
            }
        },
        Key::Raw(text) => HandlerEffect::RawEcho(text),
    }
}

/// Handle one raw scancode byte, as the keyboard interrupt handler does:
/// feed it to the decoder, act on a completed key if one came out, and
/// name the keyboard vector for acknowledgement unconditionally — the
/// handler runs to completion whatever the decoder produced.
pub fn handle_scancode(decoder: &mut Decoder, buffer: &mut CommandBuffer, scancode: u8) -> (r:
    KeyboardIrqResult)
    requires
        old(buffer).wf(),
    ensures
        final(buffer).wf(),
        effect_consistent(old(buffer)@, final(buffer)@, r.effect),
        r.acknowledge == InterruptIndex::Keyboard,
{
    let effect = match decoder_add_byte(decoder, scancode) {
        Some(event) => match decoder_process_event(decoder, event) {
            Some(key) => handle_key(buffer, key),
            None => HandlerEffect::Nothing,
        },
        None => HandlerEffect::Nothing,
    };
    KeyboardIrqResult { effect, acknowledge: InterruptIndex::Keyboard }
}

/// Handle one timer interrupt: no work beyond naming the timer vector
/// for acknowledgement.
pub fn handle_timer() -> (r: InterruptIndex)
    ensures
        r == InterruptIndex::Timer,
{
    InterruptIndex::Timer
}

} // verus!
