use input_core::buffer::CommandBuffer;
use input_core::dispatch::DispatchOutcome;
use input_core::keyboard::{handle_key, handle_scancode, handle_timer, Decoder, HandlerEffect, Key};
use input_core::vectors::InterruptIndex;

// Scancode set 1 make codes used below.
const SC_A: u8 = 0x1E;
const SC_C: u8 = 0x2E;
const SC_E: u8 = 0x12;
const SC_L: u8 = 0x26;
const SC_R: u8 = 0x13;
const SC_ENTER: u8 = 0x1C;
const SC_BACKSPACE: u8 = 0x0E;
const SC_EXTENDED_PREFIX: u8 = 0xE0;
const SC_LSHIFT: u8 = 0x2A;

#[test]
fn typing_a_letter_echoes_it_and_acknowledges_the_keyboard() {
    let mut d = Decoder::new();
    let mut b = CommandBuffer::new();
    let r = handle_scancode(&mut d, &mut b, SC_A);
    assert!(matches!(r.effect, HandlerEffect::Echo('a')));
    assert_eq!(r.acknowledge, InterruptIndex::Keyboard);
    assert_eq!(b.drain_and_reset(), b"a".to_vec());
}

#[test]
fn partial_scancode_sequence_still_reaches_acknowledgement() {
    let mut d = Decoder::new();
    let mut b = CommandBuffer::new();
    let r = handle_scancode(&mut d, &mut b, SC_EXTENDED_PREFIX);
    assert!(matches!(r.effect, HandlerEffect::Nothing));
    assert_eq!(r.acknowledge, InterruptIndex::Keyboard);
    assert!(b.drain_and_reset().is_empty());
}

#[test]
fn backspace_key_erases_the_last_byte() {
    let mut d = Decoder::new();
    let mut b = CommandBuffer::new();
    handle_scancode(&mut d, &mut b, SC_A);
    let r = handle_scancode(&mut d, &mut b, SC_BACKSPACE);
    assert!(matches!(r.effect, HandlerEffect::EraseLast));
    assert!(b.drain_and_reset().is_empty());
}

#[test]
fn typing_clear_and_enter_submits_the_clear_command() {
    let mut d = Decoder::new();
    let mut b = CommandBuffer::new();
    for sc in [SC_C, SC_L, SC_E, SC_A, SC_R] {
        let r = handle_scancode(&mut d, &mut b, sc);
        assert!(matches!(r.effect, HandlerEffect::Echo(_)));
        assert_eq!(r.acknowledge, InterruptIndex::Keyboard);
    }
    let r = handle_scancode(&mut d, &mut b, SC_ENTER);
    match r.effect {
        HandlerEffect::Submitted(out) => assert!(matches!(out, DispatchOutcome::ClearScreen)),
        _ => panic!("expected the line to be submitted"),
    }
    assert_eq!(r.acknowledge, InterruptIndex::Keyboard);
    assert!(b.drain_and_reset().is_empty());
}

#[test]
fn enter_on_an_empty_line_submits_the_empty_unknown_command() {
    let mut d = Decoder::new();
    let mut b = CommandBuffer::new();
    let r = handle_scancode(&mut d, &mut b, SC_ENTER);
    match r.effect {
        HandlerEffect::Submitted(DispatchOutcome::Unknown(text)) => assert_eq!(text, ""),
        _ => panic!("expected the empty line to be reported unknown"),
    }
}

#[test]
fn non_printable_key_echoes_its_debug_text_and_leaves_the_buffer_alone() {
    let mut d = Decoder::new();
    let mut b = CommandBuffer::new();
    let r = handle_scancode(&mut d, &mut b, SC_LSHIFT);
    match r.effect {
        HandlerEffect::RawEcho(text) => assert!(!text.is_empty()),
        other => panic!("expected a raw-key echo, got {:?}", effect_name(&other)),
    }
    assert!(b.drain_and_reset().is_empty());
}

#[test]
fn handle_key_appends_a_plain_character() {
    let mut b = CommandBuffer::new();
    let e = handle_key(&mut b, Key::Char('x'));
    assert!(matches!(e, HandlerEffect::Echo('x')));
    assert_eq!(b.drain_and_reset(), b"x".to_vec());
}

#[test]
fn handle_key_newline_submits_the_line() {
    let mut b = CommandBuffer::new();
    handle_key(&mut b, Key::Char('h'));
    handle_key(&mut b, Key::Char('i'));
    let e = handle_key(&mut b, Key::Char('\n'));
    match e {
        HandlerEffect::Submitted(DispatchOutcome::Unknown(text)) => assert_eq!(text, "hi"),
        _ => panic!("expected the line to be submitted as unknown"),
    }
}

#[test]
fn timer_handler_acknowledges_the_timer_vector() {
    assert_eq!(handle_timer(), InterruptIndex::Timer);
}

fn effect_name(e: &HandlerEffect) -> &'static str {
    match e {
        HandlerEffect::Nothing => "Nothing",
        HandlerEffect::Echo(_) => "Echo",
        HandlerEffect::EraseLast => "EraseLast",
        HandlerEffect::Submitted(_) => "Submitted",
        HandlerEffect::RawEcho(_) => "RawEcho",
    }
}
