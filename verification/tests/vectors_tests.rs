use input_core::vectors::{
    init_idt, HandlerBinding, InterruptIndex, VectorTable, PIC_1_OFFSET, PIC_2_OFFSET,
    VECTOR_COUNT,
};

#[test]
fn reserved_vectors_sit_just_above_the_cpu_reserved_range() {
    assert_eq!(PIC_1_OFFSET, 32);
    assert_eq!(PIC_2_OFFSET, 40);
    assert_eq!(InterruptIndex::Timer.as_u8(), 32);
    assert_eq!(InterruptIndex::Keyboard.as_u8(), 33);
    assert_eq!(InterruptIndex::Timer.as_usize(), 32);
    assert_eq!(InterruptIndex::Keyboard.as_usize(), 33);
}

#[test]
fn init_idt_binds_timer_and_keyboard_and_nothing_else() {
    let t = init_idt();
    assert_eq!(t.binding_at(32), HandlerBinding::TimerHandler);
    assert_eq!(t.binding_at(33), HandlerBinding::KeyboardHandler);
    for v in 0..VECTOR_COUNT {
        if v != 32 && v != 33 {
            assert_eq!(t.binding_at(v), HandlerBinding::Unbound);
        }
    }
}

#[test]
fn build_then_load_keeps_the_bindings() {
    let mut t = VectorTable::build();
    assert_eq!(t.binding_at(33), HandlerBinding::KeyboardHandler);
    t.load();
    assert_eq!(t.binding_at(32), HandlerBinding::TimerHandler);
    assert_eq!(t.binding_at(33), HandlerBinding::KeyboardHandler);
}
