use input_core::pic::{
    ChainedControllerPair, PortWrite, CMD_END_OF_INTERRUPT, CMD_INIT, PRIMARY_COMMAND_PORT,
    PRIMARY_DATA_PORT, SECONDARY_COMMAND_PORT, SECONDARY_DATA_PORT,
};
use input_core::vectors::{PIC_1_OFFSET, PIC_2_OFFSET};

fn last_write_to(plan: &[PortWrite], port: u16) -> Option<u8> {
    plan.iter().rev().find(|w| w.port == port).map(|w| w.value)
}

#[test]
fn initialization_restores_both_saved_masks() {
    let pair = ChainedControllerPair::new(PIC_1_OFFSET, PIC_2_OFFSET);
    let plan = pair.initialize_plan(0xA5, 0x3C);
    assert_eq!(last_write_to(&plan, PRIMARY_DATA_PORT), Some(0xA5));
    assert_eq!(last_write_to(&plan, SECONDARY_DATA_PORT), Some(0x3C));
}

#[test]
fn initialization_begins_with_the_init_command_to_both_controllers() {
    let pair = ChainedControllerPair::new(PIC_1_OFFSET, PIC_2_OFFSET);
    let plan = pair.initialize_plan(0, 0);
    assert_eq!(plan[0], PortWrite { port: PRIMARY_COMMAND_PORT, value: CMD_INIT });
    assert_eq!(plan[2], PortWrite { port: SECONDARY_COMMAND_PORT, value: CMD_INIT });
}

#[test]
fn initialization_programs_both_vector_offsets() {
    let pair = ChainedControllerPair::new(PIC_1_OFFSET, PIC_2_OFFSET);
    let plan = pair.initialize_plan(0xFF, 0xFF);
    assert!(plan.contains(&PortWrite { port: PRIMARY_DATA_PORT, value: PIC_1_OFFSET }));
    assert!(plan.contains(&PortWrite { port: SECONDARY_DATA_PORT, value: PIC_2_OFFSET }));
}

#[test]
fn keyboard_vector_is_acknowledged_at_the_primary_controller_only() {
    let pair = ChainedControllerPair::new(PIC_1_OFFSET, PIC_2_OFFSET);
    let plan = pair.acknowledge_plan(PIC_1_OFFSET + 1);
    assert_eq!(
        plan,
        vec![PortWrite { port: PRIMARY_COMMAND_PORT, value: CMD_END_OF_INTERRUPT }]
    );
}

#[test]
fn secondary_vector_is_acknowledged_at_both_controllers() {
    let pair = ChainedControllerPair::new(PIC_1_OFFSET, PIC_2_OFFSET);
    let plan = pair.acknowledge_plan(PIC_2_OFFSET + 4);
    assert_eq!(
        plan,
        vec![
            PortWrite { port: SECONDARY_COMMAND_PORT, value: CMD_END_OF_INTERRUPT },
            PortWrite { port: PRIMARY_COMMAND_PORT, value: CMD_END_OF_INTERRUPT },
        ]
    );
}

#[test]
fn unowned_vector_gets_no_acknowledgement_writes() {
    let pair = ChainedControllerPair::new(PIC_1_OFFSET, PIC_2_OFFSET);
    let plan = pair.acknowledge_plan(5);
    assert!(plan.is_empty());
}
