//! The chained interrupt controller protocol, modelled as data: each
//! operation of the pair is a plan, the exact sequence of 8-bit port
//! writes the hardware must receive. Whoever owns the ports performs a
//! plan in order; the plans themselves are verified here.

use vstd::prelude::*;

verus! {

/// One 8-bit write to an I/O port: the unit of the controller protocol.
#[derive(Clone, Copy, Debug, PartialEq, Eq, Structural)]
pub struct PortWrite {
    pub port: u16,
    pub value: u8,
}

/// Command port of the primary controller.
pub const PRIMARY_COMMAND_PORT: u16 = 0x20;

/// Data (and interrupt-mask) port of the primary controller.
pub const PRIMARY_DATA_PORT: u16 = 0x21;

/// Command port of the secondary controller.
pub const SECONDARY_COMMAND_PORT: u16 = 0xA0;

/// Data (and interrupt-mask) port of the secondary controller.
pub const SECONDARY_DATA_PORT: u16 = 0xA1;

/// Writing anything here is the traditional delay between controller
/// writes on old hardware.
pub const WAIT_PORT: u16 = 0x80;

/// Command that begins a controller's initialization sequence.
pub const CMD_INIT: u8 = 0x11;

/// Command that acknowledges an interrupt (end of interrupt).
pub const CMD_END_OF_INTERRUPT: u8 = 0x20;

/// The controllers' operating mode word.
pub const MODE_8086: u8 = 0x01;

/// The pair of chained 8-bit controllers: each owns a vector offset,
/// fixed at construction and never changed.
pub struct ChainedControllerPair {
    primary_offset: u8,
    secondary_offset: u8,
}

/// The full remap sequence for the pair, given the interrupt masks read
/// from the two data ports beforehand: initialization command words, the
/// two vector offsets, the cascade identities, the mode words, and at the
/// end the saved masks, written back unchanged.
pub open spec fn spec_initialize_plan(
    primary_offset: u8,
    secondary_offset: u8,
    saved_primary_mask: u8,
    saved_secondary_mask: u8,
) -> Seq<PortWrite> {
    seq![
        PortWrite { port: PRIMARY_COMMAND_PORT, value: CMD_INIT },
        PortWrite { port: WAIT_PORT, value: 0 },
        PortWrite { port: SECONDARY_COMMAND_PORT, value: CMD_INIT },
        PortWrite { port: WAIT_PORT, value: 0 },
        PortWrite { port: PRIMARY_DATA_PORT, value: primary_offset },
        PortWrite { port: WAIT_PORT, value: 0 },
        PortWrite { port: SECONDARY_DATA_PORT, value: secondary_offset },
        PortWrite { port: WAIT_PORT, value: 0 },
        PortWrite { port: PRIMARY_DATA_PORT, value: 4 },
        PortWrite { port: WAIT_PORT, value: 0 },
        PortWrite { port: SECONDARY_DATA_PORT, value: 2 },
        PortWrite { port: WAIT_PORT, value: 0 },
        PortWrite { port: PRIMARY_DATA_PORT, value: MODE_8086 },
        PortWrite { port: WAIT_PORT, value: 0 },
        PortWrite { port: SECONDARY_DATA_PORT, value: MODE_8086 },
        PortWrite { port: WAIT_PORT, value: 0 },
        PortWrite { port: PRIMARY_DATA_PORT, value: saved_primary_mask },
        PortWrite { port: SECONDARY_DATA_PORT, value: saved_secondary_mask },
    ]
}

impl ChainedControllerPair {
    /// The primary controller's vector base.
    pub closed spec fn spec_primary_offset(&self) -> u8 {
        self.primary_offset
    }

    /// The secondary controller's vector base.
    pub closed spec fn spec_secondary_offset(&self) -> u8 {
        self.secondary_offset
    }

    /// Whether the primary controller owns vector `v`: each controller
    /// owns a block of eight vectors from its base.
    pub open spec fn spec_primary_handles(&self, v: u8) -> bool {
        self.spec_primary_offset() <= v && v < self.spec_primary_offset() + 8
    }

    /// Whether the secondary controller owns vector `v`.
    pub open spec fn spec_secondary_handles(&self, v: u8) -> bool {
        self.spec_secondary_offset() <= v && v < self.spec_secondary_offset() + 8
    }

    /// The acknowledgement plan for vector `v`: the end-of-interrupt
    /// command to whichever controller owns it — and, for the secondary's
    /// vectors, to the primary as well, since the secondary reports
    /// through it. A vector neither owns gets no writes.
    pub open spec fn spec_eoi_plan(&self, v: u8) -> Seq<PortWrite> {
        if self.spec_secondary_handles(v) {
            seq![
                PortWrite { port: SECONDARY_COMMAND_PORT, value: CMD_END_OF_INTERRUPT },
                PortWrite { port: PRIMARY_COMMAND_PORT, value: CMD_END_OF_INTERRUPT },
            ]
        } else if self.spec_primary_handles(v) {
            seq![PortWrite { port: PRIMARY_COMMAND_PORT, value: CMD_END_OF_INTERRUPT }]
        } else {
            Seq::empty()
        }
    }

    /// A pair with the given vector offsets.
    pub fn new(primary_offset: u8, secondary_offset: u8) -> (p: ChainedControllerPair)
        ensures
            p.spec_primary_offset() == primary_offset,
            p.spec_secondary_offset() == secondary_offset,
    {
        ChainedControllerPair { primary_offset, secondary_offset }
    }

    /// The remap sequence, ready to perform, given the masks read from
    /// the two data ports beforehand.
    pub fn initialize_plan(&self, saved_primary_mask: u8, saved_secondary_mask: u8) -> (r: Vec<
        PortWrite,
    >)
        ensures
            r@ == spec_initialize_plan(
                self.spec_primary_offset(),
                self.spec_secondary_offset(),
                saved_primary_mask,
                saved_secondary_mask,
            ),
    {
        let mut r: Vec<PortWrite> = Vec::new();
        r.push(PortWrite { port: PRIMARY_COMMAND_PORT, value: CMD_INIT });
        r.push(PortWrite { port: WAIT_PORT, value: 0 });
        r.push(PortWrite { port: SECONDARY_COMMAND_PORT, value: CMD_INIT });
        r.push(PortWrite { port: WAIT_PORT, value: 0 });
        r.push(PortWrite { port: PRIMARY_DATA_PORT, value: self.primary_offset });
        r.push(PortWrite { port: WAIT_PORT, value: 0 });
        r.push(PortWrite { port: SECONDARY_DATA_PORT, value: self.secondary_offset });
        r.push(PortWrite { port: WAIT_PORT, value: 0 });
        r.push(PortWrite { port: PRIMARY_DATA_PORT, value: 4 });
        r.push(PortWrite { port: WAIT_PORT, value: 0 });
        r.push(PortWrite { port: SECONDARY_DATA_PORT, value: 2 });
        r.push(PortWrite { port: WAIT_PORT, value: 0 });
        r.push(PortWrite { port: PRIMARY_DATA_PORT, value: MODE_8086 });
        r.push(PortWrite { port: WAIT_PORT, value: 0 });
        r.push(PortWrite { port: SECONDARY_DATA_PORT, value: MODE_8086 });
        r.push(PortWrite { port: WAIT_PORT, value: 0 });
        r.push(PortWrite { port: PRIMARY_DATA_PORT, value: saved_primary_mask });
        r.push(PortWrite { port: SECONDARY_DATA_PORT, value: saved_secondary_mask });
        proof {
            assert(r@ =~= spec_initialize_plan(
                self.spec_primary_offset(),
                self.spec_secondary_offset(),
                saved_primary_mask,
                saved_secondary_mask,
            ));
        }
        r
    }

    /// The acknowledgement writes for vector `v`, exactly one plan per
    /// handled interrupt.
    pub fn acknowledge_plan(&self, v: u8) -> (r: Vec<PortWrite>)
        ensures
            r@ == self.spec_eoi_plan(v),
    {
        let mut r: Vec<PortWrite> = Vec::new();
        let secondary_handles = self.secondary_offset <= v && (v as u16) < (
        self.secondary_offset as u16) + 8;
        let primary_handles = self.primary_offset <= v && (v as u16) < (self.primary_offset as u16)
            + 8;
        if secondary_handles {
            r.push(PortWrite { port: SECONDARY_COMMAND_PORT, value: CMD_END_OF_INTERRUPT });
            r.push(PortWrite { port: PRIMARY_COMMAND_PORT, value: CMD_END_OF_INTERRUPT });
        } else if primary_handles {
            r.push(PortWrite { port: PRIMARY_COMMAND_PORT, value: CMD_END_OF_INTERRUPT });
        }
        proof {
            assert(r@ =~= self.spec_eoi_plan(v));
        }
        r
    }
}

/// The value a sequence of port writes leaves in port `port`: the last
/// write that hits it, if any does.
pub open spec fn last_write_to(ops: Seq<PortWrite>, port: u16) -> Option<u8>
    decreases ops.len(),
{
    if ops.len() == 0 {
        Option::None
    } else if ops.last().port == port {
        Option::Some(ops.last().value)
    } else {
        last_write_to(ops.drop_last(), port)
    }
}

/// Initialization restores the pre-existing interrupt masks: whatever
/// masks were read before the remap, the last value the plan writes to
/// each controller's mask port is that saved mask, so the masking changes
/// made during the remap are reversed.
pub proof fn lemma_initialize_restores_masks(
    primary_offset: u8,
    secondary_offset: u8,
    saved_primary_mask: u8,
    saved_secondary_mask: u8,
)
    ensures
        last_write_to(
            spec_initialize_plan(
                primary_offset,
                secondary_offset,
                saved_primary_mask,
                saved_secondary_mask,
            ),
            PRIMARY_DATA_PORT,
        ) == Option::Some(saved_primary_mask),
        last_write_to(
            spec_initialize_plan(
                primary_offset,
                secondary_offset,
                saved_primary_mask,
                saved_secondary_mask,
            ),
            SECONDARY_DATA_PORT,
        ) == Option::Some(saved_secondary_mask),
{
    let plan = spec_initialize_plan(
        primary_offset,
        secondary_offset,
        saved_primary_mask,
        saved_secondary_mask,
    );
    assert(plan.last() == (PortWrite { port: SECONDARY_DATA_PORT, value: saved_secondary_mask }));
    assert(last_write_to(plan, SECONDARY_DATA_PORT) == Option::Some(saved_secondary_mask));
    let rest = plan.drop_last();
    assert(rest.last() == (PortWrite { port: PRIMARY_DATA_PORT, value: saved_primary_mask }));
    assert(last_write_to(plan, PRIMARY_DATA_PORT) == last_write_to(rest, PRIMARY_DATA_PORT));
    assert(last_write_to(rest, PRIMARY_DATA_PORT) == Option::Some(saved_primary_mask));
}

} // verus!
