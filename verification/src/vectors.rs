//! The interrupt vector table: a fixed mapping from CPU vector numbers to
//! handler identities, built once at startup and immutable afterwards.

use vstd::prelude::*;

verus! {

/// Vector base of the primary interrupt controller, placed just above the
/// CPU-reserved range 0..=31.
pub const PIC_1_OFFSET: u8 = 32;

/// Vector base of the secondary interrupt controller, one block of eight
/// above the primary's.
pub const PIC_2_OFFSET: u8 = PIC_1_OFFSET + 8;

/// The two interrupt vectors this core reserves.
#[derive(Clone, Copy, Debug, PartialEq, Eq, Structural)]
pub enum InterruptIndex {
    Timer,
    Keyboard,
}

impl InterruptIndex {
    /// The CPU vector number: the timer sits at the primary controller's
    /// base, the keyboard one above it.
    pub open spec fn spec_as_u8(self) -> u8 {
        match self {
            InterruptIndex::Timer => PIC_1_OFFSET,
            InterruptIndex::Keyboard => (PIC_1_OFFSET + 1) as u8,
        }
    }

    pub fn as_u8(self) -> (r: u8)
        ensures
            r == self.spec_as_u8(),
    {
        match self {
            InterruptIndex::Timer => PIC_1_OFFSET,
            InterruptIndex::Keyboard => PIC_1_OFFSET + 1,
        }
    }

    pub fn as_usize(self) -> (r: usize)
        ensures
            r == self.spec_as_u8() as usize,
    {
        let v: u8 = self.as_u8();
        v as usize
    }
}

/// What one entry of the vector table is bound to.
#[derive(Clone, Copy, Debug, PartialEq, Eq, Structural)]
pub enum HandlerBinding {
    Unbound,
    TimerHandler,
    KeyboardHandler,
}

/// Number of entries the CPU's vector table holds.
pub const VECTOR_COUNT: usize = 256;

/// The one binding vector `v` must have: the timer handler at the timer
/// vector, the keyboard handler at the keyboard vector, nothing anywhere
/// else.
pub open spec fn spec_binding(v: int) -> HandlerBinding {
    if v == InterruptIndex::Timer.spec_as_u8() as int {
        HandlerBinding::TimerHandler
    } else if v == InterruptIndex::Keyboard.spec_as_u8() as int {
        HandlerBinding::KeyboardHandler
    } else {
        HandlerBinding::Unbound
    }
}

/// The interrupt vector table. Its lifecycle is monotonic: built once with
/// its two fixed bindings, then loaded; entries never change after build.
pub struct VectorTable {
    entries: Vec<HandlerBinding>,
    loaded: bool,
}

impl View for VectorTable {
    type V = Seq<HandlerBinding>;

    /// The bindings, one per CPU vector.
    closed spec fn view(&self) -> Seq<HandlerBinding> {
        self.entries@
    }
}

impl VectorTable {
    /// Whether the table has been installed as the CPU's active one.
    pub closed spec fn is_loaded(&self) -> bool {
        self.loaded
    }

    /// A well-formed table has every vector bound exactly as
    /// `spec_binding` demands.
    pub open spec fn wf(&self) -> bool {
        &&& self@.len() == VECTOR_COUNT
        &&& forall|i: int| 0 <= i < VECTOR_COUNT ==> self@[i] == spec_binding(i)
    }

    /// Build the table: timer and keyboard bound to their handlers, every
    /// other vector left unbound. The table is not yet loaded.
    pub fn build() -> (t: VectorTable)
        ensures
            t.wf(),
            !t.is_loaded(),
    {
        let timer_slot: usize = InterruptIndex::Timer.as_usize();
        let keyboard_slot: usize = InterruptIndex::Keyboard.as_usize();
        let mut entries: Vec<HandlerBinding> = Vec::new();
        let mut i: usize = 0;
        while i < VECTOR_COUNT
            invariant
                i <= VECTOR_COUNT,
                entries@.len() == i,
                timer_slot == InterruptIndex::Timer.spec_as_u8(),
                keyboard_slot == InterruptIndex::Keyboard.spec_as_u8(),
                forall|j: int| 0 <= j < i ==> entries@[j] == spec_binding(j),
            decreases VECTOR_COUNT - i,
        {
            let b = if i == timer_slot {
                HandlerBinding::TimerHandler
            } else if i == keyboard_slot {
                HandlerBinding::KeyboardHandler
            } else {
                HandlerBinding::Unbound
            };
            entries.push(b);
            i = i + 1;
        }
        VectorTable { entries, loaded: false }
    }

    /// Mark the table as installed. The bindings are untouched: loading is
    /// the one forward step of the build-then-freeze lifecycle.
    pub fn load(&mut self)
        requires
            old(self).wf(),
        ensures
            final(self).wf(),
            final(self).is_loaded(),
            final(self)@ == old(self)@,
    {
        self.loaded = true;
    }

    /// Read one entry, for whoever installs the real table.
    pub fn binding_at(&self, vector: usize) -> (b: HandlerBinding)
        requires
            self.wf(),
            vector < VECTOR_COUNT,
        ensures
            b == spec_binding(vector as int),
    {
        self.entries[vector]
    }
}

/// Build the vector table and install it, as done once at startup: after
/// this, both reserved vectors are bound and the table is active.
pub fn init_idt() -> (t: VectorTable)
    ensures
        t.wf(),
        t.is_loaded(),
{
    let mut t = VectorTable::build();
    t.load();
    t
}

} // verus!
