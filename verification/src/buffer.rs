//! The in-progress command line: a fixed-capacity byte buffer, appended to
//! by the keyboard handler and drained by the dispatcher.

use vstd::prelude::*;

verus! {

/// Greatest number of bytes one command line may hold.
pub const COMMAND_BUFFER_SIZE: usize = 80;

/// The command line under construction. Bytes arrive one at a time from
/// the keyboard handler; the dispatcher takes them all at once and leaves
/// the buffer empty.
pub struct CommandBuffer {
    bytes: Vec<u8>,
}

impl View for CommandBuffer {
    type V = Seq<u8>;

    /// The bytes the buffer currently holds, oldest first.
    closed spec fn view(&self) -> Seq<u8> {
        self.bytes@
    }
}

/// What one append leaves in a line: the byte goes on the end while room
/// remains; a full line drops it silently.
pub open spec fn spec_append(line: Seq<u8>, c: u8) -> Seq<u8> {
    if line.len() < COMMAND_BUFFER_SIZE {
        line.push(c)
    } else {
        line
    }
}

/// What removing the last byte leaves in a line: one byte shorter, or
/// unchanged when already empty.
pub open spec fn spec_remove_last(line: Seq<u8>) -> Seq<u8> {
    if line.len() > 0 {
        line.drop_last()
    } else {
        line
    }
}

/// What a drain hands to the dispatcher: the whole line.
pub open spec fn spec_drain_result(line: Seq<u8>) -> Seq<u8> {
    line
}

/// What a drain leaves behind: nothing, whatever was there.
pub open spec fn spec_drain_state(line: Seq<u8>) -> Seq<u8> {
    Seq::empty()
}

impl CommandBuffer {
    /// The capacity bound that every operation preserves.
    pub open spec fn wf(&self) -> bool {
        self@.len() <= COMMAND_BUFFER_SIZE
    }

    /// An empty command line, as the core starts with.
    pub fn new() -> (b: CommandBuffer)
        ensures
            b.wf(),
            b@ == Seq::<u8>::empty(),
    {
        CommandBuffer { bytes: Vec::new() }
    }

    /// Hand the current line over and reset to empty in one step, so the
    /// dispatcher sees a consistent snapshot and the next command starts
    /// from nothing.
    pub fn drain_and_reset(&mut self) -> (drained: Vec<u8>)
        requires
            old(self).wf(),
        ensures
            final(self).wf(),
            drained@ == spec_drain_result(old(self)@),
            final(self)@ == spec_drain_state(old(self)@),
    {
        let mut drained: Vec<u8> = Vec::new();
        core::mem::swap(&mut self.bytes, &mut drained);
        drained
    }
}

/// Add one byte to the command line; a full line drops it silently, since
/// an interrupt handler has no caller to hand an error to.
pub fn add_char(buffer: &mut CommandBuffer, c: u8)
    requires
        old(buffer).wf(),
    ensures
        final(buffer).wf(),
        final(buffer)@ == spec_append(old(buffer)@, c),
{
    if buffer.bytes.len() < COMMAND_BUFFER_SIZE {
        buffer.bytes.push(c);
    }
}

/// Remove the last byte of the command line; on an empty line this is a
/// no-op, so the length never goes below zero.
pub fn remove_char(buffer: &mut CommandBuffer)
    requires
        old(buffer).wf(),
    ensures
        final(buffer).wf(),
        final(buffer)@ == spec_remove_last(old(buffer)@),
        old(buffer)@.len() == 0 ==> final(buffer)@ == old(buffer)@,
        final(buffer)@.len() <= old(buffer)@.len(),
{
    if buffer.bytes.len() > 0 {
        buffer.bytes.pop();
    }
}

/// The line that a fresh buffer holds after the given bytes are appended
/// in order, each through `spec_append`.
pub open spec fn content_after_appends(appended: Seq<u8>) -> Seq<u8>
    decreases appended.len(),
{
    if appended.len() == 0 {
        Seq::empty()
    } else {
        spec_append(content_after_appends(appended.drop_last()), appended.last())
    }
}

/// Appending any sequence of bytes into a fresh buffer keeps exactly the
/// first `COMMAND_BUFFER_SIZE` of them, in order: the capacity truncates
/// and nothing else is altered.
pub proof fn lemma_appends_truncate(appended: Seq<u8>)
    ensures
        appended.len() <= COMMAND_BUFFER_SIZE ==> content_after_appends(appended) == appended,
        appended.len() > COMMAND_BUFFER_SIZE ==> content_after_appends(appended) == appended.take(
            COMMAND_BUFFER_SIZE as int,
        ),
    decreases appended.len(),
{
    if appended.len() == 0 {
        assert(content_after_appends(appended) =~= appended);
    } else {
        let prefix = appended.drop_last();
        lemma_appends_truncate(prefix);
        if appended.len() <= COMMAND_BUFFER_SIZE {
            assert(prefix.push(appended.last()) =~= appended);
        } else if appended.len() == COMMAND_BUFFER_SIZE + 1 {
            assert(prefix =~= appended.take(COMMAND_BUFFER_SIZE as int));
        } else {
            assert(prefix.take(COMMAND_BUFFER_SIZE as int) =~= appended.take(
                COMMAND_BUFFER_SIZE as int,
            ));
        }
    }
}

/// A sequence of appends that fits within capacity is kept whole: the
/// drained content is the appended bytes, in order.
pub proof fn lemma_appends_within_capacity(appended: Seq<u8>)
    requires
        appended.len() <= COMMAND_BUFFER_SIZE,
    ensures
        content_after_appends(appended) == appended,
{
    lemma_appends_truncate(appended);
}

/// A sequence of appends past capacity keeps exactly the first
/// `COMMAND_BUFFER_SIZE` bytes; the excess is dropped without altering
/// the earlier content.
pub proof fn lemma_appends_past_capacity(appended: Seq<u8>)
    requires
        appended.len() > COMMAND_BUFFER_SIZE,
    ensures
        content_after_appends(appended) == appended.take(COMMAND_BUFFER_SIZE as int),
{
    lemma_appends_truncate(appended);
}

/// Two consecutive drains with no append between them yield an empty
/// second result: a drain leaves a state whose own drain hands out
/// nothing.
pub proof fn lemma_consecutive_drains(line: Seq<u8>)
    ensures
        spec_drain_result(spec_drain_state(line)) == Seq::<u8>::empty(),
        spec_drain_state(line).len() == 0,
{
}

} // verus!
