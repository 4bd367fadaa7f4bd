use vstd::prelude::*;

verus! {

/// The buffer a radix pass reads or writes.
#[derive(Clone, Copy, Debug, PartialEq, Eq, Structural)]
pub enum BufferSlot {
    /// The caller's input.
    Input,
    /// The caller's output.
    Output,
    /// The sorter's scratch buffer.
    Scratch,
}

pub open spec fn slot_source(radix_pass: nat, pass_count: nat) -> BufferSlot {
    if radix_pass == 0 {
        BufferSlot::Input
    } else if (pass_count - radix_pass) % 2 == 0 {
        BufferSlot::Output
    } else {
        BufferSlot::Scratch
    }
}

pub open spec fn slot_destination(radix_pass: nat, pass_count: nat) -> BufferSlot {
    if (pass_count - radix_pass - 1) % 2 == 0 {
        BufferSlot::Output
    } else {
        BufferSlot::Scratch
    }
}

/// The `(source, destination)` of pass `radix_pass` out of `pass_count`.
///
/// The first pass reads the input and the passes ping-pong between the
/// output and scratch so that the last pass writes the output, whatever the
/// pass count.
pub fn pass_buffer_slots(radix_pass: u32, pass_count: u32) -> (r: (BufferSlot, BufferSlot))
    requires
        radix_pass < pass_count,
    ensures
        r == (
            slot_source(radix_pass as nat, pass_count as nat),
            slot_destination(radix_pass as nat, pass_count as nat),
        ),
{
    let source = if radix_pass == 0 {
        BufferSlot::Input
    } else if (pass_count - radix_pass) % 2 == 0 {
        BufferSlot::Output
    } else {
        BufferSlot::Scratch
    };
    let passes_after = pass_count - radix_pass - 1;
    let destination = if passes_after % 2 == 0 {
        BufferSlot::Output
    } else {
        BufferSlot::Scratch
    };
    (source, destination)
}

/// Routing law: for every pass count, the first pass reads the input, the
/// last pass writes the caller's output, each pass reads what the previous
/// pass wrote, no pass reads the buffer it writes, and the input is never
/// written.
pub proof fn lemma_pass_routing(pass_count: nat)
    requires
        pass_count >= 1,
    ensures
        slot_source(0, pass_count) == BufferSlot::Input,
        slot_destination((pass_count - 1) as nat, pass_count) == BufferSlot::Output,
        forall|p: nat|
            0 < p < pass_count ==> #[trigger] slot_source(p, pass_count) == slot_destination(
                (p - 1) as nat,
                pass_count,
            ),
        forall|p: nat|
            p < pass_count ==> #[trigger] slot_source(p, pass_count) != slot_destination(
                p,
                pass_count,
            ),
        forall|p: nat| p < pass_count ==> #[trigger] slot_destination(p, pass_count) != BufferSlot::Input,
{
}

} // verus!
