//! Virtual-address layout of the four memory regions.
//!
//! The VM ABI fixes one base address per region and leaves a 4 GiB window
//! between consecutive bases. The stack region is frame-gapped: the VM
//! interleaves each stack frame with an unmapped gap of the same size, so
//! the stack's virtual span is twice its backing buffer.

use vstd::prelude::*;
use crate::InvokeError;

verus! {

/// Base virtual address of the read-only program region.
pub const MM_PROGRAM_START: u64 = 0x100000000;

/// Base virtual address of the frame-gapped stack region.
pub const MM_STACK_START: u64 = 0x200000000;

/// Base virtual address of the heap region.
pub const MM_HEAP_START: u64 = 0x300000000;

/// Base virtual address of the input region holding the serialized
/// parameters.
pub const MM_INPUT_START: u64 = 0x400000000;

/// Width of the window the ABI reserves for each region: the distance
/// between two consecutive base addresses.
pub const REGION_WINDOW: u64 = 0x100000000;

/// One contiguous virtual address range with a fixed base, a virtual span
/// and a permission.
#[derive(Clone, Copy, Debug, PartialEq, Eq, Structural)]
pub struct Region {
    /// First virtual address of the region.
    pub base: u64,
    /// Number of virtual addresses the region spans. For the gapped stack
    /// region this is twice the backing buffer's length.
    pub vm_span: u64,
    /// Whether the program may write to the region.
    pub writable: bool,
}

/// Two regions are disjoint when their [base, base + span) ranges do not
/// intersect.
pub open spec fn regions_disjoint(a: Region, b: Region) -> bool {
    a.base + a.vm_span <= b.base || b.base + b.vm_span <= a.base
}

/// The four regions of one invocation, in the order the driver assembles
/// them.
#[derive(Clone, Copy, Debug, PartialEq, Eq, Structural)]
pub struct MemoryLayout {
    /// Read-only program region holding the executable's code and data.
    pub program: Region,
    /// Writable, frame-gapped stack region.
    pub stack: Region,
    /// Writable heap region, sized by the compute budget.
    pub heap: Region,
    /// Writable input region holding the serialized parameters.
    pub input: Region,
}

impl MemoryLayout {
    /// The four regions in assembly order.
    pub open spec fn regions(self) -> Seq<Region> {
        seq![self.program, self.stack, self.heap, self.input]
    }

    /// A well-formed layout: each region sits at its ABI base and stays
    /// inside the window the ABI reserves for it.
    pub open spec fn wf(self) -> bool {
        &&& self.program.base == MM_PROGRAM_START
        &&& !self.program.writable
        &&& self.program.vm_span <= REGION_WINDOW
        &&& self.stack.base == MM_STACK_START
        &&& self.stack.writable
        &&& self.stack.vm_span <= REGION_WINDOW
        &&& self.heap.base == MM_HEAP_START
        &&& self.heap.writable
        &&& self.heap.vm_span <= REGION_WINDOW
        &&& self.input.base == MM_INPUT_START
        &&& self.input.writable
        &&& self.input.vm_span <= u64::MAX - MM_INPUT_START
    }
}

/// Whether the four buffer sizes fit the windows the ABI reserves: the
/// program, doubled stack and heap regions each within their 4 GiB window,
/// and the input region within the address space above its base.
pub open spec fn sizes_fit(ro_len: int, stack_size: int, heap_size: int, input_len: int) -> bool {
    &&& ro_len <= REGION_WINDOW
    &&& 2 * stack_size <= REGION_WINDOW
    &&& heap_size <= REGION_WINDOW
    &&& input_len <= u64::MAX - MM_INPUT_START
}

/// In a well-formed layout the four regions' address ranges are pairwise
/// disjoint.
pub proof fn lemma_layout_regions_disjoint(layout: MemoryLayout)
    requires
        layout.wf(),
    ensures
        forall|i: int, j: int|
            0 <= i < 4 && 0 <= j < 4 && i != j ==> regions_disjoint(
                layout.regions()[i],
                layout.regions()[j],
            ),
{
}

/// Computes the well-formed layout for one invocation, or reports that a
/// region would not fit the window the ABI reserves for it.
///
/// `ro_len` is the byte length of the executable's read-only region,
/// `stack_size` the stack buffer's length (the gapped region spans twice
/// that), `heap_size` the heap buffer's length from the compute budget and
/// `input_len` the length of the serialized parameter buffer.
pub fn plan_memory_layout(
    ro_len: usize,
    stack_size: usize,
    heap_size: usize,
    input_len: usize,
) -> (result: Result<MemoryLayout, InvokeError>)
    ensures
        match result {
            Ok(layout) => {
                &&& layout.wf()
                &&& layout.program.vm_span == ro_len
                &&& layout.stack.vm_span == 2 * stack_size
                &&& layout.heap.vm_span == heap_size
                &&& layout.input.vm_span == input_len
                &&& sizes_fit(ro_len as int, stack_size as int, heap_size as int, input_len as int)
            },
            Err(e) => {
                &&& e == InvokeError::RegionTooLarge
                &&& !sizes_fit(ro_len as int, stack_size as int, heap_size as int, input_len as int)
            },
        },
{
    let ro_len = ro_len as u64;
    let stack_size = stack_size as u64;
    let heap_size = heap_size as u64;
    let input_len = input_len as u64;
    if ro_len > REGION_WINDOW {
        return Err(InvokeError::RegionTooLarge);
    }
    if stack_size > REGION_WINDOW / 2 {
        return Err(InvokeError::RegionTooLarge);
    }
    if heap_size > REGION_WINDOW {
        return Err(InvokeError::RegionTooLarge);
    }
    if input_len > u64::MAX - MM_INPUT_START {
        return Err(InvokeError::RegionTooLarge);
    }
    Ok(
        MemoryLayout {
            program: Region { base: MM_PROGRAM_START, vm_span: ro_len, writable: false },
            stack: Region { base: MM_STACK_START, vm_span: 2 * stack_size, writable: true },
            heap: Region { base: MM_HEAP_START, vm_span: heap_size, writable: true },
            input: Region { base: MM_INPUT_START, vm_span: input_len, writable: true },
        },
    )
}

} // verus!
