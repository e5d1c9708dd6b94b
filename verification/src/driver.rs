//! The invocation driver's decision core.
//!
//! One invocation walks a straight line of states — loaded, resolved,
//! serialized, mapped, patched — and every failure on the way is terminal:
//! nothing is retried. This module decides each step and pins the outcome;
//! the external virtual machine then executes the prepared plan.

use vstd::prelude::*;
use vstd::string::StringSliceAdditionalSpecFns;
use crate::InvokeError;
use crate::insn::{
    encode_jump_instruction, spec_jump_instruction, spec_offset_field, OFFSET_FIELD_LIMIT,
};
use crate::layout::{plan_memory_layout, sizes_fit, MemoryLayout, MM_INPUT_START};
use crate::params::{serialize_params, InvokeSerialize};
use crate::pool::{checkout_spec, BufferPool};
use crate::registry::{resolve_function, symbol_hash, FunctionRegistry};

verus! {

/// Index of the register that carries the target function's first (and
/// only) argument: the input region's base address.
pub const FIRST_ARG_REG: usize = 1;

/// Index of the frame-pointer register.
pub const FRAME_PTR_REG: usize = 10;

/// Index of the pseudo-register slot the interpreter reads first; the
/// synthetic jump instruction is placed there.
pub const ENTRY_SLOT: usize = 11;

/// Number of slots in the VM's register file.
pub const REGISTER_COUNT: usize = 12;

/// What the driver reads of a loaded executable: its function registry and
/// the configuration the loader exposed.
pub struct ExecutableInfo {
    /// Name-to-address registry of the exported functions.
    pub registry: FunctionRegistry,
    /// Byte length of the executable's read-only region.
    pub ro_region_len: usize,
    /// Configured stack size; the gapped stack region spans twice this.
    pub stack_size: usize,
    /// Configured size of one stack frame, the gap unit of the stack
    /// region.
    pub stack_frame_size: u64,
}

/// Everything the external virtual machine needs to run one direct call:
/// the resolved target, the serialized parameters, the checked-out buffers,
/// the region layout and the synthetic entry instruction.
#[derive(Debug)]
pub struct InvocationPlan {
    /// Program counter of the resolved target function.
    pub target_pc: u64,
    /// The parameters' canonical byte encoding, backing the input region.
    pub param_bytes: Vec<u8>,
    /// Stack buffer checked out of the pool, at least `stack_size` bytes.
    pub stack_buffer: Vec<u8>,
    /// Heap buffer checked out of the pool, at least the budgeted heap
    /// size.
    pub heap_buffer: Vec<u8>,
    /// The four-region virtual-address layout.
    pub layout: MemoryLayout,
    /// The synthetic jump placed in the slot the interpreter reads first.
    pub entry_instruction: u64,
}

/// What `prepare_invocation` returns, case by case. `hash` is the hash of
/// the requested function name, `encoding` the parameters' canonical byte
/// encoding, `pre_pool` and `post_pool` the pool's free lists before and
/// after the call.
pub open spec fn prepare_result(
    exec: ExecutableInfo,
    hash: u32,
    encoding: Seq<u8>,
    heap_size: usize,
    pre_pool: Seq<Seq<u8>>,
    post_pool: Seq<Seq<u8>>,
    result: Result<InvocationPlan, InvokeError>,
) -> bool {
    match result {
        Ok(plan) => {
            &&& exec.registry.maps_to(hash, plan.target_pc)
            &&& plan.target_pc < OFFSET_FIELD_LIMIT
            &&& plan.param_bytes@ == encoding
            &&& plan.entry_instruction == spec_jump_instruction(plan.target_pc)
            &&& spec_offset_field(plan.entry_instruction) == plan.target_pc
            &&& plan.layout.wf()
            &&& plan.layout.program.vm_span == exec.ro_region_len
            &&& plan.layout.stack.vm_span == 2 * exec.stack_size
            &&& plan.layout.heap.vm_span == heap_size
            &&& plan.layout.input.vm_span == encoding.len()
            &&& plan.stack_buffer@.len() >= exec.stack_size
            &&& plan.heap_buffer@.len() >= heap_size
            &&& exists|mid: Seq<Seq<u8>>|
                #![auto]
                checkout_spec(pre_pool, mid, plan.stack_buffer@, exec.stack_size as nat)
                    && checkout_spec(mid, post_pool, plan.heap_buffer@, heap_size as nat)
        },
        Err(InvokeError::FunctionNotFound) => {
            &&& !exec.registry.contains_key(hash)
            &&& post_pool == pre_pool
        },
        Err(InvokeError::TargetOutOfRange) => {
            &&& exists|pc: u64|
                #![auto]
                exec.registry.maps_to(hash, pc) && pc >= OFFSET_FIELD_LIMIT
            &&& post_pool == pre_pool
        },
        Err(InvokeError::RegionTooLarge) => {
            &&& exists|pc: u64|
                #![auto]
                exec.registry.maps_to(hash, pc) && pc < OFFSET_FIELD_LIMIT
            &&& !sizes_fit(
                exec.ro_region_len as int,
                exec.stack_size as int,
                heap_size as int,
                encoding.len() as int,
            )
            &&& post_pool == pre_pool
        },
    }
}

/// Prepares one direct call: resolves the function name against the
/// registry, serializes the parameters, plans the four-region layout,
/// checks the stack and heap buffers out of the pool and encodes the
/// synthetic jump. Every failure is reported exactly once and leaves the
/// pool untouched; nothing is retried.
pub fn prepare_invocation<T: InvokeSerialize>(
    exec: &ExecutableInfo,
    function_name: &str,
    params: &T,
    heap_size: usize,
    pool: &mut BufferPool,
) -> (result: Result<InvocationPlan, InvokeError>)
    ensures
        prepare_result(
            *exec,
            symbol_hash(function_name.spec_bytes()),
            params.encoding(),
            heap_size,
            old(pool).buffers(),
            final(pool).buffers(),
            result,
        ),
{
    let target_pc = match resolve_function(&exec.registry, function_name) {
        Ok(pc) => pc,
        Err(e) => {
            return Err(e);
        },
    };
    if target_pc >= OFFSET_FIELD_LIMIT {
        return Err(InvokeError::TargetOutOfRange);
    }
    let serialized = match serialize_params(params) {
        Some(s) => s,
        None => {
            return Err(InvokeError::RegionTooLarge);
        },
    };
    let (param_bytes, _input_region) = serialized;
    let layout = match plan_memory_layout(
        exec.ro_region_len,
        exec.stack_size,
        heap_size,
        param_bytes.len(),
    ) {
        Ok(l) => l,
        Err(e) => {
            return Err(e);
        },
    };
    let entry_instruction = encode_jump_instruction(target_pc);
    let stack_buffer = pool.checkout(exec.stack_size);
    let ghost mid = pool.buffers();
    let heap_buffer = pool.checkout(heap_size);
    proof {
        assert(checkout_spec(old(pool).buffers(), mid, stack_buffer@, exec.stack_size as nat));
        assert(checkout_spec(mid, pool.buffers(), heap_buffer@, heap_size as nat));
    }
    Ok(
        InvocationPlan {
            target_pc,
            param_bytes,
            stack_buffer,
            heap_buffer,
            layout,
            entry_instruction,
        },
    )
}

/// The register file after the direct-call patch: the first argument
/// register holds the input region's base, the frame pointer the top of the
/// fresh stack, and the entry slot the synthetic jump to the target.
pub open spec fn patched_registers(registers: Seq<u64>, stack_pointer: u64, target_pc: u64) -> Seq<
    u64,
> {
    registers.update(FIRST_ARG_REG as int, MM_INPUT_START).update(
        FRAME_PTR_REG as int,
        stack_pointer,
    ).update(ENTRY_SLOT as int, spec_jump_instruction(target_pc))
}

/// The direct-call patch touches exactly three slots: it leaves the
/// first-argument register at the input region's base, the frame pointer at
/// the given stack top and the entry slot holding a word whose offset field
/// decodes back to the resolved target; every other register keeps its
/// value.
pub proof fn lemma_patch_reaches_target(registers: Seq<u64>, stack_pointer: u64, target_pc: u64)
    requires
        registers.len() == REGISTER_COUNT,
        target_pc < OFFSET_FIELD_LIMIT,
    ensures
        patched_registers(registers, stack_pointer, target_pc)[FIRST_ARG_REG as int]
            == MM_INPUT_START,
        patched_registers(registers, stack_pointer, target_pc)[FRAME_PTR_REG as int]
            == stack_pointer,
        spec_offset_field(patched_registers(registers, stack_pointer, target_pc)[ENTRY_SLOT as int])
            == target_pc,
        (forall|k: int|
            0 <= k < registers.len() && k != FIRST_ARG_REG && k != FRAME_PTR_REG && k != ENTRY_SLOT
                ==> patched_registers(registers, stack_pointer, target_pc)[k] == registers[k]),
{
    crate::insn::lemma_jump_offset_round_trip(target_pc);
}

/// Applies the direct-call patch to the VM's register file, in place: it
/// emulates the state the interpreter would see had it just decoded a call
/// of the target function.
pub fn patch_registers(registers: &mut Vec<u64>, stack_pointer: u64, target_pc: u64)
    requires
        old(registers)@.len() == REGISTER_COUNT,
        target_pc < OFFSET_FIELD_LIMIT,
    ensures
        final(registers)@ == patched_registers(old(registers)@, stack_pointer, target_pc),
{
    registers[FIRST_ARG_REG] = MM_INPUT_START;
    registers[FRAME_PTR_REG] = stack_pointer;
    registers[ENTRY_SLOT] = encode_jump_instruction(target_pc);
    proof {
        assert(registers@ =~= patched_registers(old(registers)@, stack_pointer, target_pc));
    }
}

} // verus!
