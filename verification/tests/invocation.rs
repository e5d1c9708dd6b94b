//! Tests of the invocation driver against the real external VM library:
//! the ABI constants, the loader's hashing scheme and the external
//! serializer are held against what the contracts state.

use solana_invoke::driver::{
    patch_registers, prepare_invocation, ExecutableInfo, InvocationPlan, ENTRY_SLOT,
    FIRST_ARG_REG, FRAME_PTR_REG, REGISTER_COUNT,
};
use solana_invoke::insn::{
    decode_offset_field, decode_opcode_field, encode_jump_instruction, pack_instruction,
    JUMP_OPERATION_CODE, OFFSET_FIELD_LIMIT,
};
use solana_invoke::layout::{
    plan_memory_layout, MM_HEAP_START, MM_INPUT_START, MM_PROGRAM_START, MM_STACK_START,
    REGION_WINDOW,
};
use solana_invoke::params::InvokeSerialize;
use solana_invoke::pool::BufferPool;
use solana_invoke::registry::{resolve_function, FunctionRegistry};
use solana_invoke::InvokeError;

#[test]
fn jump_encoding_round_trips() {
    let word = encode_jump_instruction(0x1234);
    assert_eq!(word, 0x0500_1234_0000_0000u64);
    assert_eq!(decode_offset_field(word), 0x1234);
    assert_eq!(decode_opcode_field(word), JUMP_OPERATION_CODE);
}

#[test]
fn pack_round_trips_every_field() {
    let word = pack_instruction(0b010, 0b00101, 3, 4, 0xBEEF, 0xDEAD_BEEF);
    assert_eq!(decode_offset_field(word), 0xBEEF);
    assert_eq!(decode_opcode_field(word), 0b00101);
    assert_eq!(word >> 61, 0b010);
    assert_eq!((word >> 52) & 0xF, 3);
    assert_eq!((word >> 48) & 0xF, 4);
    assert_eq!(word & 0xFFFF_FFFF, 0xDEAD_BEEF);
}

#[test]
fn abi_constants_match_the_vm() {
    assert_eq!(MM_PROGRAM_START, solana_rbpf::ebpf::MM_PROGRAM_START);
    assert_eq!(MM_STACK_START, solana_rbpf::ebpf::MM_STACK_START);
    assert_eq!(MM_HEAP_START, solana_rbpf::ebpf::MM_HEAP_START);
    assert_eq!(MM_INPUT_START, solana_rbpf::ebpf::MM_INPUT_START);
    assert_eq!(FRAME_PTR_REG, solana_rbpf::ebpf::FRAME_PTR_REG);
}

#[test]
fn resolution_finds_a_registered_function() {
    let mut registry = FunctionRegistry::new();
    let key = solana_rbpf::ebpf::hash_symbol_name(b"my_registered_function");
    assert!(registry.register(key, 42));
    assert_eq!(resolve_function(&registry, "my_registered_function"), Ok(42));
}

#[test]
fn resolution_of_a_missing_name_fails() {
    let mut registry = FunctionRegistry::new();
    let key = solana_rbpf::ebpf::hash_symbol_name(b"present");
    assert!(registry.register(key, 7));
    assert_eq!(
        resolve_function(&registry, "absent"),
        Err(InvokeError::FunctionNotFound)
    );
}

#[test]
fn duplicate_registration_is_refused() {
    let mut registry = FunctionRegistry::new();
    assert!(registry.register(9, 1));
    assert!(!registry.register(9, 2));
    assert_eq!(registry.len(), 1);
    assert_eq!(registry.lookup(9), Some(1));
}

#[test]
fn serialization_is_deterministic_and_sized() {
    let value: Vec<u8> = vec![1, 2, 3];
    let first = value.serialize();
    let second = value.serialize();
    assert_eq!(first, second);
    assert_eq!(first.len(), 8 + 3);
    assert_eq!(first, vec![3, 0, 0, 0, 0, 0, 0, 0, 1, 2, 3]);
}

#[test]
fn serialization_matches_the_external_encoder() {
    let value: Vec<u8> = vec![9, 8, 7, 6];
    assert_eq!(value.serialize(), bincode::serialize(&value).unwrap());
    assert_eq!(7u64.serialize(), bincode::serialize(&7u64).unwrap());
    assert_eq!(7u64.serialize(), vec![7, 0, 0, 0, 0, 0, 0, 0]);
    assert_eq!(().serialize(), bincode::serialize(&()).unwrap());
    assert!(().serialize().is_empty());
    let empty: Vec<u8> = Vec::new();
    assert_eq!(empty.serialize(), vec![0u8; 8]);
}

#[test]
fn planned_regions_are_pairwise_disjoint() {
    let layout = plan_memory_layout(1000, 4096, 65536, 32).unwrap();
    let regions = [layout.program, layout.stack, layout.heap, layout.input];
    assert_eq!(layout.program.base, MM_PROGRAM_START);
    assert_eq!(layout.stack.base, MM_STACK_START);
    assert_eq!(layout.stack.vm_span, 2 * 4096);
    assert_eq!(layout.heap.base, MM_HEAP_START);
    assert_eq!(layout.input.base, MM_INPUT_START);
    assert!(!layout.program.writable);
    for i in 0..4 {
        for j in 0..4 {
            if i != j {
                let a = regions[i];
                let b = regions[j];
                assert!(
                    a.base + a.vm_span <= b.base || b.base + b.vm_span <= a.base,
                    "regions {} and {} overlap",
                    i,
                    j
                );
            }
        }
    }
}

#[test]
fn an_oversized_region_is_refused() {
    let too_big = (REGION_WINDOW / 2 + 1) as usize;
    assert_eq!(
        plan_memory_layout(0, too_big, 0, 0),
        Err(InvokeError::RegionTooLarge)
    );
    let heap_too_big = (REGION_WINDOW + 1) as usize;
    assert_eq!(
        plan_memory_layout(0, 0, heap_too_big, 0),
        Err(InvokeError::RegionTooLarge)
    );
}

#[test]
fn pool_checkout_is_at_least_as_large_as_requested() {
    let mut pool = BufferPool::new();
    let fresh = pool.checkout(100);
    assert!(fresh.len() >= 100);
    assert_eq!(fresh, vec![0u8; 100]);
    pool.give_back(vec![1u8; 200]);
    let reused = pool.checkout(150);
    assert_eq!(reused.len(), 200);
    assert_eq!(pool.len(), 0);
    let allocated = pool.checkout(300);
    assert_eq!(allocated.len(), 300);
}

#[test]
fn preparing_a_direct_call_builds_the_full_plan() {
    let mut registry = FunctionRegistry::new();
    let key = solana_rbpf::ebpf::hash_symbol_name(b"my_registered_function");
    assert!(registry.register(key, 7));
    let exec = ExecutableInfo {
        registry,
        ro_region_len: 1000,
        stack_size: 4096,
        stack_frame_size: 4096,
    };
    let mut pool = BufferPool::new();
    let plan: InvocationPlan =
        prepare_invocation(&exec, "my_registered_function", &(), 65536, &mut pool).unwrap();
    assert_eq!(plan.target_pc, 7);
    assert_eq!(plan.entry_instruction, 0x0500_0007_0000_0000u64);
    assert_eq!(decode_offset_field(plan.entry_instruction), 7);
    assert!(plan.param_bytes.is_empty());
    assert!(plan.stack_buffer.len() >= 4096);
    assert!(plan.heap_buffer.len() >= 65536);
    assert_eq!(plan.layout.input.vm_span, 0);
    assert_eq!(plan.layout.stack.vm_span, 8192);
}

#[test]
fn preparing_an_unknown_function_fails_before_the_vm() {
    let registry = FunctionRegistry::new();
    let exec = ExecutableInfo {
        registry,
        ro_region_len: 1000,
        stack_size: 4096,
        stack_frame_size: 4096,
    };
    let mut pool = BufferPool::new();
    let result = prepare_invocation(&exec, "no_such_function", &(), 65536, &mut pool);
    assert_eq!(result.unwrap_err(), InvokeError::FunctionNotFound);
    assert_eq!(pool.len(), 0);
}

#[test]
fn an_unencodable_target_is_refused() {
    let mut registry = FunctionRegistry::new();
    let key = solana_rbpf::ebpf::hash_symbol_name(b"far_away");
    assert!(registry.register(key, OFFSET_FIELD_LIMIT));
    let exec = ExecutableInfo {
        registry,
        ro_region_len: 0,
        stack_size: 64,
        stack_frame_size: 64,
    };
    let mut pool = BufferPool::new();
    let result = prepare_invocation(&exec, "far_away", &(), 64, &mut pool);
    assert_eq!(result.unwrap_err(), InvokeError::TargetOutOfRange);
}

#[test]
fn the_register_patch_touches_exactly_three_slots() {
    let mut registers = vec![0u64; REGISTER_COUNT];
    patch_registers(&mut registers, 0x2000_1000, 7);
    assert_eq!(registers[FIRST_ARG_REG], MM_INPUT_START);
    assert_eq!(registers[FRAME_PTR_REG], 0x2000_1000);
    assert_eq!(registers[ENTRY_SLOT], 0x0500_0007_0000_0000u64);
    for (i, value) in registers.iter().enumerate() {
        if i != FIRST_ARG_REG && i != FRAME_PTR_REG && i != ENTRY_SLOT {
            assert_eq!(*value, 0);
        }
    }
}
