//! Encoding of the synthetic jump instruction.
//!
//! To start execution at an arbitrary exported function, the driver places a
//! hand-encoded unconditional relative jump in the register slot the
//! interpreter reads first. The 64-bit word is packed, most significant bit
//! first, as: a 3-bit instruction class, a 5-bit operation code, a 4-bit
//! destination register, a 4-bit source register, a 16-bit signed offset and
//! a 32-bit immediate.

use vstd::prelude::*;

verus! {

/// Instruction class of the synthetic jump (top 3 bits of the word).
pub const JUMP_INSTRUCTION_CLASS: u64 = 0b000;

/// Operation code of the unconditional relative jump (the 5 bits below the
/// instruction class).
pub const JUMP_OPERATION_CODE: u64 = 0b00101;

/// Largest value the 16-bit offset field can carry, plus one. A target
/// program counter at or above this bound cannot be encoded.
pub const OFFSET_FIELD_LIMIT: u64 = 0x10000;

/// The packed 64-bit instruction word for the given field values.
pub open spec fn spec_pack_instruction(
    class: u64,
    op: u64,
    dst: u64,
    src: u64,
    offset: u64,
    imm: u64,
) -> u64 {
    (class << 61) | (op << 56) | (dst << 52) | (src << 48) | (offset << 32) | imm
}

/// The 3-bit instruction class field of a packed word.
pub open spec fn spec_class_field(word: u64) -> u64 {
    word >> 61
}

/// The 5-bit operation code field of a packed word.
pub open spec fn spec_opcode_field(word: u64) -> u64 {
    (word >> 56) & 0x1F
}

/// The 4-bit destination register field of a packed word.
pub open spec fn spec_dst_field(word: u64) -> u64 {
    (word >> 52) & 0xF
}

/// The 4-bit source register field of a packed word.
pub open spec fn spec_src_field(word: u64) -> u64 {
    (word >> 48) & 0xF
}

/// The 16-bit offset field of a packed word.
pub open spec fn spec_offset_field(word: u64) -> u64 {
    (word >> 32) & 0xFFFF
}

/// The 32-bit immediate field of a packed word.
pub open spec fn spec_immediate_field(word: u64) -> u64 {
    word & 0xFFFF_FFFF
}

/// The synthetic unconditional jump whose offset field carries the given
/// target program counter; every other field is zero but the operation code.
pub open spec fn spec_jump_instruction(target_pc: u64) -> u64 {
    spec_pack_instruction(
        JUMP_INSTRUCTION_CLASS,
        JUMP_OPERATION_CODE,
        0,
        0,
        target_pc,
        0,
    )
}

/// Packing is lossless: every field of the packed word decodes back to the
/// value it was packed from, for all in-range field values.
pub proof fn lemma_pack_round_trip(class: u64, op: u64, dst: u64, src: u64, offset: u64, imm: u64)
    requires
        class < 8,
        op < 32,
        dst < 16,
        src < 16,
        offset < OFFSET_FIELD_LIMIT,
        imm < 0x100000000,
    ensures
        spec_class_field(spec_pack_instruction(class, op, dst, src, offset, imm)) == class,
        spec_opcode_field(spec_pack_instruction(class, op, dst, src, offset, imm)) == op,
        spec_dst_field(spec_pack_instruction(class, op, dst, src, offset, imm)) == dst,
        spec_src_field(spec_pack_instruction(class, op, dst, src, offset, imm)) == src,
        spec_offset_field(spec_pack_instruction(class, op, dst, src, offset, imm)) == offset,
        spec_immediate_field(spec_pack_instruction(class, op, dst, src, offset, imm)) == imm,
{
    assert(spec_class_field(spec_pack_instruction(class, op, dst, src, offset, imm)) == class
        && spec_opcode_field(spec_pack_instruction(class, op, dst, src, offset, imm)) == op
        && spec_dst_field(spec_pack_instruction(class, op, dst, src, offset, imm)) == dst
        && spec_src_field(spec_pack_instruction(class, op, dst, src, offset, imm)) == src
        && spec_offset_field(spec_pack_instruction(class, op, dst, src, offset, imm)) == offset
        && spec_immediate_field(spec_pack_instruction(class, op, dst, src, offset, imm)) == imm)
        by (bit_vector)
        requires
            class < 8,
            op < 32,
            dst < 16,
            src < 16,
            offset < 0x10000,
            imm < 0x100000000,
    ;
}

/// The offset field of the synthetic jump decodes to exactly the target
/// program counter it was encoded from, for every encodable target.
pub proof fn lemma_jump_offset_round_trip(target_pc: u64)
    requires
        target_pc < OFFSET_FIELD_LIMIT,
    ensures
        spec_offset_field(spec_jump_instruction(target_pc)) == target_pc,
        spec_opcode_field(spec_jump_instruction(target_pc)) == JUMP_OPERATION_CODE,
        spec_class_field(spec_jump_instruction(target_pc)) == JUMP_INSTRUCTION_CLASS,
{
    lemma_pack_round_trip(
        JUMP_INSTRUCTION_CLASS,
        JUMP_OPERATION_CODE,
        0,
        0,
        target_pc,
        0,
    );
}

/// Packs the instruction fields into one 64-bit word.
pub fn pack_instruction(class: u64, op: u64, dst: u64, src: u64, offset: u64, imm: u64) -> (word:
    u64)
    requires
        class < 8,
        op < 32,
        dst < 16,
        src < 16,
        offset < OFFSET_FIELD_LIMIT,
        imm < 0x100000000,
    ensures
        word == spec_pack_instruction(class, op, dst, src, offset, imm),
{
    (class << 61) | (op << 56) | (dst << 52) | (src << 48) | (offset << 32) | imm
}

/// Encodes the synthetic unconditional jump to the given target program
/// counter. The offset field of the result decodes back to the target.
pub fn encode_jump_instruction(target_pc: u64) -> (word: u64)
    requires
        target_pc < OFFSET_FIELD_LIMIT,
    ensures
        word == spec_jump_instruction(target_pc),
        spec_offset_field(word) == target_pc,
{
    proof {
        lemma_jump_offset_round_trip(target_pc);
    }
    pack_instruction(
        JUMP_INSTRUCTION_CLASS,
        JUMP_OPERATION_CODE,
        0,
        0,
        target_pc,
        0,
    )
}

/// Reads the 16-bit offset field back out of a packed instruction word.
pub fn decode_offset_field(word: u64) -> (offset: u64)
    ensures
        offset == spec_offset_field(word),
{
    (word >> 32) & 0xFFFF
}

/// Reads the 5-bit operation code field back out of a packed word.
pub fn decode_opcode_field(word: u64) -> (op: u64)
    ensures
        op == spec_opcode_field(word),
{
    (word >> 56) & 0x1F
}

} // verus!
