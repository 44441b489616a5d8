//! The bit layout of an instruction word.
//!
//! Bit 31 is the most significant bit. Every word carries its primary opcode
//! in bits [31:26]. The rest of the word has one of three shapes:
//!
//! - register-register: rd in [25:22], rs1 in [21:18], rs2 in [17:14] and a
//!   function code in [13:0];
//! - register-immediate: the same three register slots, and a 16-bit two's
//!   complement immediate in [15:0];
//! - jump: a 26-bit two's complement offset in [25:0].
//!
//! In the register-immediate shape the rs2 slot and the immediate share bits
//! 15 and 14 of the word, and a word holds the bitwise OR of the two. The
//! lemmas below say what that means for the fields that are read back.

use vstd::prelude::*;

verus! {

pub const OPCODE_SHIFT: u32 = 26;

pub const OPCODE_MASK: u32 = 0x3F;

pub const RD_SHIFT: u32 = 22;

pub const RS1_SHIFT: u32 = 18;

pub const RS2_SHIFT: u32 = 14;

pub const REG_MASK: u32 = 0x0F;

pub const FUNCT_MASK: u32 = 0x3FFF;

pub const IMM16_MASK: u32 = 0xFFFF;

pub const IMM26_MASK: u32 = 0x03FF_FFFF;

/// Bits [31:26] of a word.
pub open spec fn opcode_field(word: u32) -> u8 {
    ((word >> OPCODE_SHIFT) & OPCODE_MASK) as u8
}

/// The four bits of a word that start at bit `shift`.
pub open spec fn reg_field(word: u32, shift: u32) -> u8 {
    ((word >> shift) & REG_MASK) as u8
}

/// Bits [13:0] of a word.
pub open spec fn funct_field(word: u32) -> u16 {
    (word & FUNCT_MASK) as u16
}

/// Bits [15:0] of a word.
pub open spec fn imm16_field(word: u32) -> u16 {
    (word & IMM16_MASK) as u16
}

/// Bits [25:0] of a word.
pub open spec fn imm26_field(word: u32) -> u32 {
    word & IMM26_MASK
}

/// The number that a 16-bit pattern denotes in two's complement.
pub open spec fn signed16(raw: u16) -> int {
    if raw < 0x8000 {
        raw as int
    } else {
        raw - 0x1_0000
    }
}

/// The number that a 26-bit pattern denotes in two's complement.
pub open spec fn signed26(raw: u32) -> int
    recommends
        raw <= IMM26_MASK,
{
    if raw < 0x200_0000 {
        raw as int
    } else {
        raw - 0x400_0000
    }
}

/// The 16-bit two's complement pattern of a number.
pub open spec fn pattern16(imm: i16) -> u16 {
    if imm < 0 {
        (imm + 0x1_0000) as u16
    } else {
        imm as u16
    }
}

/// Whether a number lies in the signed 26-bit range.
pub open spec fn in_i26(value: int) -> bool {
    -0x200_0000 <= value < 0x200_0000
}

/// The 26-bit two's complement pattern of a number in the signed 26-bit range.
pub open spec fn pattern26(offset: i32) -> u32
    recommends
        in_i26(offset as int),
{
    if offset < 0 {
        (offset + 0x400_0000) as u32
    } else {
        offset as u32
    }
}

/// A word with the given opcode and register slots, OR-ed with `low`.
pub open spec fn pack(opcode: u8, rd: u8, rs1: u8, rs2: u8, low: u32) -> u32 {
    ((opcode as u32) << OPCODE_SHIFT) | ((rd as u32) << RD_SHIFT) | ((rs1 as u32) << RS1_SHIFT) | ((
    rs2 as u32) << RS2_SHIFT) | low
}

/// A word with the given opcode, OR-ed with `low`.
pub open spec fn pack_jump(opcode: u8, low: u32) -> u32 {
    ((opcode as u32) << OPCODE_SHIFT) | low
}

/// Every field of a word is below the bound that its width gives.
pub proof fn lemma_field_bounds(word: u32)
    by (bit_vector)
    ensures
        opcode_field(word) < 64,
        reg_field(word, RD_SHIFT) < 16,
        reg_field(word, RS1_SHIFT) < 16,
        reg_field(word, RS2_SHIFT) < 16,
        funct_field(word) < 0x4000,
        imm26_field(word) <= IMM26_MASK,
{
}

/// The two low bits of the rs2 slot are the two top bits of the 16-bit
/// immediate field.
pub proof fn lemma_shared_bits(word: u32)
    by (bit_vector)
    ensures
        (reg_field(word, RS2_SHIFT) % 4u8) as u16 == imm16_field(word) / 0x4000u16,
{
}

/// A word is the OR of its opcode, its register slots and its low bits, in
/// each of the three shapes.
pub proof fn lemma_pack_of_fields(word: u32)
    by (bit_vector)
    ensures
        word == pack(
            opcode_field(word),
            reg_field(word, RD_SHIFT),
            reg_field(word, RS1_SHIFT),
            reg_field(word, RS2_SHIFT),
            funct_field(word) as u32,
        ),
        word == pack(
            opcode_field(word),
            reg_field(word, RD_SHIFT),
            reg_field(word, RS1_SHIFT),
            reg_field(word, RS2_SHIFT),
            imm16_field(word) as u32,
        ),
        word == pack_jump(opcode_field(word), imm26_field(word)),
{
}

/// The fields of a register-register word are the values it was packed from.
pub proof fn lemma_fields_of_pack_funct(opcode: u8, rd: u8, rs1: u8, rs2: u8, funct: u16)
    by (bit_vector)
    requires
        opcode < 64,
        rd < 16,
        rs1 < 16,
        rs2 < 16,
        funct < 0x4000,
    ensures
        opcode_field(pack(opcode, rd, rs1, rs2, funct as u32)) == opcode,
        reg_field(pack(opcode, rd, rs1, rs2, funct as u32), RD_SHIFT) == rd,
        reg_field(pack(opcode, rd, rs1, rs2, funct as u32), RS1_SHIFT) == rs1,
        reg_field(pack(opcode, rd, rs1, rs2, funct as u32), RS2_SHIFT) == rs2,
        funct_field(pack(opcode, rd, rs1, rs2, funct as u32)) == funct,
{
}

/// The fields of a register-immediate word. The opcode and the first two
/// register slots are the values it was packed from. The rs2 slot also holds
/// the two top bits of the immediate, and the immediate field also holds the
/// two low bits of the rs2 slot.
pub proof fn lemma_fields_of_pack_imm(opcode: u8, rd: u8, rs1: u8, rs2: u8, imm: u16)
    by (bit_vector)
    requires
        opcode < 64,
        rd < 16,
        rs1 < 16,
        rs2 < 16,
    ensures
        opcode_field(pack(opcode, rd, rs1, rs2, imm as u32)) == opcode,
        reg_field(pack(opcode, rd, rs1, rs2, imm as u32), RD_SHIFT) == rd,
        reg_field(pack(opcode, rd, rs1, rs2, imm as u32), RS1_SHIFT) == rs1,
        reg_field(pack(opcode, rd, rs1, rs2, imm as u32), RS2_SHIFT) == rs2 | ((imm >> 14) as u8),
        imm16_field(pack(opcode, rd, rs1, rs2, imm as u32)) == imm | (((rs2 & 3) as u16) << 14),
        rs2 == 0 ==> reg_field(pack(opcode, rd, rs1, rs2, imm as u32), RS2_SHIFT) == (imm
            / 0x4000u16) as u8,
        (rs2 % 4u8) as u16 == imm / 0x4000u16 ==> reg_field(
            pack(opcode, rd, rs1, rs2, imm as u32),
            RS2_SHIFT,
        ) == rs2 && imm16_field(pack(opcode, rd, rs1, rs2, imm as u32)) == imm,
        (rs2 % 4u8) as u16 != imm / 0x4000u16 ==> reg_field(
            pack(opcode, rd, rs1, rs2, imm as u32),
            RS2_SHIFT,
        ) != rs2 || imm16_field(pack(opcode, rd, rs1, rs2, imm as u32)) != imm,
{
}

/// The fields of a jump word are the values it was packed from.
pub proof fn lemma_fields_of_pack_jump(opcode: u8, low: u32)
    by (bit_vector)
    requires
        opcode < 64,
        low <= IMM26_MASK,
    ensures
        opcode_field(pack_jump(opcode, low)) == opcode,
        imm26_field(pack_jump(opcode, low)) == low,
{
}

/// Reading a 16-bit pattern as a number and writing the number's pattern are
/// inverse to each other.
pub proof fn lemma_signed16_pattern16(raw: u16, imm: i16)
    by (bit_vector)
    ensures
        -0x8000 <= signed16(raw) < 0x8000,
        pattern16(signed16(raw) as i16) == raw,
        signed16(pattern16(imm)) == imm,
{
}

/// Reading a 26-bit pattern as a number and writing the number's pattern are
/// inverse to each other.
pub proof fn lemma_signed26_pattern26(raw: u32, offset: i32)
    by (bit_vector)
    ensures
        raw <= IMM26_MASK ==> in_i26(signed26(raw)),
        raw <= IMM26_MASK ==> pattern26(signed26(raw) as i32) == raw,
        in_i26(offset as int) ==> pattern26(offset) <= IMM26_MASK,
        in_i26(offset as int) ==> signed26(pattern26(offset)) == offset,
{
}

} // verus!
