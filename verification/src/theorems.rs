//! What holds of the encoder and the decoder together.

use crate::encoding::{
    decode_spec, denotes_instruction, encode_spec, imm16_at, imm26_at, offending_slot, reg_at,
    reserved_field, sign_extends, spec_encode_i, spec_encode_j, spec_encode_r, DecodeError,
    FUNCT_ADD, FUNCT_AND, FUNCT_OR, FUNCT_SHL, FUNCT_SHR, FUNCT_SUB, FUNCT_XOR,
};
use crate::instr::{Instr, Opcode, Register};
use crate::layout::{
    funct_field, imm16_field, imm26_field, in_i26, lemma_field_bounds, lemma_fields_of_pack_funct,
    lemma_fields_of_pack_imm, lemma_fields_of_pack_jump, lemma_pack_of_fields, lemma_shared_bits,
    lemma_signed16_pattern16, lemma_signed26_pattern26, opcode_field, pattern16, pattern26,
    reg_field, RD_SHIFT, RS1_SHIFT, RS2_SHIFT,
};
use vstd::prelude::*;

verus! {

/// The fields of the word of a register-register instruction.
proof fn lemma_word_r(rd: Register, rs1: Register, rs2: Register, funct: u16)
    requires
        funct < 0x4000,
    ensures
        opcode_field(spec_encode_r(rd, rs1, rs2, funct)) == Opcode::RType.value(),
        reg_at(spec_encode_r(rd, rs1, rs2, funct), RD_SHIFT) == rd,
        reg_at(spec_encode_r(rd, rs1, rs2, funct), RS1_SHIFT) == rs1,
        reg_at(spec_encode_r(rd, rs1, rs2, funct), RS2_SHIFT) == rs2,
        funct_field(spec_encode_r(rd, rs1, rs2, funct)) == funct,
{
    lemma_fields_of_pack_funct(Opcode::RType.value(), rd.index(), rs1.index(), rs2.index(), funct);
}

/// The fields of the word of a register-immediate instruction.
proof fn lemma_word_i(opcode: Opcode, rd: Register, rs1: Register, rs2: Register, imm: i16)
    ensures
        opcode_field(spec_encode_i(opcode, rd, rs1, rs2, imm)) == opcode.value(),
        reg_field(spec_encode_i(opcode, rd, rs1, rs2, imm), RD_SHIFT) == rd.index(),
        reg_at(spec_encode_i(opcode, rd, rs1, rs2, imm), RD_SHIFT) == rd,
        reg_field(spec_encode_i(opcode, rd, rs1, rs2, imm), RS1_SHIFT) == rs1.index(),
        reg_at(spec_encode_i(opcode, rd, rs1, rs2, imm), RS1_SHIFT) == rs1,
        rs2 == Register::R0 ==> reg_field(spec_encode_i(opcode, rd, rs1, rs2, imm), RS2_SHIFT)
            == pattern16(imm) / 0x4000,
        rs2.index() % 4 == pattern16(imm) / 0x4000 ==> reg_at(
            spec_encode_i(opcode, rd, rs1, rs2, imm),
            RS2_SHIFT,
        ) == rs2 && imm16_at(spec_encode_i(opcode, rd, rs1, rs2, imm)) == imm,
        rs2.index() % 4 != pattern16(imm) / 0x4000 ==> reg_at(
            spec_encode_i(opcode, rd, rs1, rs2, imm),
            RS2_SHIFT,
        ) != rs2 || imm16_at(spec_encode_i(opcode, rd, rs1, rs2, imm)) != imm,
{
    let word = spec_encode_i(opcode, rd, rs1, rs2, imm);
    lemma_fields_of_pack_imm(
        opcode.value(),
        rd.index(),
        rs1.index(),
        rs2.index(),
        pattern16(imm),
    );
    lemma_field_bounds(word);
    lemma_signed16_pattern16(imm16_field(word), imm);
    Register::lemma_index_bijection(rs2, reg_field(word, RS2_SHIFT));
}

/// The fields of the word of a jump.
proof fn lemma_word_j(opcode: Opcode, offset: i32)
    requires
        in_i26(offset as int),
    ensures
        opcode_field(spec_encode_j(opcode, offset)) == opcode.value(),
        imm26_at(spec_encode_j(opcode, offset)) == offset,
{
    lemma_signed26_pattern26(0, offset);
    lemma_fields_of_pack_jump(opcode.value(), pattern26(offset));
}

/// Round trip: an instruction that the layout can hold decodes back from its
/// word.
pub proof fn theorem_round_trip(instr: Instr)
    requires
        instr.wf(),
        instr.representable(),
    ensures
        decode_spec(encode_spec(instr)) == Ok::<Instr, DecodeError>(instr),
{
    match instr {
        Instr::Add { rd, rs1, rs2 } => lemma_word_r(rd, rs1, rs2, FUNCT_ADD),
        Instr::Sub { rd, rs1, rs2 } => lemma_word_r(rd, rs1, rs2, FUNCT_SUB),
        Instr::And { rd, rs1, rs2 } => lemma_word_r(rd, rs1, rs2, FUNCT_AND),
        Instr::Or { rd, rs1, rs2 } => lemma_word_r(rd, rs1, rs2, FUNCT_OR),
        Instr::Xor { rd, rs1, rs2 } => lemma_word_r(rd, rs1, rs2, FUNCT_XOR),
        Instr::Shl { rd, rs1, rs2 } => lemma_word_r(rd, rs1, rs2, FUNCT_SHL),
        Instr::Shr { rd, rs1, rs2 } => lemma_word_r(rd, rs1, rs2, FUNCT_SHR),
        Instr::Addi { rd, rs1, imm } => lemma_word_i(Opcode::Addi, rd, rs1, Register::R0, imm),
        Instr::Ld { rd, base, offset } => lemma_word_i(Opcode::Ld, rd, base, Register::R0, offset),
        Instr::St { rs, base, offset } => lemma_word_i(Opcode::St, rs, base, Register::R0, offset),
        Instr::Beq { rs1, rs2, offset } => lemma_word_i(
            Opcode::Beq,
            Register::R0,
            rs1,
            rs2,
            offset,
        ),
        Instr::Bne { rs1, rs2, offset } => lemma_word_i(
            Opcode::Bne,
            Register::R0,
            rs1,
            rs2,
            offset,
        ),
        Instr::Blt { rs1, rs2, offset } => lemma_word_i(
            Opcode::Blt,
            Register::R0,
            rs1,
            rs2,
            offset,
        ),
        Instr::Bge { rs1, rs2, offset } => lemma_word_i(
            Opcode::Bge,
            Register::R0,
            rs1,
            rs2,
            offset,
        ),
        Instr::Jal { offset } => lemma_word_j(Opcode::Jal, offset),
        Instr::Jmp { offset } => lemma_word_j(Opcode::Jmp, offset),
        Instr::Ecall { imm } => lemma_word_i(
            Opcode::Ecall,
            Register::R0,
            Register::R0,
            Register::R0,
            imm,
        ),
    }
}

/// The round trip holds of no other instruction: the word of an instruction
/// that the layout cannot hold does not decode back to it. For a branch the
/// word denotes another branch. For the other forms the word is rejected,
/// since the two top bits of the immediate's pattern stand in the rs2 slot.
pub proof fn theorem_round_trip_needs_representable(instr: Instr)
    requires
        instr.wf(),
        !instr.representable(),
    ensures
        decode_spec(encode_spec(instr)) != Ok::<Instr, DecodeError>(instr),
        instr is Beq || instr is Bne || instr is Blt || instr is Bge || {
            &&& instr.immediate() matches Some(imm)
            &&& reg_field(encode_spec(instr), RS2_SHIFT) == pattern16(imm as i16) / 0x4000
            &&& decode_spec(encode_spec(instr)) == Err::<Instr, DecodeError>(
                reserved_field("rs2", encode_spec(instr), RS2_SHIFT),
            )
        },
{
    match instr {
        Instr::Addi { rd, rs1, imm } => lemma_word_i(Opcode::Addi, rd, rs1, Register::R0, imm),
        Instr::Ld { rd, base, offset } => lemma_word_i(Opcode::Ld, rd, base, Register::R0, offset),
        Instr::St { rs, base, offset } => lemma_word_i(Opcode::St, rs, base, Register::R0, offset),
        Instr::Beq { rs1, rs2, offset } => lemma_word_i(
            Opcode::Beq,
            Register::R0,
            rs1,
            rs2,
            offset,
        ),
        Instr::Bne { rs1, rs2, offset } => lemma_word_i(
            Opcode::Bne,
            Register::R0,
            rs1,
            rs2,
            offset,
        ),
        Instr::Blt { rs1, rs2, offset } => lemma_word_i(
            Opcode::Blt,
            Register::R0,
            rs1,
            rs2,
            offset,
        ),
        Instr::Bge { rs1, rs2, offset } => lemma_word_i(
            Opcode::Bge,
            Register::R0,
            rs1,
            rs2,
            offset,
        ),
        Instr::Ecall { imm } => lemma_word_i(
            Opcode::Ecall,
            Register::R0,
            Register::R0,
            Register::R0,
            imm,
        ),
        _ => {},
    }
}

/// Canonical encoding: a word that decodes is the word of the instruction it
/// decodes to, and that instruction is in range and fits the layout.
pub proof fn theorem_decode_is_canonical(word: u32, instr: Instr)
    requires
        decode_spec(word) == Ok::<Instr, DecodeError>(instr),
    ensures
        instr.wf(),
        instr.representable(),
        encode_spec(instr) == word,
{
    lemma_field_bounds(word);
    lemma_shared_bits(word);
    lemma_pack_of_fields(word);
    lemma_signed16_pattern16(imm16_field(word), 0);
    lemma_signed26_pattern26(imm26_field(word), 0);
    Opcode::lemma_value_bijection(Opcode::RType, opcode_field(word));
    Register::lemma_index_bijection(Register::R0, reg_field(word, RD_SHIFT));
    Register::lemma_index_bijection(Register::R0, reg_field(word, RS1_SHIFT));
    Register::lemma_index_bijection(Register::R0, reg_field(word, RS2_SHIFT));
}

/// No two words decode to the same instruction.
pub proof fn theorem_decode_is_injective(word1: u32, word2: u32)
    requires
        decode_spec(word1) is Ok,
        decode_spec(word1) == decode_spec(word2),
    ensures
        word1 == word2,
{
    let instr = decode_spec(word1)->Ok_0;
    theorem_decode_is_canonical(word1, instr);
    theorem_decode_is_canonical(word2, instr);
}

/// A word is rejected for its opcode exactly when the opcode field holds a
/// reserved value, `0x0B..=0x3F`, and the error carries that value.
pub proof fn theorem_reserved_opcode(word: u32)
    ensures
        opcode_field(word) > 0x0A ==> decode_spec(word) == Err::<Instr, DecodeError>(
            DecodeError::ReservedOpcode(opcode_field(word)),
        ),
        decode_spec(word) matches Err(DecodeError::ReservedOpcode(_)) ==> opcode_field(word) > 0x0A,
{
    Opcode::lemma_value_bijection(Opcode::RType, opcode_field(word));
}

/// A word with the register-register opcode is rejected for its function
/// code exactly when the code is outside `0x0001..=0x0007`, and the error
/// carries the code. No word with another opcode gives that error.
pub proof fn theorem_reserved_funct(word: u32)
    ensures
        opcode_field(word) == 0x00 && !(FUNCT_ADD <= funct_field(word) <= FUNCT_SHR)
            ==> decode_spec(word) == Err::<Instr, DecodeError>(
            DecodeError::ReservedFunct(funct_field(word)),
        ),
        decode_spec(word) matches Err(DecodeError::ReservedFunct(_)) ==> opcode_field(word) == 0x00
            && !(FUNCT_ADD <= funct_field(word) <= FUNCT_SHR),
{
    Opcode::lemma_value_bijection(Opcode::RType, opcode_field(word));
}

/// A word is rejected for a reserved field exactly when a register slot that
/// its opcode leaves unused is not zero, and the error names that slot and
/// carries its value.
pub proof fn theorem_reserved_field(word: u32)
    ensures
        offending_slot(word) matches Some((field, shift)) ==> decode_spec(word) == Err::<
            Instr,
            DecodeError,
        >(DecodeError::ReservedField { field, value: reg_field(word, shift) as u32 }),
        offending_slot(word) is None ==> !(decode_spec(word) matches Err(
            DecodeError::ReservedField { .. },
        )),
{
    Opcode::lemma_value_bijection(Opcode::RType, opcode_field(word));
}

/// A word decodes exactly when its opcode is not reserved, its function code
/// is in use if it has the register-register opcode, and every register slot
/// that its opcode leaves unused is zero.
pub proof fn theorem_decode_succeeds(word: u32)
    ensures
        decode_spec(word) is Ok <==> denotes_instruction(word),
{
    Opcode::lemma_value_bijection(Opcode::RType, opcode_field(word));
}

/// No word is rejected for an invalid register: every 4-bit index names one.
pub proof fn theorem_no_invalid_register(word: u32)
    ensures
        !(decode_spec(word) matches Err(DecodeError::InvalidRegister { .. })),
{
}

/// Sign extension: the immediate of a decoded instruction is the number that
/// the low bits of the word denote in two's complement, sixteen bits for the
/// register-immediate forms and twenty-six for the jumps. So a 16-bit field
/// of all ones gives -1, and a 26-bit field with only its top bit set gives
/// the least offset, -2^25.
pub proof fn theorem_sign_extension(word: u32, instr: Instr)
    requires
        decode_spec(word) == Ok::<Instr, DecodeError>(instr),
    ensures
        sign_extends(word, instr),
        instr.immediate() is Some <==> opcode_field(word) != 0x00,
        instr is Jal || instr is Jmp <==> 0x08 <= opcode_field(word) <= 0x09,
        instr.immediate() is Some && !(instr is Jal || instr is Jmp) && imm16_field(word) == 0xFFFF
            ==> instr.immediate() == Some(-1int),
        (instr is Jal || instr is Jmp) && imm26_field(word) == 0x200_0000 ==> instr.immediate()
            == Some(-0x200_0000int),
{
    lemma_field_bounds(word);
    lemma_signed16_pattern16(imm16_field(word), 0);
    lemma_signed26_pattern26(imm26_field(word), 0);
    Opcode::lemma_value_bijection(Opcode::RType, opcode_field(word));
}

} // verus!
