//! The register and opcode catalogs and the instruction model.

use crate::layout::{in_i26, pattern16};
use vstd::prelude::*;

verus! {

/// One of the sixteen architectural registers.
///
/// Every 4-bit pattern names a register: `index` and `from_u8` are inverse
/// bijections between the registers and `0..16`.
#[derive(Clone, Copy, Debug, PartialEq, Eq, Structural)]
pub enum Register {
    R0,
    R1,
    R2,
    R3,
    R4,
    R5,
    R6,
    R7,
    R8,
    R9,
    R10,
    R11,
    R12,
    R13,
    R14,
    R15,
}

impl Register {
    /// The 4-bit index of the register.
    pub open spec fn spec_index(self) -> u8 {
        match self {
            Register::R0 => 0,
            Register::R1 => 1,
            Register::R2 => 2,
            Register::R3 => 3,
            Register::R4 => 4,
            Register::R5 => 5,
            Register::R6 => 6,
            Register::R7 => 7,
            Register::R8 => 8,
            Register::R9 => 9,
            Register::R10 => 10,
            Register::R11 => 11,
            Register::R12 => 12,
            Register::R13 => 13,
            Register::R14 => 14,
            Register::R15 => 15,
        }
    }

    /// The register with the given index, if the index is below 16.
    pub open spec fn spec_from_u8(value: u8) -> Option<Register> {
        match value {
            0 => Some(Register::R0),
            1 => Some(Register::R1),
            2 => Some(Register::R2),
            3 => Some(Register::R3),
            4 => Some(Register::R4),
            5 => Some(Register::R5),
            6 => Some(Register::R6),
            7 => Some(Register::R7),
            8 => Some(Register::R8),
            9 => Some(Register::R9),
            10 => Some(Register::R10),
            11 => Some(Register::R11),
            12 => Some(Register::R12),
            13 => Some(Register::R13),
            14 => Some(Register::R14),
            15 => Some(Register::R15),
            _ => None,
        }
    }

    /// `index` and `from_u8` are inverse to each other, between the registers
    /// and the indices below 16.
    pub proof fn lemma_index_bijection(reg: Register, value: u8)
        ensures
            reg.spec_index() < 16,
            Register::spec_from_u8(reg.spec_index()) == Some(reg),
            Register::spec_from_u8(value) is Some <==> value < 16,
            Register::spec_from_u8(value) matches Some(r) ==> r.spec_index() == value,
    {
    }

    #[verifier::when_used_as_spec(spec_index)]
    pub fn index(self) -> (idx: u8)
        ensures
            idx == self.spec_index(),
            idx < 16,
            Register::spec_from_u8(idx) == Some(self),
    {
        match self {
            Register::R0 => 0,
            Register::R1 => 1,
            Register::R2 => 2,
            Register::R3 => 3,
            Register::R4 => 4,
            Register::R5 => 5,
            Register::R6 => 6,
            Register::R7 => 7,
            Register::R8 => 8,
            Register::R9 => 9,
            Register::R10 => 10,
            Register::R11 => 11,
            Register::R12 => 12,
            Register::R13 => 13,
            Register::R14 => 14,
            Register::R15 => 15,
        }
    }

    #[verifier::when_used_as_spec(spec_from_u8)]
    pub fn from_u8(value: u8) -> (reg: Option<Register>)
        ensures
            reg == Register::spec_from_u8(value),
            reg is Some <==> value < 16,
            reg matches Some(r) ==> r.spec_index() == value,
    {
        match value {
            0 => Some(Register::R0),
            1 => Some(Register::R1),
            2 => Some(Register::R2),
            3 => Some(Register::R3),
            4 => Some(Register::R4),
            5 => Some(Register::R5),
            6 => Some(Register::R6),
            7 => Some(Register::R7),
            8 => Some(Register::R8),
            9 => Some(Register::R9),
            10 => Some(Register::R10),
            11 => Some(Register::R11),
            12 => Some(Register::R12),
            13 => Some(Register::R13),
            14 => Some(Register::R14),
            15 => Some(Register::R15),
            _ => None,
        }
    }
}

/// One of the eleven primary opcodes, the values `0x00..=0x0A` of the 6-bit
/// opcode field. The other 53 values of the field are reserved.
#[derive(Clone, Copy, Debug, PartialEq, Eq, Structural)]
pub enum Opcode {
    RType,
    Addi,
    Ld,
    St,
    Beq,
    Bne,
    Blt,
    Bge,
    Jal,
    Jmp,
    Ecall,
}

impl Opcode {
    /// The 6-bit value of the opcode.
    pub open spec fn spec_value(self) -> u8 {
        match self {
            Opcode::RType => 0x00,
            Opcode::Addi => 0x01,
            Opcode::Ld => 0x02,
            Opcode::St => 0x03,
            Opcode::Beq => 0x04,
            Opcode::Bne => 0x05,
            Opcode::Blt => 0x06,
            Opcode::Bge => 0x07,
            Opcode::Jal => 0x08,
            Opcode::Jmp => 0x09,
            Opcode::Ecall => 0x0A,
        }
    }

    /// The opcode with the given value, if the value is not reserved.
    pub open spec fn spec_from_u8(value: u8) -> Option<Opcode> {
        match value {
            0x00 => Some(Opcode::RType),
            0x01 => Some(Opcode::Addi),
            0x02 => Some(Opcode::Ld),
            0x03 => Some(Opcode::St),
            0x04 => Some(Opcode::Beq),
            0x05 => Some(Opcode::Bne),
            0x06 => Some(Opcode::Blt),
            0x07 => Some(Opcode::Bge),
            0x08 => Some(Opcode::Jal),
            0x09 => Some(Opcode::Jmp),
            0x0A => Some(Opcode::Ecall),
            _ => None,
        }
    }

    /// `value` and `from_u8` are inverse to each other, between the opcodes
    /// and the values up to `0x0A`.
    pub proof fn lemma_value_bijection(opcode: Opcode, value: u8)
        ensures
            opcode.spec_value() <= 0x0A,
            Opcode::spec_from_u8(opcode.spec_value()) == Some(opcode),
            Opcode::spec_from_u8(value) is Some <==> value <= 0x0A,
            Opcode::spec_from_u8(value) matches Some(op) ==> op.spec_value() == value,
    {
    }

    #[verifier::when_used_as_spec(spec_value)]
    pub fn value(self) -> (v: u8)
        ensures
            v == self.spec_value(),
            v <= 0x0A,
            Opcode::spec_from_u8(v) == Some(self),
    {
        match self {
            Opcode::RType => 0x00,
            Opcode::Addi => 0x01,
            Opcode::Ld => 0x02,
            Opcode::St => 0x03,
            Opcode::Beq => 0x04,
            Opcode::Bne => 0x05,
            Opcode::Blt => 0x06,
            Opcode::Bge => 0x07,
            Opcode::Jal => 0x08,
            Opcode::Jmp => 0x09,
            Opcode::Ecall => 0x0A,
        }
    }

    #[verifier::when_used_as_spec(spec_from_u8)]
    pub fn from_u8(value: u8) -> (opcode: Option<Opcode>)
        ensures
            opcode == Opcode::spec_from_u8(value),
            opcode is Some <==> value <= 0x0A,
            opcode matches Some(op) ==> op.spec_value() == value,
    {
        match value {
            0x00 => Some(Opcode::RType),
            0x01 => Some(Opcode::Addi),
            0x02 => Some(Opcode::Ld),
            0x03 => Some(Opcode::St),
            0x04 => Some(Opcode::Beq),
            0x05 => Some(Opcode::Bne),
            0x06 => Some(Opcode::Blt),
            0x07 => Some(Opcode::Bge),
            0x08 => Some(Opcode::Jal),
            0x09 => Some(Opcode::Jmp),
            0x0A => Some(Opcode::Ecall),
            _ => None,
        }
    }
}

/// A machine instruction, one of seventeen forms in three shapes.
///
/// The register-register forms name a destination and two sources. The
/// register-immediate forms carry a signed 16-bit immediate or offset beside
/// their registers. The two jumps carry a signed 26-bit offset, held in an
/// `i32`: see [`Instr::wf`].
#[derive(Clone, Copy, Debug, PartialEq, Eq, Structural)]
#[allow(inconsistent_fields)]
pub enum Instr {
    Add { rd: Register, rs1: Register, rs2: Register },
    Sub { rd: Register, rs1: Register, rs2: Register },
    And { rd: Register, rs1: Register, rs2: Register },
    Or { rd: Register, rs1: Register, rs2: Register },
    Xor { rd: Register, rs1: Register, rs2: Register },
    Shl { rd: Register, rs1: Register, rs2: Register },
    Shr { rd: Register, rs1: Register, rs2: Register },
    Addi { rd: Register, rs1: Register, imm: i16 },
    Ld { rd: Register, base: Register, offset: i16 },
    St { rs: Register, base: Register, offset: i16 },
    Beq { rs1: Register, rs2: Register, offset: i16 },
    Bne { rs1: Register, rs2: Register, offset: i16 },
    Blt { rs1: Register, rs2: Register, offset: i16 },
    Bge { rs1: Register, rs2: Register, offset: i16 },
    Jal { offset: i32 },
    Jmp { offset: i32 },
    Ecall { imm: i16 },
}

impl Instr {
    /// Every field is in range: the offset of a jump lies in the signed
    /// 26-bit range. The other fields are in range by their types.
    pub open spec fn wf(self) -> bool {
        match self {
            Instr::Jal { offset } => in_i26(offset as int),
            Instr::Jmp { offset } => in_i26(offset as int),
            _ => true,
        }
    }

    /// Whether the word layout can hold the instruction.
    ///
    /// In the register-immediate shape the rs2 slot and the immediate share
    /// two bits of the word: the two low bits of the slot are the two top bits
    /// of the immediate. A branch fits if its second source and its offset
    /// agree on them. The other forms of that shape leave the slot zero, so
    /// they fit if the immediate lies in `0..0x4000`. Every instruction of the
    /// other two shapes fits.
    pub open spec fn representable(self) -> bool {
        match self {
            Instr::Addi { imm, .. } => 0 <= imm < 0x4000,
            Instr::Ld { offset, .. } => 0 <= offset < 0x4000,
            Instr::St { offset, .. } => 0 <= offset < 0x4000,
            Instr::Ecall { imm } => 0 <= imm < 0x4000,
            Instr::Beq { rs2, offset, .. } => rs2.index() % 4 == pattern16(offset) / 0x4000,
            Instr::Bne { rs2, offset, .. } => rs2.index() % 4 == pattern16(offset) / 0x4000,
            Instr::Blt { rs2, offset, .. } => rs2.index() % 4 == pattern16(offset) / 0x4000,
            Instr::Bge { rs2, offset, .. } => rs2.index() % 4 == pattern16(offset) / 0x4000,
            _ => true,
        }
    }

    /// The immediate or offset that the instruction carries, if its form has
    /// one.
    pub open spec fn immediate(self) -> Option<int> {
        match self {
            Instr::Addi { imm, .. } => Some(imm as int),
            Instr::Ld { offset, .. } => Some(offset as int),
            Instr::St { offset, .. } => Some(offset as int),
            Instr::Beq { offset, .. } => Some(offset as int),
            Instr::Bne { offset, .. } => Some(offset as int),
            Instr::Blt { offset, .. } => Some(offset as int),
            Instr::Bge { offset, .. } => Some(offset as int),
            Instr::Jal { offset } => Some(offset as int),
            Instr::Jmp { offset } => Some(offset as int),
            Instr::Ecall { imm } => Some(imm as int),
            _ => None,
        }
    }

    /// Tests [`Instr::wf`].
    pub fn is_wf(&self) -> (ok: bool)
        ensures
            ok == self.wf(),
    {
        match *self {
            Instr::Jal { offset } => fits_i26(offset),
            Instr::Jmp { offset } => fits_i26(offset),
            _ => true,
        }
    }
}

/// Whether `value` lies in the signed 26-bit range, `-2^25 ..= 2^25 - 1`.
pub fn fits_i26(value: i32) -> (ok: bool)
    ensures
        ok == in_i26(value as int),
{
    let limit: i32 = 1 << 25;
    assert(limit == 0x200_0000) by (bit_vector)
        requires
            limit == 1i32 << 25,
    ;
    value >= -limit && value < limit
}

} // verus!
