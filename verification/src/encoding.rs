//! The encoder and the decoder.
//!
//! Primary opcodes, bits [31:26]:
//! `0x00` register-register, `0x01` ADDI, `0x02` LD, `0x03` ST, `0x04` BEQ,
//! `0x05` BNE, `0x06` BLT, `0x07` BGE, `0x08` JAL, `0x09` JMP, `0x0A` ECALL.
//!
//! Function codes of the register-register shape, bits [13:0]:
//! `0x0001` ADD, `0x0002` SUB, `0x0003` AND, `0x0004` OR, `0x0005` XOR,
//! `0x0006` SHL, `0x0007` SHR.

use crate::instr::{Instr, Opcode, Register};
use crate::layout::{
    funct_field, imm16_field, imm26_field, in_i26, opcode_field, pack, pack_jump, pattern16,
    pattern26, reg_field, signed16, signed26, FUNCT_MASK, IMM16_MASK, IMM26_MASK, OPCODE_MASK,
    OPCODE_SHIFT, RD_SHIFT, REG_MASK, RS1_SHIFT, RS2_SHIFT,
};
use crate::theorems::{
    theorem_decode_is_canonical, theorem_decode_succeeds, theorem_reserved_field,
    theorem_reserved_funct, theorem_reserved_opcode, theorem_round_trip, theorem_sign_extension,
};
use vstd::prelude::*;

verus! {

pub const FUNCT_ADD: u16 = 0x0001;

pub const FUNCT_SUB: u16 = 0x0002;

pub const FUNCT_AND: u16 = 0x0003;

pub const FUNCT_OR: u16 = 0x0004;

pub const FUNCT_XOR: u16 = 0x0005;

pub const FUNCT_SHL: u16 = 0x0006;

pub const FUNCT_SHR: u16 = 0x0007;

/// Why a word denotes no instruction.
#[derive(Clone, Copy, Debug, PartialEq, Eq)]
#[allow(inconsistent_fields)]
pub enum DecodeError {
    /// The 6-bit primary opcode is one of the reserved values.
    ReservedOpcode(u8),
    /// The 14-bit function code of a register-register word is not in use.
    ReservedFunct(u16),
    /// A register slot that the instruction form leaves unused is not zero.
    ReservedField { field: &'static str, value: u32 },
    /// A register slot holds an index that names no register. No word gives
    /// this error while every 4-bit index names a register.
    InvalidRegister { field: &'static str, value: u8 },
}

/// The word of a register-register instruction.
pub open spec fn spec_encode_r(rd: Register, rs1: Register, rs2: Register, funct: u16) -> u32 {
    pack(Opcode::RType.value(), rd.index(), rs1.index(), rs2.index(), funct as u32)
}

/// The word of a register-immediate instruction: the pattern of the immediate
/// is OR-ed into the low sixteen bits.
pub open spec fn spec_encode_i(
    opcode: Opcode,
    rd: Register,
    rs1: Register,
    rs2: Register,
    imm: i16,
) -> u32 {
    pack(opcode.value(), rd.index(), rs1.index(), rs2.index(), pattern16(imm) as u32)
}

/// The word of a jump.
pub open spec fn spec_encode_j(opcode: Opcode, offset: i32) -> u32
    recommends
        in_i26(offset as int),
{
    pack_jump(opcode.value(), pattern26(offset))
}

/// The word that denotes an instruction.
pub open spec fn encode_spec(instr: Instr) -> u32
    recommends
        instr.wf(),
{
    match instr {
        Instr::Add { rd, rs1, rs2 } => spec_encode_r(rd, rs1, rs2, FUNCT_ADD),
        Instr::Sub { rd, rs1, rs2 } => spec_encode_r(rd, rs1, rs2, FUNCT_SUB),
        Instr::And { rd, rs1, rs2 } => spec_encode_r(rd, rs1, rs2, FUNCT_AND),
        Instr::Or { rd, rs1, rs2 } => spec_encode_r(rd, rs1, rs2, FUNCT_OR),
        Instr::Xor { rd, rs1, rs2 } => spec_encode_r(rd, rs1, rs2, FUNCT_XOR),
        Instr::Shl { rd, rs1, rs2 } => spec_encode_r(rd, rs1, rs2, FUNCT_SHL),
        Instr::Shr { rd, rs1, rs2 } => spec_encode_r(rd, rs1, rs2, FUNCT_SHR),
        Instr::Addi { rd, rs1, imm } => spec_encode_i(Opcode::Addi, rd, rs1, Register::R0, imm),
        Instr::Ld { rd, base, offset } => spec_encode_i(Opcode::Ld, rd, base, Register::R0, offset),
        Instr::St { rs, base, offset } => spec_encode_i(Opcode::St, rs, base, Register::R0, offset),
        Instr::Beq { rs1, rs2, offset } => spec_encode_i(
            Opcode::Beq,
            Register::R0,
            rs1,
            rs2,
            offset,
        ),
        Instr::Bne { rs1, rs2, offset } => spec_encode_i(
            Opcode::Bne,
            Register::R0,
            rs1,
            rs2,
            offset,
        ),
        Instr::Blt { rs1, rs2, offset } => spec_encode_i(
            Opcode::Blt,
            Register::R0,
            rs1,
            rs2,
            offset,
        ),
        Instr::Bge { rs1, rs2, offset } => spec_encode_i(
            Opcode::Bge,
            Register::R0,
            rs1,
            rs2,
            offset,
        ),
        Instr::Jal { offset } => spec_encode_j(Opcode::Jal, offset),
        Instr::Jmp { offset } => spec_encode_j(Opcode::Jmp, offset),
        Instr::Ecall { imm } => spec_encode_i(
            Opcode::Ecall,
            Register::R0,
            Register::R0,
            Register::R0,
            imm,
        ),
    }
}

/// The register that the slot at `shift` names.
pub open spec fn reg_at(word: u32, shift: u32) -> Register {
    Register::spec_from_u8(reg_field(word, shift)).unwrap()
}

/// The signed immediate in the low sixteen bits of a word.
pub open spec fn imm16_at(word: u32) -> i16 {
    signed16(imm16_field(word)) as i16
}

/// The signed offset in the low twenty-six bits of a word.
pub open spec fn imm26_at(word: u32) -> i32 {
    signed26(imm26_field(word)) as i32
}

/// The error for a slot that should be zero and is not.
pub open spec fn reserved_field(field: &'static str, word: u32, shift: u32) -> DecodeError {
    DecodeError::ReservedField { field, value: reg_field(word, shift) as u32 }
}

/// What a word with the register-register opcode denotes.
pub open spec fn spec_decode_r(word: u32) -> Result<Instr, DecodeError> {
    let rd = reg_at(word, RD_SHIFT);
    let rs1 = reg_at(word, RS1_SHIFT);
    let rs2 = reg_at(word, RS2_SHIFT);
    let funct = funct_field(word);
    if funct == FUNCT_ADD {
        Ok(Instr::Add { rd, rs1, rs2 })
    } else if funct == FUNCT_SUB {
        Ok(Instr::Sub { rd, rs1, rs2 })
    } else if funct == FUNCT_AND {
        Ok(Instr::And { rd, rs1, rs2 })
    } else if funct == FUNCT_OR {
        Ok(Instr::Or { rd, rs1, rs2 })
    } else if funct == FUNCT_XOR {
        Ok(Instr::Xor { rd, rs1, rs2 })
    } else if funct == FUNCT_SHL {
        Ok(Instr::Shl { rd, rs1, rs2 })
    } else if funct == FUNCT_SHR {
        Ok(Instr::Shr { rd, rs1, rs2 })
    } else {
        Err(DecodeError::ReservedFunct(funct))
    }
}

/// What a word with the ADDI opcode denotes: the rs2 slot must be zero.
pub open spec fn spec_decode_i_addi(word: u32) -> Result<Instr, DecodeError> {
    if reg_field(word, RS2_SHIFT) != 0 {
        Err(reserved_field("rs2", word, RS2_SHIFT))
    } else {
        Ok(
            Instr::Addi {
                rd: reg_at(word, RD_SHIFT),
                rs1: reg_at(word, RS1_SHIFT),
                imm: imm16_at(word),
            },
        )
    }
}

/// What a word with the LD opcode denotes: the rs2 slot must be zero.
pub open spec fn spec_decode_i_ld(word: u32) -> Result<Instr, DecodeError> {
    if reg_field(word, RS2_SHIFT) != 0 {
        Err(reserved_field("rs2", word, RS2_SHIFT))
    } else {
        Ok(
            Instr::Ld {
                rd: reg_at(word, RD_SHIFT),
                base: reg_at(word, RS1_SHIFT),
                offset: imm16_at(word),
            },
        )
    }
}

/// What a word with the ST opcode denotes: the rd slot holds the register to
/// store, and the rs2 slot must be zero.
pub open spec fn spec_decode_i_st(word: u32) -> Result<Instr, DecodeError> {
    if reg_field(word, RS2_SHIFT) != 0 {
        Err(reserved_field("rs2", word, RS2_SHIFT))
    } else {
        Ok(
            Instr::St {
                rs: reg_at(word, RD_SHIFT),
                base: reg_at(word, RS1_SHIFT),
                offset: imm16_at(word),
            },
        )
    }
}

/// What a word denotes when it is read as the branch `opcode`: the rd slot
/// must be zero.
pub open spec fn spec_decode_i_branch(word: u32, opcode: Opcode) -> Result<Instr, DecodeError> {
    let rs1 = reg_at(word, RS1_SHIFT);
    let rs2 = reg_at(word, RS2_SHIFT);
    let offset = imm16_at(word);
    if reg_field(word, RD_SHIFT) != 0 {
        Err(reserved_field("rd", word, RD_SHIFT))
    } else {
        match opcode {
            Opcode::Beq => Ok(Instr::Beq { rs1, rs2, offset }),
            Opcode::Bne => Ok(Instr::Bne { rs1, rs2, offset }),
            Opcode::Blt => Ok(Instr::Blt { rs1, rs2, offset }),
            Opcode::Bge => Ok(Instr::Bge { rs1, rs2, offset }),
            _ => Err(DecodeError::ReservedOpcode(opcode.value())),
        }
    }
}

/// What a word denotes when it is read as the jump `opcode`.
pub open spec fn spec_decode_j(word: u32, opcode: Opcode) -> Result<Instr, DecodeError> {
    match opcode {
        Opcode::Jal => Ok(Instr::Jal { offset: imm26_at(word) }),
        Opcode::Jmp => Ok(Instr::Jmp { offset: imm26_at(word) }),
        _ => Err(DecodeError::ReservedOpcode(opcode.value())),
    }
}

/// What a word with the ECALL opcode denotes: all three register slots must
/// be zero, and the first that is not is reported.
pub open spec fn spec_decode_i_ecall(word: u32) -> Result<Instr, DecodeError> {
    if reg_field(word, RD_SHIFT) != 0 {
        Err(reserved_field("rd", word, RD_SHIFT))
    } else if reg_field(word, RS1_SHIFT) != 0 {
        Err(reserved_field("rs1", word, RS1_SHIFT))
    } else if reg_field(word, RS2_SHIFT) != 0 {
        Err(reserved_field("rs2", word, RS2_SHIFT))
    } else {
        Ok(Instr::Ecall { imm: imm16_at(word) })
    }
}

/// The instruction that a word denotes, or why it denotes none.
pub open spec fn decode_spec(word: u32) -> Result<Instr, DecodeError> {
    match Opcode::spec_from_u8(opcode_field(word)) {
        None => Err(DecodeError::ReservedOpcode(opcode_field(word))),
        Some(Opcode::RType) => spec_decode_r(word),
        Some(Opcode::Addi) => spec_decode_i_addi(word),
        Some(Opcode::Ld) => spec_decode_i_ld(word),
        Some(Opcode::St) => spec_decode_i_st(word),
        Some(Opcode::Beq) => spec_decode_i_branch(word, Opcode::Beq),
        Some(Opcode::Bne) => spec_decode_i_branch(word, Opcode::Bne),
        Some(Opcode::Blt) => spec_decode_i_branch(word, Opcode::Blt),
        Some(Opcode::Bge) => spec_decode_i_branch(word, Opcode::Bge),
        Some(Opcode::Jal) => spec_decode_j(word, Opcode::Jal),
        Some(Opcode::Jmp) => spec_decode_j(word, Opcode::Jmp),
        Some(Opcode::Ecall) => spec_decode_i_ecall(word),
    }
}

/// The register slot that a word's opcode leaves unused and that is not
/// zero, if there is one: the rs2 slot for ADDI, LD and ST, the rd slot for
/// the branches, and the first of rd, rs1 and rs2 for ECALL. The result names
/// the slot and gives the bit at which it starts.
pub open spec fn offending_slot(word: u32) -> Option<(&'static str, u32)> {
    let opcode = opcode_field(word);
    if 0x01 <= opcode <= 0x03 {
        if reg_field(word, RS2_SHIFT) != 0 {
            Some(("rs2", RS2_SHIFT))
        } else {
            None
        }
    } else if 0x04 <= opcode <= 0x07 {
        if reg_field(word, RD_SHIFT) != 0 {
            Some(("rd", RD_SHIFT))
        } else {
            None
        }
    } else if opcode == 0x0A {
        if reg_field(word, RD_SHIFT) != 0 {
            Some(("rd", RD_SHIFT))
        } else if reg_field(word, RS1_SHIFT) != 0 {
            Some(("rs1", RS1_SHIFT))
        } else if reg_field(word, RS2_SHIFT) != 0 {
            Some(("rs2", RS2_SHIFT))
        } else {
            None
        }
    } else {
        None
    }
}

/// Whether the immediate of `instr`, if its form has one, is the number that
/// the low bits of `word` denote in two's complement: the low twenty-six bits
/// for a jump, the low sixteen for the other forms.
pub open spec fn sign_extends(word: u32, instr: Instr) -> bool {
    match instr.immediate() {
        None => true,
        Some(imm) => if instr is Jal || instr is Jmp {
            imm == signed26(imm26_field(word))
        } else {
            imm == signed16(imm16_field(word))
        },
    }
}

/// Whether a word denotes an instruction: its opcode is not reserved, its
/// function code is in use if it has the register-register opcode, and every
/// register slot that its opcode leaves unused is zero.
pub open spec fn denotes_instruction(word: u32) -> bool {
    &&& opcode_field(word) <= 0x0A
    &&& opcode_field(word) == 0x00 ==> FUNCT_ADD <= funct_field(word) <= FUNCT_SHR
    &&& offending_slot(word) is None
}

/// Encodes an instruction as its 32-bit word.
///
/// The opcode of the form goes to bits [31:26]. A register-register form puts
/// its registers in the three slots and its function code in bits [13:0]. A
/// register-immediate form puts its registers in their slots, the zero
/// register in the slots it does not use, and ORs the two's complement
/// pattern of its immediate into bits [15:0]. A jump puts the 26-bit pattern
/// of its offset in bits [25:0].
///
/// The word decodes back to the instruction if the layout can hold the
/// instruction.
pub fn encode(instr: &Instr) -> (word: u32)
    requires
        instr.wf(),
    ensures
        word == encode_spec(*instr),
        instr.representable() ==> decode_spec(word) == Ok::<Instr, DecodeError>(*instr),
{
    proof {
        if instr.representable() {
            theorem_round_trip(*instr);
        }
    }
    match *instr {
        Instr::Add { rd, rs1, rs2 } => encode_r(rd, rs1, rs2, FUNCT_ADD),
        Instr::Sub { rd, rs1, rs2 } => encode_r(rd, rs1, rs2, FUNCT_SUB),
        Instr::And { rd, rs1, rs2 } => encode_r(rd, rs1, rs2, FUNCT_AND),
        Instr::Or { rd, rs1, rs2 } => encode_r(rd, rs1, rs2, FUNCT_OR),
        Instr::Xor { rd, rs1, rs2 } => encode_r(rd, rs1, rs2, FUNCT_XOR),
        Instr::Shl { rd, rs1, rs2 } => encode_r(rd, rs1, rs2, FUNCT_SHL),
        Instr::Shr { rd, rs1, rs2 } => encode_r(rd, rs1, rs2, FUNCT_SHR),
        Instr::Addi { rd, rs1, imm } => encode_i(Opcode::Addi, rd, rs1, Register::R0, imm),
        Instr::Ld { rd, base, offset } => encode_i(Opcode::Ld, rd, base, Register::R0, offset),
        Instr::St { rs, base, offset } => encode_i(Opcode::St, rs, base, Register::R0, offset),
        Instr::Beq { rs1, rs2, offset } => encode_i(Opcode::Beq, Register::R0, rs1, rs2, offset),
        Instr::Bne { rs1, rs2, offset } => encode_i(Opcode::Bne, Register::R0, rs1, rs2, offset),
        Instr::Blt { rs1, rs2, offset } => encode_i(Opcode::Blt, Register::R0, rs1, rs2, offset),
        Instr::Bge { rs1, rs2, offset } => encode_i(Opcode::Bge, Register::R0, rs1, rs2, offset),
        Instr::Jal { offset } => encode_j(Opcode::Jal, offset),
        Instr::Jmp { offset } => encode_j(Opcode::Jmp, offset),
        Instr::Ecall { imm } => encode_i(
            Opcode::Ecall,
            Register::R0,
            Register::R0,
            Register::R0,
            imm,
        ),
    }
}

/// Decodes a 32-bit word as the instruction it denotes, or says why it
/// denotes none.
///
/// The word decodes if and only if it denotes an instruction, and then it is
/// the one word of that instruction. Otherwise the error is the first of:
/// a reserved opcode; a function code that is not in use; a register slot
/// that the opcode leaves unused and that is not zero.
pub fn decode(word: u32) -> (res: Result<Instr, DecodeError>)
    ensures
        res == decode_spec(word),
        res is Ok <==> denotes_instruction(word),
        res matches Ok(instr) ==> instr.wf() && instr.representable() && encode_spec(instr)
            == word,
        res matches Ok(instr) ==> sign_extends(word, instr),
        opcode_field(word) > 0x0A <==> res == Err::<Instr, DecodeError>(
            DecodeError::ReservedOpcode(opcode_field(word)),
        ),
        opcode_field(word) == 0x00 && !(FUNCT_ADD <= funct_field(word) <= FUNCT_SHR) <==> res
            == Err::<Instr, DecodeError>(DecodeError::ReservedFunct(funct_field(word))),
        offending_slot(word) matches Some((field, shift)) ==> res == Err::<Instr, DecodeError>(
            reserved_field(field, word, shift),
        ),
        res matches Err(DecodeError::ReservedField { .. }) ==> offending_slot(word) is Some,
        !(res matches Err(DecodeError::InvalidRegister { .. })),
{
    proof {
        theorem_decode_succeeds(word);
        theorem_reserved_opcode(word);
        theorem_reserved_funct(word);
        theorem_reserved_field(word);
        if decode_spec(word) is Ok {
            theorem_decode_is_canonical(word, decode_spec(word).unwrap());
            theorem_sign_extension(word, decode_spec(word).unwrap());
        }
    }
    let opcode_raw: u8 = ((word >> OPCODE_SHIFT) & OPCODE_MASK) as u8;
    let opcode = Opcode::from_u8(opcode_raw).ok_or(DecodeError::ReservedOpcode(opcode_raw))?;

    match opcode {
        Opcode::RType => decode_r(word),
        Opcode::Addi => decode_i_addi(word),
        Opcode::Ld => decode_i_ld(word),
        Opcode::St => decode_i_st(word),
        Opcode::Beq => decode_i_branch(word, Opcode::Beq),
        Opcode::Bne => decode_i_branch(word, Opcode::Bne),
        Opcode::Blt => decode_i_branch(word, Opcode::Blt),
        Opcode::Bge => decode_i_branch(word, Opcode::Bge),
        Opcode::Jal => decode_j(word, Opcode::Jal),
        Opcode::Jmp => decode_j(word, Opcode::Jmp),
        Opcode::Ecall => decode_i_ecall(word),
    }
}

fn encode_r(rd: Register, rs1: Register, rs2: Register, funct: u16) -> (word: u32)
    requires
        funct <= FUNCT_MASK,
    ensures
        word == spec_encode_r(rd, rs1, rs2, funct),
{
    let opcode: u32 = Opcode::RType.value() as u32;
    assert(funct as u32 & FUNCT_MASK == funct as u32) by (bit_vector)
        requires
            funct <= FUNCT_MASK,
    ;
    (opcode << OPCODE_SHIFT) | ((rd.index() as u32) << RD_SHIFT) | ((rs1.index() as u32)
        << RS1_SHIFT) | ((rs2.index() as u32) << RS2_SHIFT) | (funct as u32 & FUNCT_MASK)
}

fn encode_i(opcode: Opcode, rd: Register, rs1: Register, rs2: Register, imm: i16) -> (word: u32)
    ensures
        word == spec_encode_i(opcode, rd, rs1, rs2, imm),
{
    let opcode: u32 = opcode.value() as u32;
    let imm_bits: u32 = (imm as u16) as u32;
    assert(((imm as u16) as u32) & IMM16_MASK == pattern16(imm) as u32) by (bit_vector);
    (opcode << OPCODE_SHIFT) | ((rd.index() as u32) << RD_SHIFT) | ((rs1.index() as u32)
        << RS1_SHIFT) | ((rs2.index() as u32) << RS2_SHIFT) | (imm_bits & IMM16_MASK)
}

fn encode_j(opcode: Opcode, imm: i32) -> (word: u32)
    requires
        in_i26(imm as int),
    ensures
        word == spec_encode_j(opcode, imm),
{
    let opcode: u32 = opcode.value() as u32;
    let imm_bits: u32 = (imm as u32) & IMM26_MASK;
    assert((imm as u32) & IMM26_MASK == pattern26(imm)) by (bit_vector)
        requires
            in_i26(imm as int),
    ;
    (opcode << OPCODE_SHIFT) | imm_bits
}

fn decode_r(word: u32) -> (res: Result<Instr, DecodeError>)
    ensures
        res == spec_decode_r(word),
{
    let rd = decode_reg(word, RD_SHIFT, "rd")?;
    let rs1 = decode_reg(word, RS1_SHIFT, "rs1")?;
    let rs2 = decode_reg(word, RS2_SHIFT, "rs2")?;
    let funct: u16 = (word & FUNCT_MASK) as u16;

    match funct {
        FUNCT_ADD => Ok(Instr::Add { rd, rs1, rs2 }),
        FUNCT_SUB => Ok(Instr::Sub { rd, rs1, rs2 }),
        FUNCT_AND => Ok(Instr::And { rd, rs1, rs2 }),
        FUNCT_OR => Ok(Instr::Or { rd, rs1, rs2 }),
        FUNCT_XOR => Ok(Instr::Xor { rd, rs1, rs2 }),
        FUNCT_SHL => Ok(Instr::Shl { rd, rs1, rs2 }),
        FUNCT_SHR => Ok(Instr::Shr { rd, rs1, rs2 }),
        _ => Err(DecodeError::ReservedFunct(funct)),
    }
}

fn decode_i_addi(word: u32) -> (res: Result<Instr, DecodeError>)
    ensures
        res == spec_decode_i_addi(word),
{
    let rd = decode_reg(word, RD_SHIFT, "rd")?;
    let rs1 = decode_reg(word, RS1_SHIFT, "rs1")?;
    let rs2 = decode_reg(word, RS2_SHIFT, "rs2")?;
    require_zero("rs2", rs2.index() as u32)?;
    let imm: i16 = decode_imm16(word);
    Ok(Instr::Addi { rd, rs1, imm })
}

fn decode_i_ld(word: u32) -> (res: Result<Instr, DecodeError>)
    ensures
        res == spec_decode_i_ld(word),
{
    let rd = decode_reg(word, RD_SHIFT, "rd")?;
    let base = decode_reg(word, RS1_SHIFT, "rs1")?;
    let rs2 = decode_reg(word, RS2_SHIFT, "rs2")?;
    require_zero("rs2", rs2.index() as u32)?;
    let offset: i16 = decode_imm16(word);
    Ok(Instr::Ld { rd, base, offset })
}

fn decode_i_st(word: u32) -> (res: Result<Instr, DecodeError>)
    ensures
        res == spec_decode_i_st(word),
{
    let rs = decode_reg(word, RD_SHIFT, "rd")?;
    let base = decode_reg(word, RS1_SHIFT, "rs1")?;
    let rs2 = decode_reg(word, RS2_SHIFT, "rs2")?;
    require_zero("rs2", rs2.index() as u32)?;
    let offset: i16 = decode_imm16(word);
    Ok(Instr::St { rs, base, offset })
}

fn decode_i_branch(word: u32, opcode: Opcode) -> (res: Result<Instr, DecodeError>)
    ensures
        res == spec_decode_i_branch(word, opcode),
{
    let rd = decode_reg(word, RD_SHIFT, "rd")?;
    require_zero("rd", rd.index() as u32)?;
    let rs1 = decode_reg(word, RS1_SHIFT, "rs1")?;
    let rs2 = decode_reg(word, RS2_SHIFT, "rs2")?;
    let offset: i16 = decode_imm16(word);

    match opcode {
        Opcode::Beq => Ok(Instr::Beq { rs1, rs2, offset }),
        Opcode::Bne => Ok(Instr::Bne { rs1, rs2, offset }),
        Opcode::Blt => Ok(Instr::Blt { rs1, rs2, offset }),
        Opcode::Bge => Ok(Instr::Bge { rs1, rs2, offset }),
        _ => Err(DecodeError::ReservedOpcode(opcode.value())),
    }
}

fn decode_j(word: u32, opcode: Opcode) -> (res: Result<Instr, DecodeError>)
    ensures
        res == spec_decode_j(word, opcode),
{
    let imm: i32 = decode_imm26(word);
    match opcode {
        Opcode::Jal => Ok(Instr::Jal { offset: imm }),
        Opcode::Jmp => Ok(Instr::Jmp { offset: imm }),
        _ => Err(DecodeError::ReservedOpcode(opcode.value())),
    }
}

fn decode_i_ecall(word: u32) -> (res: Result<Instr, DecodeError>)
    ensures
        res == spec_decode_i_ecall(word),
{
    let rd = decode_reg(word, RD_SHIFT, "rd")?;
    let rs1 = decode_reg(word, RS1_SHIFT, "rs1")?;
    let rs2 = decode_reg(word, RS2_SHIFT, "rs2")?;
    require_zero("rd", rd.index() as u32)?;
    require_zero("rs1", rs1.index() as u32)?;
    require_zero("rs2", rs2.index() as u32)?;
    let imm: i16 = decode_imm16(word);
    Ok(Instr::Ecall { imm })
}

fn decode_reg(word: u32, shift: u32, field: &'static str) -> (res: Result<Register, DecodeError>)
    requires
        shift < 32,
    ensures
        res == Ok::<Register, DecodeError>(reg_at(word, shift)),
        res matches Ok(reg) && reg.index() == reg_field(word, shift),
{
    let raw: u8 = ((word >> shift) & REG_MASK) as u8;
    assert((word >> shift) & REG_MASK < 16) by (bit_vector);
    Register::from_u8(raw).ok_or(DecodeError::InvalidRegister { field, value: raw })
}

fn decode_imm16(word: u32) -> (imm: i16)
    ensures
        imm == imm16_at(word),
{
    let raw: u16 = (word & IMM16_MASK) as u16;
    assert(raw as i16 == signed16(raw)) by (bit_vector);
    raw as i16
}

fn decode_imm26(word: u32) -> (imm: i32)
    ensures
        imm == imm26_at(word),
        in_i26(imm as int),
{
    let raw: u32 = word & IMM26_MASK;
    assert(raw <= IMM26_MASK && ((raw << 6) as i32) >> 6 == signed26(raw) && in_i26(
        signed26(raw),
    )) by (bit_vector)
        requires
            raw == word & IMM26_MASK,
    ;
    ((raw << 6) as i32) >> 6
}

fn require_zero(field: &'static str, value: u32) -> (res: Result<(), DecodeError>)
    ensures
        value == 0 ==> res == Ok::<(), DecodeError>(()),
        value != 0 ==> res == Err::<(), DecodeError>(DecodeError::ReservedField { field, value }),
{
    if value == 0 {
        Ok(())
    } else {
        Err(DecodeError::ReservedField { field, value })
    }
}

} // verus!
