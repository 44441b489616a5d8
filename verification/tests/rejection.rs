use isa_codec::{decode, encode, DecodeError, Instr, Register};

#[test]
fn reserved_opcodes_are_rejected() {
    for opcode in 0x0B_u32..=0x3F {
        for low in [0_u32, 1, 0x0048_C001, 0x03FF_FFFF, 0x0200_0000] {
            let word = (opcode << 26) | low;
            assert_eq!(decode(word), Err(DecodeError::ReservedOpcode(opcode as u8)));
        }
    }
}

#[test]
fn defined_opcodes_are_not_reserved() {
    for opcode in 0x00_u32..=0x0A {
        for low in [0_u32, 1, 0x0048_C001, 0x03FF_FFFF, 0x0200_0000] {
            let word = (opcode << 26) | low;
            assert!(!matches!(decode(word), Err(DecodeError::ReservedOpcode(_))));
        }
    }
}

#[test]
fn reserved_function_codes_are_rejected() {
    let regs: u32 = (1 << 22) | (2 << 18) | (3 << 14);
    for funct in [0_u32, 8, 9, 0x0010, 0x1000, 0x2001, 0x3FFF] {
        assert_eq!(decode(regs | funct), Err(DecodeError::ReservedFunct(funct as u16)));
        assert_eq!(decode(funct), Err(DecodeError::ReservedFunct(funct as u16)));
    }
    for funct in 1_u32..=7 {
        assert!(decode(regs | funct).is_ok());
    }
}

#[test]
fn every_function_code_but_seven_is_reserved() {
    let mut accepted = 0;
    for funct in 0_u32..0x4000 {
        match decode((15 << 22) | funct) {
            Ok(_) => accepted += 1,
            Err(e) => assert_eq!(e, DecodeError::ReservedFunct(funct as u16)),
        }
    }
    assert_eq!(accepted, 7);
}

#[test]
fn nonzero_rs2_slot_is_rejected_for_addi_ld_st() {
    for opcode in [0x01_u32, 0x02, 0x03] {
        for slot in 1_u32..16 {
            // Slot values that are multiples of four leave the immediate's
            // two top bits clear.
            let word = (opcode << 26) | (1 << 22) | (2 << 18) | (slot << 14) | 5;
            assert_eq!(
                decode(word),
                Err(DecodeError::ReservedField { field: "rs2", value: slot })
            );
        }
        let word = (opcode << 26) | (1 << 22) | (2 << 18) | 5;
        assert!(decode(word).is_ok());
    }
}

#[test]
fn nonzero_rd_slot_is_rejected_for_branches() {
    for opcode in [0x04_u32, 0x05, 0x06, 0x07] {
        for slot in 1_u32..16 {
            let word = (opcode << 26) | (slot << 22) | (2 << 18) | (4 << 14) | 5;
            assert_eq!(
                decode(word),
                Err(DecodeError::ReservedField { field: "rd", value: slot })
            );
        }
        let word = (opcode << 26) | (2 << 18) | (4 << 14) | 5;
        assert!(decode(word).is_ok());
    }
}

#[test]
fn ecall_reports_the_first_nonzero_slot() {
    let op: u32 = 0x0A << 26;
    assert_eq!(decode(op | 7), Ok(Instr::Ecall { imm: 7 }));
    assert_eq!(
        decode(op | (3 << 22) | (5 << 18) | (6 << 14)),
        Err(DecodeError::ReservedField { field: "rd", value: 3 })
    );
    assert_eq!(
        decode(op | (5 << 18) | (6 << 14)),
        Err(DecodeError::ReservedField { field: "rs1", value: 5 })
    );
    assert_eq!(
        decode(op | (6 << 14)),
        Err(DecodeError::ReservedField { field: "rs2", value: 6 })
    );
    // Bit 14 is the low bit of the rs2 slot and bit 14 of the immediate.
    assert_eq!(
        decode(op | 0x4000),
        Err(DecodeError::ReservedField { field: "rs2", value: 1 })
    );
}

#[test]
fn immediate_outside_fourteen_bits_is_rejected_after_encoding() {
    let a = Register::R1;
    let b = Register::R2;
    for (imm, slot) in [(0x4000_i16, 1_u32), (0x7FFF, 1), (i16::MIN, 2), (-0x4001, 2), (-0x4000, 3), (-1, 3)] {
        let expected = Err(DecodeError::ReservedField { field: "rs2", value: slot });
        assert_eq!(decode(encode(&Instr::Addi { rd: a, rs1: b, imm })), expected);
        assert_eq!(decode(encode(&Instr::Ld { rd: a, base: b, offset: imm })), expected);
        assert_eq!(decode(encode(&Instr::St { rs: a, base: b, offset: imm })), expected);
        assert_eq!(decode(encode(&Instr::Ecall { imm })), expected);
    }
    for imm in [0_i16, 1, 0x3FFF] {
        let instr = Instr::Addi { rd: a, rs1: b, imm };
        assert_eq!(decode(encode(&instr)), Ok(instr));
        let instr = Instr::Ecall { imm };
        assert_eq!(decode(encode(&instr)), Ok(instr));
    }
}

#[test]
fn no_word_gives_invalid_register() {
    let mut word: u32 = 0x9E37_79B9;
    for _ in 0..200_000 {
        word = word.wrapping_mul(1_664_525).wrapping_add(1_013_904_223);
        assert!(!matches!(decode(word), Err(DecodeError::InvalidRegister { .. })));
    }
    for slots in 0_u32..(1 << 12) {
        for opcode in 0_u32..=0x0A {
            let word = (opcode << 26) | (slots << 14) | 1;
            assert!(!matches!(decode(word), Err(DecodeError::InvalidRegister { .. })));
        }
    }
}
