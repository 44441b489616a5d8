use isa_codec::{fits_i26, Instr, Opcode, Register};

const REGISTERS: [Register; 16] = [
    Register::R0,
    Register::R1,
    Register::R2,
    Register::R3,
    Register::R4,
    Register::R5,
    Register::R6,
    Register::R7,
    Register::R8,
    Register::R9,
    Register::R10,
    Register::R11,
    Register::R12,
    Register::R13,
    Register::R14,
    Register::R15,
];

const OPCODES: [Opcode; 11] = [
    Opcode::RType,
    Opcode::Addi,
    Opcode::Ld,
    Opcode::St,
    Opcode::Beq,
    Opcode::Bne,
    Opcode::Blt,
    Opcode::Bge,
    Opcode::Jal,
    Opcode::Jmp,
    Opcode::Ecall,
];

#[test]
fn register_index_and_from_u8_are_inverse() {
    for (i, reg) in REGISTERS.iter().enumerate() {
        assert_eq!(reg.index() as usize, i);
        assert_eq!(Register::from_u8(i as u8), Some(*reg));
    }
    for value in 0_u8..16 {
        let reg = Register::from_u8(value).expect("every 4-bit index names a register");
        assert_eq!(reg.index(), value);
    }
}

#[test]
fn register_from_u8_rejects_sixteen_and_above() {
    for value in 16_u8..=255 {
        assert_eq!(Register::from_u8(value), None);
    }
}

#[test]
fn opcode_value_and_from_u8_are_inverse() {
    for (i, opcode) in OPCODES.iter().enumerate() {
        assert_eq!(opcode.value() as usize, i);
        assert_eq!(Opcode::from_u8(i as u8), Some(*opcode));
    }
    assert_eq!(Opcode::RType.value(), 0x00);
    assert_eq!(Opcode::Jal.value(), 0x08);
    assert_eq!(Opcode::Ecall.value(), 0x0A);
}

#[test]
fn opcode_from_u8_rejects_reserved_values() {
    let mut rejected = 0;
    for value in 0_u8..64 {
        if Opcode::from_u8(value).is_none() {
            assert!(value >= 0x0B);
            rejected += 1;
        }
    }
    assert_eq!(rejected, 53);
    for value in 64_u8..=255 {
        assert_eq!(Opcode::from_u8(value), None);
    }
}

#[test]
fn fits_i26_has_the_signed_26_bit_bounds() {
    assert!(fits_i26(0));
    assert!(fits_i26(-1));
    assert!(fits_i26((1 << 25) - 1));
    assert!(fits_i26(-(1 << 25)));
    assert!(!fits_i26(1 << 25));
    assert!(!fits_i26(-(1 << 25) - 1));
    assert!(!fits_i26(i32::MAX));
    assert!(!fits_i26(i32::MIN));
}

#[test]
fn only_jumps_can_be_out_of_range() {
    assert!(Instr::Jal { offset: 33_554_431 }.is_wf());
    assert!(!Instr::Jal { offset: 33_554_432 }.is_wf());
    assert!(Instr::Jmp { offset: -33_554_432 }.is_wf());
    assert!(!Instr::Jmp { offset: -33_554_433 }.is_wf());
    assert!(Instr::Addi { rd: Register::R1, rs1: Register::R2, imm: i16::MIN }.is_wf());
    assert!(Instr::Add { rd: Register::R1, rs1: Register::R2, rs2: Register::R3 }.is_wf());
    assert!(Instr::Ecall { imm: i16::MAX }.is_wf());
}
