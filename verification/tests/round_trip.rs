use isa_codec::{decode, encode, Instr, Register};

fn reg(index: u8) -> Register {
    Register::from_u8(index).expect("index below 16")
}

fn pattern(imm: i16) -> u16 {
    imm as u16
}

const IMMEDIATES: [i16; 14] = [
    0, 1, 2, 0x1234, 0x3FFF, 0x4000, 0x4001, 0x7FFF, -1, -2, -0x4000, -0x4001, -0x7FFF, i16::MIN,
];

#[test]
fn every_register_register_instruction_round_trips() {
    for rd in 0..16 {
        for rs1 in 0..16 {
            for rs2 in 0..16 {
                let (rd, rs1, rs2) = (reg(rd), reg(rs1), reg(rs2));
                let all = [
                    Instr::Add { rd, rs1, rs2 },
                    Instr::Sub { rd, rs1, rs2 },
                    Instr::And { rd, rs1, rs2 },
                    Instr::Or { rd, rs1, rs2 },
                    Instr::Xor { rd, rs1, rs2 },
                    Instr::Shl { rd, rs1, rs2 },
                    Instr::Shr { rd, rs1, rs2 },
                ];
                for instr in all {
                    assert_eq!(decode(encode(&instr)), Ok(instr));
                }
            }
        }
    }
}

#[test]
fn zero_slot_forms_round_trip_exactly_below_0x4000() {
    for imm in i16::MIN..=i16::MAX {
        let fits = (0..0x4000).contains(&imm);
        let all = [
            Instr::Addi { rd: Register::R7, rs1: Register::R9, imm },
            Instr::Ld { rd: Register::R15, base: Register::R0, offset: imm },
            Instr::St { rs: Register::R1, base: Register::R14, offset: imm },
            Instr::Ecall { imm },
        ];
        for instr in all {
            assert_eq!(decode(encode(&instr)) == Ok(instr), fits);
        }
    }
}

#[test]
fn branches_round_trip_exactly_when_source_and_offset_agree() {
    for rs2 in 0..16_u8 {
        for offset in IMMEDIATES {
            let agree = (rs2 % 4) as u16 == pattern(offset) / 0x4000;
            let (rs1, rs2) = (Register::R6, reg(rs2));
            let all = [
                Instr::Beq { rs1, rs2, offset },
                Instr::Bne { rs1, rs2, offset },
                Instr::Blt { rs1, rs2, offset },
                Instr::Bge { rs1, rs2, offset },
            ];
            for instr in all {
                assert_eq!(decode(encode(&instr)) == Ok(instr), agree);
            }
        }
    }
}

#[test]
fn every_offset_of_every_branch_has_four_sources_that_hold_it() {
    for offset in i16::MIN..=i16::MAX {
        let mut held = 0;
        for rs2 in 0..16 {
            let instr = Instr::Bne { rs1: Register::R2, rs2: reg(rs2), offset };
            if decode(encode(&instr)) == Ok(instr) {
                held += 1;
            }
        }
        assert_eq!(held, 4);
    }
}

#[test]
fn jumps_round_trip_over_the_whole_26_bit_range() {
    let mut offsets = vec![0, 1, -1, 12, -5, (1 << 25) - 1, -(1 << 25), 1 << 24, -(1 << 24) - 1];
    let mut x: u32 = 0x1234_5678;
    for _ in 0..50_000 {
        x = x.wrapping_mul(1_664_525).wrapping_add(1_013_904_223);
        offsets.push(((x >> 6) as i32) - (1 << 25));
    }
    for offset in offsets {
        let instr = Instr::Jal { offset };
        assert!(instr.is_wf());
        assert_eq!(decode(encode(&instr)), Ok(instr));
        let instr = Instr::Jmp { offset };
        assert_eq!(decode(encode(&instr)), Ok(instr));
    }
}

#[test]
fn a_word_that_decodes_is_the_word_of_its_instruction() {
    let mut word: u32 = 0x2545_F491;
    let mut decoded = 0;
    for _ in 0..400_000 {
        word = word.wrapping_mul(1_664_525).wrapping_add(1_013_904_223);
        // Keep the opcode in the defined range three times out of four.
        let probe = if word & 3 != 0 { word % (0x0B << 26) } else { word };
        if let Ok(instr) = decode(probe) {
            assert!(instr.is_wf());
            assert_eq!(encode(&instr), probe);
            assert_eq!(decode(encode(&instr)), Ok(instr));
            decoded += 1;
        }
    }
    assert!(decoded > 10_000);
}

#[test]
fn every_register_immediate_word_that_decodes_is_canonical() {
    // All values of bits [17:0], where the rs2 slot and the immediate meet,
    // under each opcode of the shape and two values of the rd slot.
    let mut decoded = 0;
    for opcode in [0x01_u32, 0x02, 0x03, 0x04, 0x05, 0x06, 0x07, 0x0A] {
        for rd in [0_u32, 5] {
            for low in 0_u32..(1 << 18) {
                let word = (opcode << 26) | (rd << 22) | low;
                if let Ok(instr) = decode(word) {
                    assert_eq!(encode(&instr), word);
                    decoded += 1;
                }
            }
        }
    }
    // ADDI, LD and ST take any rd and a zero rs2 slot; the branches a zero rd
    // and any rs2 slot; ECALL zero slots throughout.
    assert_eq!(decoded, 3 * 2 * (1 << 14) + 4 * (1 << 18) + (1 << 14));
}

#[test]
fn distinct_words_decode_to_distinct_instructions() {
    let words: Vec<u32> = (0..(1_u32 << 16)).map(|low| (0x04 << 26) | (low << 2)).collect();
    let mut seen = std::collections::HashMap::new();
    for word in words {
        if let Ok(instr) = decode(word) {
            let text = format!("{:?}", instr);
            assert_eq!(seen.insert(text, word), None);
        }
    }
    assert!(!seen.is_empty());
}
