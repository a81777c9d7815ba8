use yars_lib::instruction::InstructionFormat::{B, I, J, R, R4, S, U};
use yars_lib::instruction::{register_fields, FenceKind, Instruction, InstructionFormat};
use yars_lib::register::IntRegister;
use yars_lib::register::IntRegister::{A0, RA, S1, SP, T0, T1, T6, Zero};

fn r_type(funct7: u32, rs2: u32, rs1: u32, funct3: u32, rd: u32, opcode: u32) -> u32 {
    funct7 << 25 | rs2 << 20 | rs1 << 15 | funct3 << 12 | rd << 7 | opcode
}

fn i_type(imm: i32, rs1: u32, funct3: u32, rd: u32, opcode: u32) -> u32 {
    (imm as u32 & 0xFFF) << 20 | rs1 << 15 | funct3 << 12 | rd << 7 | opcode
}

fn s_type(imm: i32, rs2: u32, rs1: u32, funct3: u32, opcode: u32) -> u32 {
    let imm = imm as u32;
    (imm >> 5 & 0x7F) << 25 | rs2 << 20 | rs1 << 15 | funct3 << 12 | (imm & 0x1F) << 7 | opcode
}

fn b_type(imm: i32, rs2: u32, rs1: u32, funct3: u32) -> u32 {
    let imm = imm as u32;
    (imm >> 12 & 1) << 31
        | (imm >> 5 & 0x3F) << 25
        | rs2 << 20
        | rs1 << 15
        | funct3 << 12
        | (imm >> 1 & 0xF) << 8
        | (imm >> 11 & 1) << 7
        | 0b1100011
}

fn j_type(imm: i32, rd: u32) -> u32 {
    let imm = imm as u32;
    (imm >> 20 & 1) << 31
        | (imm >> 1 & 0x3FF) << 21
        | (imm >> 11 & 1) << 20
        | (imm >> 12 & 0xFF) << 12
        | rd << 7
        | 0b1101111
}

fn decode(word: u32) -> Result<Instruction, ()> {
    Instruction::try_from(word)
}

#[test]
fn format_follows_the_major_opcode() {
    let table = [
        Some(I), Some(I), None, Some(I), Some(I), Some(U), Some(I), None,
        Some(S), Some(S), None, Some(R), Some(R), Some(U), Some(R), None,
        Some(R4), Some(R4), Some(R4), Some(R4), Some(R), None, None, None,
        Some(B), Some(I), None, Some(J), Some(I), None, None, None,
    ];
    for (major, format) in table.iter().enumerate() {
        let opcode = (major as u8) << 2;
        assert_eq!(InstructionFormat::from_opcode(opcode | 3), *format);
        assert_eq!(InstructionFormat::from_opcode(opcode | 3 | 0x80), *format);
        assert_eq!(InstructionFormat::from_opcode(opcode), None);
        assert_eq!(InstructionFormat::from_opcode(opcode | 1), None);
        assert_eq!(InstructionFormat::from_opcode(opcode | 2), None);
    }
}

#[test]
fn fence_kinds_from_their_bits() {
    assert_eq!(FenceKind::try_from(0b01), Ok(FenceKind::W));
    assert_eq!(FenceKind::try_from(0b10), Ok(FenceKind::R));
    assert_eq!(FenceKind::try_from(0b11), Ok(FenceKind::RW));
    for bits in [0u8, 4, 5, 8, 15, 16, 255] {
        assert_eq!(FenceKind::try_from(bits), Err(()));
    }
    assert_eq!(FenceKind::R.to_string(), "r");
    assert_eq!(FenceKind::W.to_string(), "w");
    assert_eq!(FenceKind::RW.as_str(), "rw");
}

#[test]
fn decodes_the_words_of_the_scenarios() {
    assert_eq!(decode(0x00500093), Ok(Instruction::ADDI { rd: RA, rs1: Zero, imm: 5 }));
    assert_eq!(decode(0x00000073), Ok(Instruction::ECALL));
    assert_eq!(decode(0x00100073), Ok(Instruction::EBREAK));
    assert_eq!(decode(0x008000EF), Ok(Instruction::JAL { rd: RA, imm: 8 }));
    assert_eq!(decode(0x123452B7), Ok(Instruction::LUI { rd: T0, imm: 0x12345 }));
    assert_eq!(decode(0x00001317), Ok(Instruction::AUIPC { rd: T1, imm: 1 }));
    assert_eq!(decode(0xFFF00093), Ok(Instruction::ADDI { rd: RA, rs1: Zero, imm: -1 }));
    assert_eq!(decode(0x00100113), Ok(Instruction::ADDI { rd: SP, rs1: Zero, imm: 1 }));
    assert_eq!(decode(0x0020C463), Ok(Instruction::BLT { rs1: RA, rs2: SP, imm: 8 }));
    assert_eq!(decode(0x00208023), Ok(Instruction::SB { rs1: RA, rs2: SP, imm: 0 }));
    assert_eq!(decode(0x0000C183), Ok(Instruction::LBU { rd: IntRegister::GP, rs1: RA, imm: 0 }));
}

#[test]
fn words_without_both_low_bits_are_rejected() {
    for word in [0u32, 0x00500090, 0x00500091, 0x00500092, 0xFFFF_FFFC, 0x0000_0001, 0x4501] {
        assert_eq!(decode(word), Err(()));
    }
    let mut word: u32 = 0;
    for _ in 0..2000 {
        word = word.wrapping_mul(1664525).wrapping_add(1013904223);
        if word & 3 != 3 {
            assert_eq!(decode(word), Err(()));
        }
    }
}

#[test]
fn reserved_and_four_register_opcodes_are_rejected() {
    for major in [2u32, 7, 10, 15, 16, 17, 18, 19, 21, 22, 23, 26, 29, 30, 31, 1, 6, 9, 11, 14, 20] {
        for funct3 in 0..8 {
            assert_eq!(decode(r_type(0, 2, 1, funct3, 3, major << 2 | 3)), Err(()));
        }
    }
}

#[test]
fn decodes_loads_and_stores() {
    let loads = [
        (0, Instruction::LB { rd: A0, rs1: SP, imm: -4 }),
        (1, Instruction::LH { rd: A0, rs1: SP, imm: -4 }),
        (2, Instruction::LW { rd: A0, rs1: SP, imm: -4 }),
        (4, Instruction::LBU { rd: A0, rs1: SP, imm: -4 }),
        (5, Instruction::LHU { rd: A0, rs1: SP, imm: -4 }),
    ];
    for (funct3, inst) in loads {
        assert_eq!(decode(i_type(-4, 2, funct3, 10, 0b0000011)), Ok(inst));
    }
    for funct3 in [3, 6, 7] {
        assert_eq!(decode(i_type(-4, 2, funct3, 10, 0b0000011)), Err(()));
    }
    let stores = [
        (0, Instruction::SB { rs1: SP, rs2: A0, imm: -2048 }),
        (1, Instruction::SH { rs1: SP, rs2: A0, imm: -2048 }),
        (2, Instruction::SW { rs1: SP, rs2: A0, imm: -2048 }),
    ];
    for (funct3, inst) in stores {
        assert_eq!(decode(s_type(-2048, 10, 2, funct3, 0b0100011)), Ok(inst));
    }
    assert_eq!(
        decode(s_type(2047, 31, 9, 2, 0b0100011)),
        Ok(Instruction::SW { rs1: S1, rs2: T6, imm: 2047 })
    );
    assert_eq!(
        decode(s_type(37, 31, 9, 2, 0b0100011)),
        Ok(Instruction::SW { rs1: S1, rs2: T6, imm: 37 })
    );
    for funct3 in 3..8 {
        assert_eq!(decode(s_type(0, 10, 2, funct3, 0b0100011)), Err(()));
    }
}

#[test]
fn decodes_register_immediate_operations() {
    let ops = [
        (0, Instruction::ADDI { rd: A0, rs1: SP, imm: 2047 }),
        (2, Instruction::SLTI { rd: A0, rs1: SP, imm: 2047 }),
        (3, Instruction::SLTIU { rd: A0, rs1: SP, imm: 2047 }),
        (4, Instruction::XORI { rd: A0, rs1: SP, imm: 2047 }),
        (6, Instruction::ORI { rd: A0, rs1: SP, imm: 2047 }),
        (7, Instruction::ANDI { rd: A0, rs1: SP, imm: 2047 }),
    ];
    for (funct3, inst) in ops {
        assert_eq!(decode(i_type(2047, 2, funct3, 10, 0b0010011)), Ok(inst));
    }
    assert_eq!(
        decode(i_type(-2048, 2, 0, 10, 0b0010011)),
        Ok(Instruction::ADDI { rd: A0, rs1: SP, imm: -2048 })
    );
    assert_eq!(
        decode(r_type(0, 31, 2, 1, 10, 0b0010011)),
        Ok(Instruction::SLLI { rd: A0, rs1: SP, shamt: 31 })
    );
    assert_eq!(
        decode(r_type(0, 0, 2, 5, 10, 0b0010011)),
        Ok(Instruction::SRLI { rd: A0, rs1: SP, shamt: 0 })
    );
    assert_eq!(
        decode(r_type(0b0100000, 7, 2, 5, 10, 0b0010011)),
        Ok(Instruction::SRAI { rd: A0, rs1: SP, shamt: 7 })
    );
    assert_eq!(decode(r_type(0b0100000, 7, 2, 1, 10, 0b0010011)), Err(()));
    assert_eq!(decode(r_type(1, 7, 2, 1, 10, 0b0010011)), Err(()));
    assert_eq!(decode(r_type(1, 7, 2, 5, 10, 0b0010011)), Err(()));
    assert_eq!(decode(r_type(0b1111111, 7, 2, 5, 10, 0b0010011)), Err(()));
}

#[test]
fn decodes_register_register_operations() {
    let (rd, rs1, rs2) = (A0, SP, T6);
    let base = [
        Instruction::ADD { rd, rs1, rs2 },
        Instruction::SLL { rd, rs1, rs2 },
        Instruction::SLT { rd, rs1, rs2 },
        Instruction::SLTU { rd, rs1, rs2 },
        Instruction::XOR { rd, rs1, rs2 },
        Instruction::SRL { rd, rs1, rs2 },
        Instruction::OR { rd, rs1, rs2 },
        Instruction::AND { rd, rs1, rs2 },
    ];
    let muldiv = [
        Instruction::MUL { rd, rs1, rs2 },
        Instruction::MULH { rd, rs1, rs2 },
        Instruction::MULHSU { rd, rs1, rs2 },
        Instruction::MULHU { rd, rs1, rs2 },
        Instruction::DIV { rd, rs1, rs2 },
        Instruction::DIVU { rd, rs1, rs2 },
        Instruction::REM { rd, rs1, rs2 },
        Instruction::REMU { rd, rs1, rs2 },
    ];
    for funct3 in 0..8 {
        assert_eq!(decode(r_type(0, 31, 2, funct3, 10, 0b0110011)), Ok(base[funct3 as usize]));
        assert_eq!(decode(r_type(1, 31, 2, funct3, 10, 0b0110011)), Ok(muldiv[funct3 as usize]));
        assert_eq!(decode(r_type(2, 31, 2, funct3, 10, 0b0110011)), Err(()));
        assert_eq!(decode(r_type(0b0100001, 31, 2, funct3, 10, 0b0110011)), Err(()));
    }
    assert_eq!(decode(r_type(0b0100000, 31, 2, 0, 10, 0b0110011)), Ok(Instruction::SUB { rd, rs1, rs2 }));
    assert_eq!(decode(r_type(0b0100000, 31, 2, 5, 10, 0b0110011)), Ok(Instruction::SRA { rd, rs1, rs2 }));
    for funct3 in [1, 2, 3, 4, 6, 7] {
        assert_eq!(decode(r_type(0b0100000, 31, 2, funct3, 10, 0b0110011)), Err(()));
    }
}

#[test]
fn decodes_branches_with_their_offsets() {
    let (rs1, rs2) = (RA, SP);
    for imm in [0i32, 2, 8, -2, -4096, 4094, 2048, -2048, 0x7FE, 0x800, 1364, -1366] {
        let imm16 = imm as i16;
        assert_eq!(decode(b_type(imm, 2, 1, 0)), Ok(Instruction::BEQ { rs1, rs2, imm: imm16 }));
        assert_eq!(decode(b_type(imm, 2, 1, 1)), Ok(Instruction::BNE { rs1, rs2, imm: imm16 }));
        assert_eq!(decode(b_type(imm, 2, 1, 4)), Ok(Instruction::BLT { rs1, rs2, imm: imm16 }));
        assert_eq!(decode(b_type(imm, 2, 1, 5)), Ok(Instruction::BGE { rs1, rs2, imm: imm16 }));
        assert_eq!(decode(b_type(imm, 2, 1, 6)), Ok(Instruction::BLTU { rs1, rs2, imm: imm16 }));
        assert_eq!(decode(b_type(imm, 2, 1, 7)), Ok(Instruction::BGEU { rs1, rs2, imm: imm16 }));
        assert_eq!(decode(b_type(imm, 2, 1, 2)), Err(()));
        assert_eq!(decode(b_type(imm, 2, 1, 3)), Err(()));
    }
}

#[test]
fn decodes_jumps_and_upper_immediates() {
    for imm in [0i32, 2, 8, -2, -1048576, 1048574, 2048, -2048, 0x800, 0x1000, 0xFF000, 699050] {
        assert_eq!(decode(j_type(imm, 1)), Ok(Instruction::JAL { rd: RA, imm }));
    }
    assert_eq!(
        decode(i_type(-8, 1, 0, 0, 0b1100111)),
        Ok(Instruction::JALR { rd: Zero, rs1: RA, imm: -8 })
    );
    for funct3 in 1..8 {
        assert_eq!(decode(i_type(-8, 1, funct3, 0, 0b1100111)), Err(()));
    }
    assert_eq!(decode(0xFFFFF0B7), Ok(Instruction::LUI { rd: RA, imm: -1 }));
    assert_eq!(decode(0x800000B7), Ok(Instruction::LUI { rd: RA, imm: -524288 }));
    assert_eq!(decode(0x7FFFF097), Ok(Instruction::AUIPC { rd: RA, imm: 524287 }));
    assert_eq!(decode(0x00000037), Ok(Instruction::LUI { rd: Zero, imm: 0 }));
}

#[test]
fn decodes_fences() {
    assert_eq!(
        decode(0x0330000F),
        Ok(Instruction::FENCE { pred: FenceKind::RW, succ: FenceKind::RW })
    );
    assert_eq!(decode(0x0FF0000F), Err(()));
    assert_eq!(
        decode(0x0210000F),
        Ok(Instruction::FENCE { pred: FenceKind::R, succ: FenceKind::W })
    );
    assert_eq!(
        decode(0x0120000F),
        Ok(Instruction::FENCE { pred: FenceKind::W, succ: FenceKind::R })
    );
    assert_eq!(decode(0x8330000F), Ok(Instruction::FENCETSO));
    assert_eq!(decode(0x8230000F), Err(()));
    assert_eq!(decode(0x8320000F), Err(()));
    assert_eq!(decode(0x1330000F), Err(()));
    assert_eq!(decode(0x0030000F), Err(()));
    assert_eq!(decode(0x0300000F), Err(()));
    assert_eq!(decode(0x0430000F), Err(()));
    assert_eq!(decode(0x0380000F), Err(()));
    assert_eq!(decode(0x0000100F), Ok(Instruction::FENCEI));
    assert_eq!(decode(0xFFFF9F8F), Ok(Instruction::FENCEI));
    for funct3 in 2..8u32 {
        assert_eq!(decode(0x0330000F | funct3 << 12), Err(()));
    }
}

#[test]
fn decodes_system_instructions() {
    assert_eq!(decode(i_type(0, 0, 0, 0, 0b1110011)), Ok(Instruction::ECALL));
    assert_eq!(decode(i_type(1, 0, 0, 0, 0b1110011)), Ok(Instruction::EBREAK));
    assert_eq!(decode(i_type(0, 5, 0, 7, 0b1110011)), Ok(Instruction::ECALL));
    assert_eq!(decode(i_type(2, 0, 0, 0, 0b1110011)), Err(()));
    assert_eq!(decode(i_type(-1, 0, 0, 0, 0b1110011)), Err(()));
    assert_eq!(decode(i_type(0x302, 0, 0, 0, 0b1110011)), Err(()));
    let csr = 0x341;
    assert_eq!(
        decode(i_type(csr, 2, 1, 10, 0b1110011)),
        Ok(Instruction::CSRRW { rd: A0, rs1: SP, csr: 0x341 })
    );
    assert_eq!(
        decode(i_type(csr, 2, 2, 10, 0b1110011)),
        Ok(Instruction::CSRRS { rd: A0, rs1: SP, csr: 0x341 })
    );
    assert_eq!(
        decode(i_type(csr, 2, 3, 10, 0b1110011)),
        Ok(Instruction::CSRRC { rd: A0, rs1: SP, csr: 0x341 })
    );
    assert_eq!(
        decode(i_type(csr, 31, 5, 10, 0b1110011)),
        Ok(Instruction::CSRRWI { rd: A0, uimm: 31, csr: 0x341 })
    );
    assert_eq!(
        decode(i_type(csr, 2, 6, 10, 0b1110011)),
        Ok(Instruction::CSRRSI { rd: A0, uimm: 2, csr: 0x341 })
    );
    assert_eq!(
        decode(i_type(0xFFF, 0, 7, 10, 0b1110011)),
        Ok(Instruction::CSRRCI { rd: A0, uimm: 0, csr: 0xFFF })
    );
    assert_eq!(decode(i_type(csr, 2, 4, 10, 0b1110011)), Err(()));
}

#[test]
fn register_fields_are_bits_7_15_and_20() {
    assert_eq!(register_fields(0x00500093), (1, 0, 5));
    assert_eq!(register_fields(0xFFFFFFFF), (31, 31, 31));
    assert_eq!(register_fields(0), (0, 0, 0));
    assert_eq!(register_fields(r_type(0x7F, 21, 10, 7, 17, 0x7F)), (17, 10, 21));
}
