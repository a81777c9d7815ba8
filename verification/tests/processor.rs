use yars_lib::instruction::{FenceKind, Instruction};
use yars_lib::machine::Action;
use yars_lib::memory::Memory;
use yars_lib::processor::{Processor, ProcessorError};
use yars_lib::register::IntRegister;
use yars_lib::register::IntRegister::{A0, A1, A2, RA, SP, Zero};

fn processor(size: u32) -> Processor {
    Processor::new(Memory::new(size))
}

fn set(p: &mut Processor, rd: IntRegister, value: u32) {
    let low = ((value & 0xFFF) as i32) << 20 >> 20;
    let high = (value.wrapping_sub(low as u32) as i32) >> 12;
    assert_eq!(p.execute(Instruction::LUI { rd, imm: high }), Ok(()));
    assert_eq!(p.execute(Instruction::ADDI { rd, rs1: rd, imm: low as i16 }), Ok(()));
    assert_eq!(p.registers().read(rd), value);
}

fn binary(make: fn(IntRegister, IntRegister, IntRegister) -> Instruction, a: u32, b: u32) -> u32 {
    let mut p = processor(16);
    set(&mut p, A0, a);
    set(&mut p, A1, b);
    let pc = p.pc();
    assert_eq!(p.execute(make(A2, A0, A1)), Ok(()));
    assert_eq!(p.pc(), pc);
    assert_eq!(p.registers().read(A0), a);
    assert_eq!(p.registers().read(A1), b);
    p.registers().read(A2)
}

fn immediate(make: fn(IntRegister, IntRegister, i16) -> Instruction, a: u32, imm: i16) -> u32 {
    let mut p = processor(16);
    set(&mut p, A0, a);
    assert_eq!(p.execute(make(A2, A0, imm)), Ok(()));
    p.registers().read(A2)
}

#[test]
fn new_processor_starts_at_zero_with_the_stack_at_the_top() {
    let p = processor(1024);
    assert_eq!(p.pc(), 0);
    assert_eq!(p.cycles(), 0);
    assert_eq!(p.memory().size(), 1024);
    assert_eq!(p.registers().read(SP), 1023);
    assert_eq!(p.registers().read(RA), 0);
    assert_eq!(p.registers().read(Zero), 0);
    assert_eq!(processor(1).registers().read(SP), 0);
}

#[test]
fn pc_and_cycles_can_be_set() {
    let mut p = processor(16);
    p.set_pc(0xFFFF_FFFC);
    assert_eq!(p.pc(), 0xFFFF_FFFC);
    assert_eq!(p.execute(Instruction::FENCETSO), Ok(()));
    assert_eq!(p.cycles(), 1);
    p.reset_cycles();
    assert_eq!(p.cycles(), 0);
    assert_eq!(p.pc(), 0xFFFF_FFFC);
}

#[test]
fn fetch_checks_the_program_counter() {
    let mut memory = Memory::new(10);
    memory.write_word(0, 0x00500093);
    memory.write_word(4, 0x00000073);
    let mut p = Processor::new(memory);
    assert_eq!(p.fetch(), Ok(Instruction::ADDI { rd: RA, rs1: Zero, imm: 5 }));
    p.set_pc(4);
    assert_eq!(p.fetch(), Ok(Instruction::ECALL));
    for pc in [1, 2, 3, 5, 6, 7, 9] {
        p.set_pc(pc);
        assert_eq!(p.fetch(), Err(ProcessorError::MisalignedFetch));
    }
    for pc in [10, 11, 12, 16, 0x8000_0000, u32::MAX] {
        p.set_pc(pc);
        assert_eq!(p.fetch(), Err(ProcessorError::IllegalFetch));
    }
    p.set_pc(8);
    assert_eq!(p.fetch(), Err(ProcessorError::IllegalFetch));
    assert_eq!(p.cycles(), 0);
}

#[test]
fn fetch_rejects_words_that_encode_nothing() {
    let mut memory = Memory::new(12);
    memory.write_word(0, 0x00500090);
    memory.write_word(4, 0xFFFF_FFFF);
    memory.write_word(8, 0x4501);
    let mut p = Processor::new(memory);
    for pc in [0, 4, 8] {
        p.set_pc(pc);
        assert_eq!(p.fetch(), Err(ProcessorError::InvalidOpcode));
    }
}

#[test]
fn every_execution_is_counted_once() {
    let mut p = processor(16);
    let instructions = [
        Instruction::ADDI { rd: RA, rs1: Zero, imm: 5 },
        Instruction::ECALL,
        Instruction::EBREAK,
        Instruction::LW { rd: RA, rs1: Zero, imm: 100 },
        Instruction::SW { rs1: Zero, rs2: RA, imm: 13 },
        Instruction::BEQ { rs1: Zero, rs2: Zero, imm: 8 },
        Instruction::BNE { rs1: Zero, rs2: Zero, imm: 8 },
        Instruction::JAL { rd: RA, imm: -4 },
        Instruction::FENCE { pred: FenceKind::RW, succ: FenceKind::RW },
        Instruction::FENCEI,
        Instruction::CSRRW { rd: RA, rs1: SP, csr: 0x300 },
        Instruction::DIV { rd: RA, rs1: SP, rs2: Zero },
    ];
    for (done, inst) in instructions.iter().enumerate() {
        assert_eq!(p.cycles(), done);
        let _ = p.execute(*inst);
        assert_eq!(p.cycles(), done + 1);
    }
}

#[test]
fn traps_change_nothing_but_the_count() {
    let mut p = processor(16);
    set(&mut p, A0, 7);
    p.set_pc(8);
    assert_eq!(p.execute(Instruction::ECALL), Err(ProcessorError::Ecall));
    assert_eq!(p.execute(Instruction::EBREAK), Err(ProcessorError::Ebreak));
    assert_eq!(p.pc(), 8);
    assert_eq!(p.registers().read(A0), 7);
    assert_eq!(p.cycles(), 4);
}

#[test]
fn fences_and_csr_accesses_do_nothing() {
    let mut p = processor(16);
    set(&mut p, A0, 7);
    let before = p.registers().to_string();
    for inst in [
        Instruction::FENCE { pred: FenceKind::R, succ: FenceKind::W },
        Instruction::FENCETSO,
        Instruction::FENCEI,
        Instruction::CSRRW { rd: A0, rs1: SP, csr: 0x300 },
        Instruction::CSRRS { rd: A0, rs1: SP, csr: 0x300 },
        Instruction::CSRRC { rd: A0, rs1: SP, csr: 0x300 },
        Instruction::CSRRWI { rd: A0, uimm: 3, csr: 0x300 },
        Instruction::CSRRSI { rd: A0, uimm: 3, csr: 0x300 },
        Instruction::CSRRCI { rd: A0, uimm: 3, csr: 0x300 },
    ] {
        assert_eq!(p.decide(inst), Action::Nothing);
        assert_eq!(p.execute(inst), Ok(()));
    }
    assert_eq!(p.registers().to_string(), before);
    assert_eq!(p.pc(), 0);
    assert_eq!(p.cycles(), 11);
}

#[test]
fn upper_immediates() {
    let mut p = processor(16);
    assert_eq!(p.execute(Instruction::LUI { rd: A0, imm: 0x12345 }), Ok(()));
    assert_eq!(p.registers().read(A0), 0x12345000);
    assert_eq!(p.execute(Instruction::LUI { rd: A0, imm: -1 }), Ok(()));
    assert_eq!(p.registers().read(A0), 0xFFFFF000);
    assert_eq!(p.execute(Instruction::LUI { rd: A0, imm: -524288 }), Ok(()));
    assert_eq!(p.registers().read(A0), 0x80000000);
    p.set_pc(4);
    assert_eq!(p.execute(Instruction::AUIPC { rd: A1, imm: 1 }), Ok(()));
    assert_eq!(p.registers().read(A1), 0x1004);
    p.set_pc(0xFFFF_F004);
    assert_eq!(p.execute(Instruction::AUIPC { rd: A1, imm: 1 }), Ok(()));
    assert_eq!(p.registers().read(A1), 4);
    assert_eq!(p.execute(Instruction::AUIPC { rd: A1, imm: -1 }), Ok(()));
    assert_eq!(p.registers().read(A1), 0xFFFF_E004);
    assert_eq!(p.pc(), 0xFFFF_F004);
}

#[test]
fn writes_to_register_zero_are_dropped() {
    let mut p = processor(16);
    assert_eq!(p.execute(Instruction::ADDI { rd: Zero, rs1: Zero, imm: 5 }), Ok(()));
    assert_eq!(p.execute(Instruction::LUI { rd: Zero, imm: 5 }), Ok(()));
    assert_eq!(p.execute(Instruction::JAL { rd: Zero, imm: 8 }), Ok(()));
    assert_eq!(p.registers().read(Zero), 0);
    assert_eq!(p.pc(), 8);
}

#[test]
fn addition_and_subtraction_wrap() {
    let add = |rd, rs1, rs2| Instruction::ADD { rd, rs1, rs2 };
    let sub = |rd, rs1, rs2| Instruction::SUB { rd, rs1, rs2 };
    assert_eq!(binary(add, 2, 3), 5);
    assert_eq!(binary(add, 0xFFFF_FFFF, 1), 0);
    assert_eq!(binary(add, 0x8000_0000, 0x8000_0000), 0);
    assert_eq!(binary(sub, 5, 3), 2);
    assert_eq!(binary(sub, 0, 1), 0xFFFF_FFFF);
    assert_eq!(binary(sub, 0x8000_0000, 1), 0x7FFF_FFFF);
    let addi = |rd, rs1, imm| Instruction::ADDI { rd, rs1, imm };
    assert_eq!(immediate(addi, 10, -11), 0xFFFF_FFFF);
    assert_eq!(immediate(addi, 0xFFFF_FFFF, 1), 0);
    assert_eq!(immediate(addi, 0x7FFF_FFFF, 2047), 0x8000_07FE);
    assert_eq!(immediate(addi, 0, -2048), 0xFFFF_F800);
}

#[test]
fn logical_operations() {
    let and = |rd, rs1, rs2| Instruction::AND { rd, rs1, rs2 };
    let or = |rd, rs1, rs2| Instruction::OR { rd, rs1, rs2 };
    let xor = |rd, rs1, rs2| Instruction::XOR { rd, rs1, rs2 };
    assert_eq!(binary(and, 0xF0F0_1234, 0x0FF0_FF00), 0x00F0_1200);
    assert_eq!(binary(or, 0xF0F0_1234, 0x0FF0_FF00), 0xFFF0_FF34);
    assert_eq!(binary(xor, 0xF0F0_1234, 0x0FF0_FF00), 0xFF00_ED34);
    let andi = |rd, rs1, imm| Instruction::ANDI { rd, rs1, imm };
    let ori = |rd, rs1, imm| Instruction::ORI { rd, rs1, imm };
    let xori = |rd, rs1, imm| Instruction::XORI { rd, rs1, imm };
    assert_eq!(immediate(andi, 0x1234_5678, -16), 0x1234_5670);
    assert_eq!(immediate(andi, 0x1234_5678, 0xFF), 0x78);
    assert_eq!(immediate(ori, 0x1234_5678, -2048), 0xFFFF_FE78);
    assert_eq!(immediate(xori, 0x1234_5678, -1), 0xEDCB_A987);
}

#[test]
fn shifts_take_five_bits_of_their_amount() {
    let sll = |rd, rs1, rs2| Instruction::SLL { rd, rs1, rs2 };
    let srl = |rd, rs1, rs2| Instruction::SRL { rd, rs1, rs2 };
    let sra = |rd, rs1, rs2| Instruction::SRA { rd, rs1, rs2 };
    assert_eq!(binary(sll, 1, 4), 16);
    assert_eq!(binary(sll, 1, 31), 0x8000_0000);
    assert_eq!(binary(sll, 3, 33), 6);
    assert_eq!(binary(sll, 0xFFFF_FFFF, 32), 0xFFFF_FFFF);
    assert_eq!(binary(sll, 0xC000_0001, 1), 0x8000_0002);
    assert_eq!(binary(srl, 0x8000_0000, 4), 0x0800_0000);
    assert_eq!(binary(srl, 0x8000_0000, 0xFFFF_FFE4), 0x0800_0000);
    assert_eq!(binary(srl, 0x8000_0000, 31), 1);
    assert_eq!(binary(sra, 0x8000_0000, 4), 0xF800_0000);
    assert_eq!(binary(sra, 0x8000_0000, 31), 0xFFFF_FFFF);
    assert_eq!(binary(sra, 0x8000_0000, 36), 0xF800_0000);
    assert_eq!(binary(sra, 0x7000_0000, 4), 0x0700_0000);
    assert_eq!(binary(sra, 0xFFFF_FFFF, 0), 0xFFFF_FFFF);
    let mut p = processor(16);
    set(&mut p, A0, 0x8000_0010);
    assert_eq!(p.execute(Instruction::SLLI { rd: A1, rs1: A0, shamt: 1 }), Ok(()));
    assert_eq!(p.registers().read(A1), 0x20);
    assert_eq!(p.execute(Instruction::SRLI { rd: A1, rs1: A0, shamt: 4 }), Ok(()));
    assert_eq!(p.registers().read(A1), 0x0800_0001);
    assert_eq!(p.execute(Instruction::SRAI { rd: A1, rs1: A0, shamt: 4 }), Ok(()));
    assert_eq!(p.registers().read(A1), 0xF800_0001);
    assert_eq!(p.execute(Instruction::SRAI { rd: A1, rs1: A0, shamt: 31 }), Ok(()));
    assert_eq!(p.registers().read(A1), 0xFFFF_FFFF);
    assert_eq!(p.execute(Instruction::SRAI { rd: A1, rs1: A0, shamt: 0 }), Ok(()));
    assert_eq!(p.registers().read(A1), 0x8000_0010);
    assert_eq!(p.execute(Instruction::SLLI { rd: A1, rs1: A0, shamt: 31 }), Ok(()));
    assert_eq!(p.registers().read(A1), 0);
}

#[test]
fn comparisons_signed_and_unsigned() {
    let slt = |rd, rs1, rs2| Instruction::SLT { rd, rs1, rs2 };
    let sltu = |rd, rs1, rs2| Instruction::SLTU { rd, rs1, rs2 };
    assert_eq!(binary(slt, 0xFFFF_FFFF, 1), 1);
    assert_eq!(binary(sltu, 0xFFFF_FFFF, 1), 0);
    assert_eq!(binary(slt, 1, 0xFFFF_FFFF), 0);
    assert_eq!(binary(sltu, 1, 0xFFFF_FFFF), 1);
    assert_eq!(binary(slt, 5, 5), 0);
    assert_eq!(binary(sltu, 5, 5), 0);
    assert_eq!(binary(slt, 0x8000_0000, 0x7FFF_FFFF), 1);
    assert_eq!(binary(sltu, 0x8000_0000, 0x7FFF_FFFF), 0);
    let slti = |rd, rs1, imm| Instruction::SLTI { rd, rs1, imm };
    let sltiu = |rd, rs1, imm| Instruction::SLTIU { rd, rs1, imm };
    assert_eq!(immediate(slti, 0xFFFF_FFFE, -1), 1);
    assert_eq!(immediate(slti, 0, -1), 0);
    assert_eq!(immediate(slti, 3, 4), 1);
    assert_eq!(immediate(slti, 4, 4), 0);
    assert_eq!(immediate(sltiu, 0, -1), 1);
    assert_eq!(immediate(sltiu, 0xFFFF_FFFE, -1), 1);
    assert_eq!(immediate(sltiu, 0xFFFF_FFFF, -1), 0);
    assert_eq!(immediate(sltiu, 0xFFFF_F7FF, -2048), 1);
    assert_eq!(immediate(sltiu, 3, 4), 1);
    assert_eq!(immediate(sltiu, 5, 4), 0);
}

#[test]
fn multiplication_low_and_high_words() {
    let mul = |rd, rs1, rs2| Instruction::MUL { rd, rs1, rs2 };
    let mulh = |rd, rs1, rs2| Instruction::MULH { rd, rs1, rs2 };
    let mulhsu = |rd, rs1, rs2| Instruction::MULHSU { rd, rs1, rs2 };
    let mulhu = |rd, rs1, rs2| Instruction::MULHU { rd, rs1, rs2 };
    assert_eq!(binary(mul, 6, 7), 42);
    assert_eq!(binary(mul, 0xFFFF_FFFF, 0xFFFF_FFFF), 1);
    assert_eq!(binary(mul, 0xFFFF_FFFF, 5), 0xFFFF_FFFB);
    assert_eq!(binary(mul, 0x10000, 0x10000), 0);
    assert_eq!(binary(mul, 0x8000_0000, 0x8000_0000), 0);
    assert_eq!(binary(mulh, 0xFFFF_FFFF, 0xFFFF_FFFF), 0);
    assert_eq!(binary(mulh, 0x8000_0000, 0x8000_0000), 0x4000_0000);
    assert_eq!(binary(mulh, 0x8000_0000, 0x7FFF_FFFF), 0xC000_0000);
    assert_eq!(binary(mulh, 0xFFFF_FFFF, 1), 0xFFFF_FFFF);
    assert_eq!(binary(mulh, 0x10000, 0x10000), 1);
    assert_eq!(binary(mulhsu, 0xFFFF_FFFF, 0xFFFF_FFFF), 0xFFFF_FFFF);
    assert_eq!(binary(mulhsu, 0x8000_0000, 0xFFFF_FFFF), 0x8000_0000);
    assert_eq!(binary(mulhsu, 0x7FFF_FFFF, 0xFFFF_FFFF), 0x7FFF_FFFE);
    assert_eq!(binary(mulhsu, 1, 0xFFFF_FFFF), 0);
    assert_eq!(binary(mulhu, 0xFFFF_FFFF, 0xFFFF_FFFF), 0xFFFF_FFFE);
    assert_eq!(binary(mulhu, 0x8000_0000, 0x8000_0000), 0x4000_0000);
    assert_eq!(binary(mulhu, 0x10000, 0x10000), 1);
    assert_eq!(binary(mulhu, 0xFFFF_FFFF, 1), 0);
}

#[test]
fn division_by_zero_and_overflow() {
    let div = |rd, rs1, rs2| Instruction::DIV { rd, rs1, rs2 };
    let divu = |rd, rs1, rs2| Instruction::DIVU { rd, rs1, rs2 };
    let rem = |rd, rs1, rs2| Instruction::REM { rd, rs1, rs2 };
    let remu = |rd, rs1, rs2| Instruction::REMU { rd, rs1, rs2 };
    assert_eq!(binary(divu, 42, 0), 0xFFFF_FFFF);
    assert_eq!(binary(remu, 42, 0), 42);
    assert_eq!(binary(div, 42, 0), 0xFFFF_FFFF);
    assert_eq!(binary(rem, 42, 0), 42);
    assert_eq!(binary(div, 0xFFFF_FFD6, 0), 0xFFFF_FFFF);
    assert_eq!(binary(rem, 0xFFFF_FFD6, 0), 0xFFFF_FFD6);
    assert_eq!(binary(div, 0x8000_0000, 0xFFFF_FFFF), 0x8000_0000);
    assert_eq!(binary(rem, 0x8000_0000, 0xFFFF_FFFF), 0);
    assert_eq!(binary(divu, 0x8000_0000, 0xFFFF_FFFF), 0);
    assert_eq!(binary(remu, 0x8000_0000, 0xFFFF_FFFF), 0x8000_0000);
}

#[test]
fn division_rounds_towards_zero() {
    let div = |rd, rs1, rs2| Instruction::DIV { rd, rs1, rs2 };
    let divu = |rd, rs1, rs2| Instruction::DIVU { rd, rs1, rs2 };
    let rem = |rd, rs1, rs2| Instruction::REM { rd, rs1, rs2 };
    let remu = |rd, rs1, rs2| Instruction::REMU { rd, rs1, rs2 };
    let cases: [(i32, i32); 12] = [
        (7, 2),
        (-7, 2),
        (7, -2),
        (-7, -2),
        (0, 5),
        (0, -5),
        (6, 3),
        (-6, 3),
        (1, -1),
        (i32::MAX, -1),
        (i32::MIN, 1),
        (i32::MIN, 2),
    ];
    for (x, y) in cases {
        assert_eq!(binary(div, x as u32, y as u32), (x / y) as u32);
        assert_eq!(binary(rem, x as u32, y as u32), (x % y) as u32);
        assert_eq!(binary(divu, x as u32, y as u32), x as u32 / y as u32);
        assert_eq!(binary(remu, x as u32, y as u32), x as u32 % y as u32);
    }
    assert_eq!(binary(div, 0xFFFF_FFF9, 2), 0xFFFF_FFFD);
    assert_eq!(binary(rem, 0xFFFF_FFF9, 2), 0xFFFF_FFFF);
    assert_eq!(binary(rem, 7, 0xFFFF_FFFE), 1);
}

#[test]
fn loads_extend_signed_and_unsigned() {
    let mut memory = Memory::new(64);
    memory.write_word(16, 0x8081_FF7F);
    let mut p = Processor::new(memory);
    set(&mut p, A0, 20);
    let cases = [
        (Instruction::LB { rd: A1, rs1: A0, imm: -4 }, 0x7F),
        (Instruction::LB { rd: A1, rs1: A0, imm: -3 }, 0xFFFF_FFFF),
        (Instruction::LB { rd: A1, rs1: A0, imm: -1 }, 0xFFFF_FF80),
        (Instruction::LBU { rd: A1, rs1: A0, imm: -3 }, 0xFF),
        (Instruction::LBU { rd: A1, rs1: A0, imm: -1 }, 0x80),
        (Instruction::LH { rd: A1, rs1: A0, imm: -4 }, 0xFFFF_FF7F),
        (Instruction::LH { rd: A1, rs1: A0, imm: -2 }, 0xFFFF_8081),
        (Instruction::LH { rd: A1, rs1: A0, imm: -3 }, 0xFFFF_81FF),
        (Instruction::LHU { rd: A1, rs1: A0, imm: -4 }, 0xFF7F),
        (Instruction::LHU { rd: A1, rs1: A0, imm: -2 }, 0x8081),
        (Instruction::LW { rd: A1, rs1: A0, imm: -4 }, 0x8081_FF7F),
        (Instruction::LW { rd: A1, rs1: A0, imm: -3 }, 0x0080_81FF),
        (Instruction::LW { rd: A1, rs1: A0, imm: 0 }, 0),
    ];
    for (inst, value) in cases {
        assert_eq!(p.execute(inst), Ok(()));
        assert_eq!(p.registers().read(A1), value);
    }
    assert_eq!(p.pc(), 0);
}

#[test]
fn stores_write_the_low_bits() {
    let mut p = processor(64);
    set(&mut p, A0, 32);
    set(&mut p, A1, 0x1234_56F8);
    assert_eq!(p.execute(Instruction::SW { rs1: A0, rs2: A1, imm: 0 }), Ok(()));
    assert_eq!(p.memory().read_word(32), 0x1234_56F8);
    assert_eq!(p.execute(Instruction::SH { rs1: A0, rs2: A1, imm: 8 }), Ok(()));
    assert_eq!(p.memory().read_word(40), 0x0000_56F8);
    assert_eq!(p.execute(Instruction::SB { rs1: A0, rs2: A1, imm: -8 }), Ok(()));
    assert_eq!(p.memory().read_word(24), 0x0000_00F8);
    assert_eq!(p.execute(Instruction::SB { rs1: A0, rs2: A1, imm: 3 }), Ok(()));
    assert_eq!(p.memory().read_word(32), 0xF834_56F8);
    assert_eq!(p.memory().read_byte(31), 0);
    assert_eq!(p.memory().read_byte(36), 0);
}

#[test]
fn accesses_outside_the_memory_are_illegal() {
    let mut p = processor(64);
    set(&mut p, A0, 64);
    set(&mut p, A1, 0xAABB_CCDD);
    let legal = [
        Instruction::LB { rd: A2, rs1: A0, imm: -1 },
        Instruction::LBU { rd: A2, rs1: A0, imm: -1 },
        Instruction::LH { rd: A2, rs1: A0, imm: -2 },
        Instruction::LHU { rd: A2, rs1: A0, imm: -2 },
        Instruction::LW { rd: A2, rs1: A0, imm: -4 },
        Instruction::SB { rs1: A0, rs2: A1, imm: -1 },
        Instruction::SH { rs1: A0, rs2: A1, imm: -2 },
        Instruction::SW { rs1: A0, rs2: A1, imm: -4 },
        Instruction::LW { rd: A2, rs1: A0, imm: -64 },
    ];
    for inst in legal {
        assert_eq!(p.execute(inst), Ok(()));
    }
    let before = p.registers().to_string();
    let word = p.memory().read_word(60);
    let cycles = p.cycles();
    let illegal = [
        Instruction::LB { rd: A2, rs1: A0, imm: 0 },
        Instruction::LBU { rd: A2, rs1: A0, imm: 0 },
        Instruction::LH { rd: A2, rs1: A0, imm: -1 },
        Instruction::LHU { rd: A2, rs1: A0, imm: -1 },
        Instruction::LW { rd: A2, rs1: A0, imm: -3 },
        Instruction::LW { rd: A2, rs1: A0, imm: -1 },
        Instruction::SB { rs1: A0, rs2: A1, imm: 0 },
        Instruction::SH { rs1: A0, rs2: A1, imm: -1 },
        Instruction::SW { rs1: A0, rs2: A1, imm: -3 },
        Instruction::SW { rs1: A0, rs2: A1, imm: 2047 },
        Instruction::LW { rd: A2, rs1: A0, imm: -65 },
        Instruction::SB { rs1: A0, rs2: A1, imm: -65 },
    ];
    for (done, inst) in illegal.iter().enumerate() {
        assert_eq!(p.decide(*inst), Action::Trap { error: ProcessorError::IllegalAccess });
        assert_eq!(p.execute(*inst), Err(ProcessorError::IllegalAccess));
        assert_eq!(p.cycles(), cycles + done + 1);
    }
    assert_eq!(p.registers().to_string(), before);
    assert_eq!(p.memory().read_word(60), word);
    assert_eq!(p.pc(), 0);
}

#[test]
fn an_address_that_wraps_past_the_top_is_illegal() {
    let mut p = processor(64);
    set(&mut p, A0, 0xFFFF_FFFE);
    assert_eq!(p.execute(Instruction::LW { rd: A2, rs1: A0, imm: 0 }), Err(ProcessorError::IllegalAccess));
    assert_eq!(p.execute(Instruction::LW { rd: A2, rs1: A0, imm: 2 }), Ok(()));
    assert_eq!(p.execute(Instruction::SH { rs1: A0, rs2: A1, imm: 1 }), Err(ProcessorError::IllegalAccess));
}

#[test]
fn branches_move_the_program_counter_only_when_taken() {
    let cases: [(fn(IntRegister, IntRegister, i16) -> Instruction, u32, u32, bool); 18] = [
        (|rs1, rs2, imm| Instruction::BEQ { rs1, rs2, imm }, 5, 5, true),
        (|rs1, rs2, imm| Instruction::BEQ { rs1, rs2, imm }, 5, 6, false),
        (|rs1, rs2, imm| Instruction::BNE { rs1, rs2, imm }, 5, 5, false),
        (|rs1, rs2, imm| Instruction::BNE { rs1, rs2, imm }, 5, 6, true),
        (|rs1, rs2, imm| Instruction::BLT { rs1, rs2, imm }, 0xFFFF_FFFF, 1, true),
        (|rs1, rs2, imm| Instruction::BLT { rs1, rs2, imm }, 1, 0xFFFF_FFFF, false),
        (|rs1, rs2, imm| Instruction::BLT { rs1, rs2, imm }, 5, 5, false),
        (|rs1, rs2, imm| Instruction::BGE { rs1, rs2, imm }, 0xFFFF_FFFF, 1, false),
        (|rs1, rs2, imm| Instruction::BGE { rs1, rs2, imm }, 1, 0xFFFF_FFFF, true),
        (|rs1, rs2, imm| Instruction::BGE { rs1, rs2, imm }, 5, 5, true),
        (|rs1, rs2, imm| Instruction::BLTU { rs1, rs2, imm }, 0xFFFF_FFFF, 1, false),
        (|rs1, rs2, imm| Instruction::BLTU { rs1, rs2, imm }, 1, 0xFFFF_FFFF, true),
        (|rs1, rs2, imm| Instruction::BLTU { rs1, rs2, imm }, 5, 5, false),
        (|rs1, rs2, imm| Instruction::BGEU { rs1, rs2, imm }, 0xFFFF_FFFF, 1, true),
        (|rs1, rs2, imm| Instruction::BGEU { rs1, rs2, imm }, 1, 0xFFFF_FFFF, false),
        (|rs1, rs2, imm| Instruction::BGEU { rs1, rs2, imm }, 5, 5, true),
        (|rs1, rs2, imm| Instruction::BLT { rs1, rs2, imm }, 0x8000_0000, 0x7FFF_FFFF, true),
        (|rs1, rs2, imm| Instruction::BLTU { rs1, rs2, imm }, 0x8000_0000, 0x7FFF_FFFF, false),
    ];
    for (make, a, b, taken) in cases {
        for imm in [16i16, -16, 4094, -4096] {
            let mut p = processor(16);
            set(&mut p, A0, a);
            set(&mut p, A1, b);
            p.set_pc(0x100);
            assert_eq!(p.execute(make(A0, A1, imm)), Ok(()));
            let target = if taken { 0x100u32.wrapping_add(imm as u32) } else { 0x100 };
            assert_eq!(p.pc(), target);
            assert_eq!(p.registers().read(A0), a);
            assert_eq!(p.registers().read(A1), b);
        }
    }
}

#[test]
fn jumps_link_and_move() {
    let mut p = processor(16);
    p.set_pc(0x100);
    assert_eq!(p.execute(Instruction::JAL { rd: RA, imm: 8 }), Ok(()));
    assert_eq!(p.registers().read(RA), 0x104);
    assert_eq!(p.pc(), 0x108);
    assert_eq!(p.execute(Instruction::JAL { rd: A0, imm: -0x200 }), Ok(()));
    assert_eq!(p.registers().read(A0), 0x10C);
    assert_eq!(p.pc(), 0xFFFF_FF08);
    set(&mut p, A1, 0x2001);
    assert_eq!(p.execute(Instruction::JALR { rd: RA, rs1: A1, imm: 6 }), Ok(()));
    assert_eq!(p.pc(), 0x2006);
    assert_eq!(p.registers().read(RA), 0xFFFF_FF0C);
    assert_eq!(p.execute(Instruction::JALR { rd: A1, rs1: A1, imm: -1 }), Ok(()));
    assert_eq!(p.pc(), 0x2000);
    assert_eq!(p.registers().read(A1), 0x200A);
    p.set_pc(0xFFFF_FFFC);
    assert_eq!(p.execute(Instruction::JAL { rd: RA, imm: 8 }), Ok(()));
    assert_eq!(p.registers().read(RA), 0);
    assert_eq!(p.pc(), 4);
}

#[test]
fn decide_says_what_execute_will_do() {
    let mut p = processor(64);
    set(&mut p, A0, 40);
    set(&mut p, A1, 0x1234_5678);
    p.set_pc(8);
    assert_eq!(
        p.decide(Instruction::ADD { rd: A2, rs1: A0, rs2: A1 }),
        Action::Write { rd: A2, value: 0x1234_56A0 }
    );
    assert_eq!(
        p.decide(Instruction::SB { rs1: A0, rs2: A1, imm: 1 }),
        Action::StoreByte { address: 41, byte: 0x78 }
    );
    assert_eq!(
        p.decide(Instruction::SH { rs1: A0, rs2: A1, imm: 2 }),
        Action::StoreHalfword { address: 42, halfword: 0x5678 }
    );
    assert_eq!(
        p.decide(Instruction::SW { rs1: A0, rs2: A1, imm: -4 }),
        Action::StoreWord { address: 36, word: 0x1234_5678 }
    );
    assert_eq!(
        p.decide(Instruction::BNE { rs1: A0, rs2: A1, imm: -8 }),
        Action::Branch { target: 0 }
    );
    assert_eq!(p.decide(Instruction::BEQ { rs1: A0, rs2: A1, imm: -8 }), Action::Nothing);
    assert_eq!(
        p.decide(Instruction::JALR { rd: RA, rs1: A0, imm: 3 }),
        Action::Jump { rd: RA, link: 12, target: 42 }
    );
    assert_eq!(p.decide(Instruction::ECALL), Action::Trap { error: ProcessorError::Ecall });
    assert_eq!(p.decide(Instruction::EBREAK), Action::Trap { error: ProcessorError::Ebreak });
    assert_eq!(p.cycles(), 4);
    assert_eq!(p.memory().read_word(40), 0);
}
