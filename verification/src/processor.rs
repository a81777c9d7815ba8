//! The processor: it owns the memory, the registers, the program counter and
//! the count of executed instructions, and fetches and executes instructions.
//!
//! Its view is the [`Machine`] of the mathematical model; `fetch` and `execute`
//! are proved to do what [`crate::machine::fetch`] and
//! [`crate::machine::execute`] say.

use crate::alu;
use crate::instruction::{lemma_decode_well_formed, Instruction};
use crate::machine::{Action, Machine};
use crate::memory::Memory;
use crate::register::{IntRegister, IntRegisterSet};
use vstd::prelude::*;

verus! {

/// How a step ends when it does not simply succeed.
#[derive(Copy, Clone, Debug, PartialEq, Eq, Structural)]
pub enum ProcessorError {
    /// An `EBREAK` was executed.
    Ebreak,
    /// An `ECALL` was executed.
    Ecall,
    /// A load or a store reached outside the memory.
    IllegalAccess,
    /// The program counter points outside the memory, or so close to its end
    /// that no whole word is left.
    IllegalFetch,
    /// The word at the program counter encodes no instruction.
    InvalidOpcode,
    /// The program counter is not a multiple of four.
    MisalignedFetch,
}

/// The fetch and execute engine. Its view is the [`Machine`] that it is in.
#[derive(Debug)]
pub struct Processor {
    pc: u32,
    cycles: usize,
    memory: Memory,
    registers: IntRegisterSet,
}

impl View for Processor {
    type V = Machine;

    closed spec fn view(&self) -> Machine {
        Machine {
            pc: self.pc,
            cycles: self.cycles as nat,
            memory: self.memory@,
            registers: self.registers@,
        }
    }
}

impl Processor {
    /// The count of executed instructions is a machine integer.
    pub proof fn lemma_cycles_bounded(self)
        ensures
            self@.cycles <= usize::MAX,
    {
    }

    /// A processor over `memory`, at program counter 0, with nothing executed
    /// yet and every register zero but the stack pointer, which holds the
    /// memory's last address.
    pub fn new(memory: Memory) -> (processor: Self)
        requires
            memory@.len() > 0,
        ensures
            processor@ == (Machine {
                pc: 0,
                cycles: 0,
                memory: memory@,
                registers: Seq::new(32, |i: int| 0u32).update(2, (memory@.len() - 1) as u32),
            }),
            processor@.well_formed(),
    {
        let pc: u32 = 0;
        let cycles: usize = 0;
        let mut registers = IntRegisterSet::new();
        registers.write(IntRegister::SP, memory.size() - 1);

        Self { pc, cycles, memory, registers }
    }

    /// The number of instructions executed so far.
    pub fn cycles(&self) -> (cycles: usize)
        ensures
            cycles == self@.cycles,
    {
        self.cycles
    }

    /// Starts the count of executed instructions again from zero.
    pub fn reset_cycles(&mut self)
        ensures
            final(self)@ == (Machine { cycles: 0, ..old(self)@ }),
    {
        self.cycles = 0;
    }

    /// The program counter.
    pub fn pc(&self) -> (pc: u32)
        ensures
            pc == self@.pc,
    {
        self.pc
    }

    /// Moves the program counter to `pc`.
    pub fn set_pc(&mut self, pc: u32)
        ensures
            final(self)@ == old(self)@.jump(pc),
    {
        self.pc = pc;
    }

    /// The memory.
    pub fn memory(&self) -> (memory: &Memory)
        ensures
            memory@ == self@.memory,
    {
        &self.memory
    }

    /// The registers.
    pub fn registers(&self) -> (registers: &IntRegisterSet)
        ensures
            registers@ == self@.registers,
    {
        &self.registers
    }

    /// The instruction at the program counter. Nothing changes.
    pub fn fetch(&self) -> (r: Result<Instruction, ProcessorError>)
        ensures
            r == crate::machine::fetch(self@),
            r matches Ok(inst) ==> inst.well_formed(),
    {
        if self.pc >= self.memory.size() {
            return Err(ProcessorError::IllegalFetch);
        }
        if !alu::is_word_aligned(self.pc) {
            return Err(ProcessorError::MisalignedFetch);
        }
        if !self.memory.in_bounds(self.pc, 4) {
            return Err(ProcessorError::IllegalFetch);
        }
        let opcode = self.memory.read_word(self.pc);
        proof {
            lemma_decode_well_formed(opcode);
        }
        match Instruction::try_from(opcode) {
            Ok(inst) => Ok(inst),
            Err(_) => Err(ProcessorError::InvalidOpcode),
        }
    }

    /// The address of a load or a store.
    fn address(&self, rs1: IntRegister, imm: i16) -> (address: u32)
        ensures
            address == self@.address(rs1, imm),
    {
        alu::offset(self.registers.read(rs1), imm)
    }

    /// Reads the operands of `inst` and works out what it asks for. Nothing
    /// changes.
    #[verifier::rlimit(50)]
    pub fn decide(&self, inst: Instruction) -> (action: Action)
        requires
            inst.well_formed(),
        ensures
            action == crate::machine::action(self@, inst),
            action.fits(self@.memory.len()),
    {
        // The kinds of instruction, spelled out: with them in sight the proof
        // takes the arms below one at a time.
        assert({
            inst is LUI || inst is LB || inst is LH || inst is LW || inst is LBU || inst is LHU
                || inst is SB || inst is SH || inst is SW || inst is SLLI || inst is SRLI
                || inst is SRAI || inst is SLL || inst is SRL || inst is SRA || inst is ADDI
                || inst is ADD || inst is SUB || inst is ORI || inst is XORI || inst is ANDI
                || inst is OR || inst is XOR || inst is AND || inst is SLTI || inst is SLTIU
                || inst is SLT || inst is SLTU || inst is BEQ || inst is BNE || inst is BLT
                || inst is BGE || inst is BLTU || inst is BGEU || inst is JAL || inst is AUIPC
                || inst is JALR || inst is FENCE || inst is FENCETSO || inst is ECALL
                || inst is EBREAK || inst is FENCEI || inst is CSRRW || inst is CSRRS
                || inst is CSRRC || inst is CSRRWI || inst is CSRRSI || inst is CSRRCI
                || inst is MUL || inst is MULH || inst is MULHSU || inst is MULHU
                || inst is DIV || inst is DIVU || inst is REM || inst is REMU
        });
        proof {
            reveal(crate::machine::action);
        }
        match inst {
            Instruction::LUI { rd, imm } => {
                Action::Write { rd, value: alu::upper(imm) }
            },
            Instruction::LB { rd, rs1, imm } => {
                let addr = self.address(rs1, imm);

                if !self.memory.in_bounds(addr, 1) {
                    return Action::Trap { error: ProcessorError::IllegalAccess };
                }
                let val = alu::extend_byte(self.memory.read_byte(addr));
                Action::Write { rd, value: val }
            },
            Instruction::LH { rd, rs1, imm } => {
                let addr = self.address(rs1, imm);

                if !self.memory.in_bounds(addr, 2) {
                    return Action::Trap { error: ProcessorError::IllegalAccess };
                }
                let val = alu::extend_halfword(self.memory.read_halfword(addr));
                Action::Write { rd, value: val }
            },
            Instruction::LW { rd, rs1, imm } => {
                let addr = self.address(rs1, imm);

                if !self.memory.in_bounds(addr, 4) {
                    return Action::Trap { error: ProcessorError::IllegalAccess };
                }
                let val = self.memory.read_word(addr);
                Action::Write { rd, value: val }
            },
            Instruction::LBU { rd, rs1, imm } => {
                let addr = self.address(rs1, imm);

                if !self.memory.in_bounds(addr, 1) {
                    return Action::Trap { error: ProcessorError::IllegalAccess };
                }
                let val = self.memory.read_byte(addr) as u32;
                Action::Write { rd, value: val }
            },
            Instruction::LHU { rd, rs1, imm } => {
                let addr = self.address(rs1, imm);

                if !self.memory.in_bounds(addr, 2) {
                    return Action::Trap { error: ProcessorError::IllegalAccess };
                }
                let val = self.memory.read_halfword(addr) as u32;
                Action::Write { rd, value: val }
            },
            Instruction::SB { rs1, rs2, imm } => {
                let addr = self.address(rs1, imm);

                if !self.memory.in_bounds(addr, 1) {
                    return Action::Trap { error: ProcessorError::IllegalAccess };
                }
                let val = alu::low_byte(self.registers.read(rs2));
                Action::StoreByte { address: addr, byte: val }
            },
            Instruction::SH { rs1, rs2, imm } => {
                let addr = self.address(rs1, imm);

                if !self.memory.in_bounds(addr, 2) {
                    return Action::Trap { error: ProcessorError::IllegalAccess };
                }
                let val = alu::low_halfword(self.registers.read(rs2));
                Action::StoreHalfword { address: addr, halfword: val }
            },
            Instruction::SW { rs1, rs2, imm } => {
                let addr = self.address(rs1, imm);

                if !self.memory.in_bounds(addr, 4) {
                    return Action::Trap { error: ProcessorError::IllegalAccess };
                }
                let val = self.registers.read(rs2);
                Action::StoreWord { address: addr, word: val }
            },
            Instruction::SLLI { rd, rs1, shamt } => {
                let v1 = self.registers.read(rs1);
                let val = v1 << shamt;
                Action::Write { rd, value: val }
            },
            Instruction::SRLI { rd, rs1, shamt } => {
                let v1 = self.registers.read(rs1);
                let val = v1 >> shamt;
                Action::Write { rd, value: val }
            },
            Instruction::SRAI { rd, rs1, shamt } => {
                let v1 = self.registers.read(rs1);
                let val = alu::shift_right_arithmetic_by(v1, shamt);
                Action::Write { rd, value: val }
            },
            Instruction::SLL { rd, rs1, rs2 } => {
                let v1 = self.registers.read(rs1);
                let v2 = self.registers.read(rs2);
                let val = alu::shift_left(v1, v2);
                Action::Write { rd, value: val }
            },
            Instruction::SRL { rd, rs1, rs2 } => {
                let v1 = self.registers.read(rs1);
                let v2 = self.registers.read(rs2);
                let val = alu::shift_right(v1, v2);
                Action::Write { rd, value: val }
            },
            Instruction::SRA { rd, rs1, rs2 } => {
                let v1 = self.registers.read(rs1);
                let v2 = self.registers.read(rs2);
                let val = alu::shift_right_arithmetic(v1, v2);
                Action::Write { rd, value: val }
            },
            Instruction::ADDI { rd, rs1, imm } => {
                let v1 = self.registers.read(rs1);
                let val = alu::offset(v1, imm);
                Action::Write { rd, value: val }
            },
            Instruction::ADD { rd, rs1, rs2 } => {
                let v1 = self.registers.read(rs1);
                let v2 = self.registers.read(rs2);
                let val = alu::sum(v1, v2);
                Action::Write { rd, value: val }
            },
            Instruction::SUB { rd, rs1, rs2 } => {
                let v1 = self.registers.read(rs1);
                let v2 = self.registers.read(rs2);
                let val = alu::difference(v1, v2);
                Action::Write { rd, value: val }
            },
            Instruction::ORI { rd, rs1, imm } => {
                let v1 = self.registers.read(rs1);
                let v2 = alu::extend(imm);
                let val = v1 | v2;
                Action::Write { rd, value: val }
            },
            Instruction::XORI { rd, rs1, imm } => {
                let v1 = self.registers.read(rs1);
                let v2 = alu::extend(imm);
                let val = v1 ^ v2;
                Action::Write { rd, value: val }
            },
            Instruction::ANDI { rd, rs1, imm } => {
                let v1 = self.registers.read(rs1);
                let v2 = alu::extend(imm);
                let val = v1 & v2;
                Action::Write { rd, value: val }
            },
            Instruction::OR { rd, rs1, rs2 } => {
                let v1 = self.registers.read(rs1);
                let v2 = self.registers.read(rs2);
                let val = v1 | v2;
                Action::Write { rd, value: val }
            },
            Instruction::XOR { rd, rs1, rs2 } => {
                let v1 = self.registers.read(rs1);
                let v2 = self.registers.read(rs2);
                let val = v1 ^ v2;
                Action::Write { rd, value: val }
            },
            Instruction::AND { rd, rs1, rs2 } => {
                let v1 = self.registers.read(rs1);
                let v2 = self.registers.read(rs2);
                let val = v1 & v2;
                Action::Write { rd, value: val }
            },
            Instruction::SLTI { rd, rs1, imm } => {
                let v1 = self.registers.read(rs1);
                let val = alu::less_than_immediate(v1, imm);
                Action::Write { rd, value: val }
            },
            Instruction::SLTIU { rd, rs1, imm } => {
                let v1 = self.registers.read(rs1);
                let v2 = alu::extend(imm);
                let val = alu::less_than_unsigned(v1, v2);
                Action::Write { rd, value: val }
            },
            Instruction::SLT { rd, rs1, rs2 } => {
                let v1 = self.registers.read(rs1);
                let v2 = self.registers.read(rs2);
                let val = alu::less_than(v1, v2);
                Action::Write { rd, value: val }
            },
            Instruction::SLTU { rd, rs1, rs2 } => {
                let v1 = self.registers.read(rs1);
                let v2 = self.registers.read(rs2);
                let val = alu::less_than_unsigned(v1, v2);
                Action::Write { rd, value: val }
            },
            Instruction::BEQ { rs1, rs2, imm } => {
                let v1 = self.registers.read(rs1);
                let v2 = self.registers.read(rs2);
                if v1 == v2 {
                    Action::Branch { target: alu::offset(self.pc, imm) }
                } else {
                    Action::Nothing
                }
            },
            Instruction::BNE { rs1, rs2, imm } => {
                let v1 = self.registers.read(rs1);
                let v2 = self.registers.read(rs2);
                if v1 != v2 {
                    Action::Branch { target: alu::offset(self.pc, imm) }
                } else {
                    Action::Nothing
                }
            },
            Instruction::BLT { rs1, rs2, imm } => {
                let v1 = alu::to_signed(self.registers.read(rs1));
                let v2 = alu::to_signed(self.registers.read(rs2));
                if v1 < v2 {
                    Action::Branch { target: alu::offset(self.pc, imm) }
                } else {
                    Action::Nothing
                }
            },
            Instruction::BGE { rs1, rs2, imm } => {
                let v1 = alu::to_signed(self.registers.read(rs1));
                let v2 = alu::to_signed(self.registers.read(rs2));
                if v1 >= v2 {
                    Action::Branch { target: alu::offset(self.pc, imm) }
                } else {
                    Action::Nothing
                }
            },
            Instruction::BLTU { rs1, rs2, imm } => {
                let v1 = self.registers.read(rs1);
                let v2 = self.registers.read(rs2);
                if v1 < v2 {
                    Action::Branch { target: alu::offset(self.pc, imm) }
                } else {
                    Action::Nothing
                }
            },
            Instruction::BGEU { rs1, rs2, imm } => {
                let v1 = self.registers.read(rs1);
                let v2 = self.registers.read(rs2);
                if v1 >= v2 {
                    Action::Branch { target: alu::offset(self.pc, imm) }
                } else {
                    Action::Nothing
                }
            },
            Instruction::JAL { rd, imm } => {
                let target = alu::long_offset(self.pc, imm);
                Action::Jump { rd, link: alu::next_instruction(self.pc), target }
            },
            Instruction::AUIPC { rd, imm } => {
                let val = alu::upper_offset(self.pc, imm);
                Action::Write { rd, value: val }
            },
            Instruction::JALR { rd, rs1, imm } => {
                let v1 = self.registers.read(rs1);
                let target = alu::jump_target(v1, imm);
                Action::Jump { rd, link: alu::next_instruction(self.pc), target }
            },
            Instruction::FENCE { .. } => Action::Nothing,
            Instruction::FENCETSO => Action::Nothing,
            Instruction::FENCEI => Action::Nothing,
            Instruction::ECALL => Action::Trap { error: ProcessorError::Ecall },
            Instruction::EBREAK => Action::Trap { error: ProcessorError::Ebreak },
            Instruction::CSRRW { .. } => Action::Nothing,
            Instruction::CSRRS { .. } => Action::Nothing,
            Instruction::CSRRC { .. } => Action::Nothing,
            Instruction::CSRRWI { .. } => Action::Nothing,
            Instruction::CSRRSI { .. } => Action::Nothing,
            Instruction::CSRRCI { .. } => Action::Nothing,
            Instruction::MUL { rd, rs1, rs2 } => {
                let v1 = self.registers.read(rs1);
                let v2 = self.registers.read(rs2);
                let val = alu::multiply(v1, v2);
                Action::Write { rd, value: val }
            },
            Instruction::MULH { rd, rs1, rs2 } => {
                let v1 = self.registers.read(rs1);
                let v2 = self.registers.read(rs2);
                let val = alu::multiply_high(v1, v2);
                Action::Write { rd, value: val }
            },
            Instruction::MULHSU { rd, rs1, rs2 } => {
                let v1 = self.registers.read(rs1);
                let v2 = self.registers.read(rs2);
                let val = alu::multiply_high_mixed(v1, v2);
                Action::Write { rd, value: val }
            },
            Instruction::MULHU { rd, rs1, rs2 } => {
                let v1 = self.registers.read(rs1);
                let v2 = self.registers.read(rs2);
                let val = alu::multiply_high_unsigned(v1, v2);
                Action::Write { rd, value: val }
            },
            Instruction::DIV { rd, rs1, rs2 } => {
                let v1 = self.registers.read(rs1);
                let v2 = self.registers.read(rs2);
                let val = alu::divide(v1, v2);
                Action::Write { rd, value: val }
            },
            Instruction::DIVU { rd, rs1, rs2 } => {
                let v1 = self.registers.read(rs1);
                let v2 = self.registers.read(rs2);
                let val = alu::divide_unsigned(v1, v2);
                Action::Write { rd, value: val }
            },
            Instruction::REM { rd, rs1, rs2 } => {
                let v1 = self.registers.read(rs1);
                let v2 = self.registers.read(rs2);
                let val = alu::remainder(v1, v2);
                Action::Write { rd, value: val }
            },
            Instruction::REMU { rd, rs1, rs2 } => {
                let v1 = self.registers.read(rs1);
                let v2 = self.registers.read(rs2);
                let val = alu::remainder_unsigned(v1, v2);
                Action::Write { rd, value: val }
            },
        }
    }

    /// Executes `inst`: counts it, and applies its effect to the registers,
    /// the memory and the program counter. The program counter moves only for
    /// a jump or a taken branch.
    pub fn execute(&mut self, inst: Instruction) -> (r: Result<(), ProcessorError>)
        requires
            old(self)@.cycles < usize::MAX,
            inst.well_formed(),
        ensures
            final(self)@ == crate::machine::execute(old(self)@, inst).0,
            r == crate::machine::execute(old(self)@, inst).1,
            final(self)@.cycles == old(self)@.cycles + 1,
    {
        let action = self.decide(inst);
        self.cycles += 1;
        match action {
            Action::Nothing => Ok(()),
            Action::Write { rd, value } => {
                self.registers.write(rd, value);
                Ok(())
            },
            Action::StoreByte { address, byte } => {
                self.memory.write_byte(address, byte);
                Ok(())
            },
            Action::StoreHalfword { address, halfword } => {
                self.memory.write_halfword(address, halfword);
                Ok(())
            },
            Action::StoreWord { address, word } => {
                self.memory.write_word(address, word);
                Ok(())
            },
            Action::Branch { target } => {
                self.pc = target;
                Ok(())
            },
            Action::Jump { rd, link, target } => {
                self.registers.write(rd, link);
                self.pc = target;
                Ok(())
            },
            Action::Trap { error } => Err(error),
        }
    }
}

} // verus!
