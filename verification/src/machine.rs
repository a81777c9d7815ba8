//! The machine as mathematics: the architectural state, and what fetching and
//! executing an instruction does to it.
//!
//! Register values are 32-bit words. Arithmetic is stated over the integers:
//! [`signed`] reads a word as a two's-complement number and [`wrap`] takes an
//! integer back to the word it is congruent to.
//!
//! An instruction is executed in two moves. [`action`] reads the operands and
//! says what the instruction asks for; [`apply`] carries that out.

use crate::instruction::{decode, lemma_decode_rejects_compressed, sign_extend, Instruction};
use crate::memory::{halfword_at, in_bounds, with_halfword, with_word, word_at};
use crate::processor::ProcessorError;
use crate::register::IntRegister;
use vstd::prelude::*;

verus! {

/// The word that `value` is congruent to modulo 2^32.
#[verifier::opaque]
pub open spec fn wrap(value: int) -> u32 {
    (value % 0x1_0000_0000) as u32
}

/// `value` read as a two's-complement number.
pub open spec fn signed(value: u32) -> int {
    sign_extend(value as int, 0x8000_0000)
}

/// The quotient of `x` by `y` rounded towards zero.
pub open spec fn truncated_quotient(x: int, y: int) -> int {
    let magnitude = (if x < 0 {
        -x
    } else {
        x
    }) / (if y < 0 {
        -y
    } else {
        y
    });
    if (x < 0) != (y < 0) {
        -magnitude
    } else {
        magnitude
    }
}

/// What is left of `x` after the quotient rounded towards zero; it has the
/// sign of `x`.
pub open spec fn truncated_remainder(x: int, y: int) -> int {
    x - y * truncated_quotient(x, y)
}

/// `value` shifted right by `amount` bits, with copies of its sign bit
/// shifted in from the left.
pub open spec fn arithmetic_shift_right(value: u32, amount: u32) -> u32 {
    if value < 0x8000_0000 {
        value >> amount
    } else {
        !(!value >> amount)
    }
}

/// `word` with its lowest bit cleared.
#[verifier::opaque]
pub open spec fn clear_low_bit(word: u32) -> u32 {
    (word - word % 2) as u32
}

/// The low byte of a word.
#[verifier::opaque]
pub open spec fn low_byte(word: u32) -> u8 {
    (word % 0x100) as u8
}

/// The low halfword of a word.
#[verifier::opaque]
pub open spec fn low_halfword(word: u32) -> u16 {
    (word % 0x1_0000) as u16
}

/// The amount that a shift by register takes from the register: its low five
/// bits.
#[verifier::opaque]
pub open spec fn shift_amount(word: u32) -> u32 {
    word % 32
}

/// 1 if `condition` holds, else 0.
pub open spec fn flag(condition: bool) -> u32 {
    if condition {
        1
    } else {
        0
    }
}

/// The low word of the product.
#[verifier::opaque]
pub open spec fn multiply(a: u32, b: u32) -> u32 {
    wrap(signed(a) * signed(b))
}

/// The high word of the product of two signed numbers.
#[verifier::opaque]
pub open spec fn multiply_high(a: u32, b: u32) -> u32 {
    wrap(signed(a) * signed(b) / 0x1_0000_0000)
}

/// The high word of the product of a signed number and an unsigned one.
#[verifier::opaque]
pub open spec fn multiply_high_mixed(a: u32, b: u32) -> u32 {
    wrap(signed(a) * b / 0x1_0000_0000)
}

/// The high word of the product of two unsigned numbers.
#[verifier::opaque]
pub open spec fn multiply_high_unsigned(a: u32, b: u32) -> u32 {
    wrap(a * b / 0x1_0000_0000)
}

/// Signed division, rounded towards zero. Division by zero gives -1; the one
/// quotient that does not fit, of the least number by -1, wraps to the least
/// number.
#[verifier::opaque]
pub open spec fn divide(a: u32, b: u32) -> u32 {
    if b == 0 {
        0xFFFF_FFFF
    } else {
        wrap(truncated_quotient(signed(a), signed(b)))
    }
}

/// Unsigned division. Division by zero gives the greatest word.
#[verifier::opaque]
pub open spec fn divide_unsigned(a: u32, b: u32) -> u32 {
    if b == 0 {
        0xFFFF_FFFF
    } else {
        a / b
    }
}

/// The remainder of signed division; it has the sign of the dividend.
/// Division by zero leaves the dividend.
#[verifier::opaque]
pub open spec fn remainder(a: u32, b: u32) -> u32 {
    if b == 0 {
        a
    } else {
        wrap(truncated_remainder(signed(a), signed(b)))
    }
}

/// The remainder of unsigned division. Division by zero leaves the dividend.
#[verifier::opaque]
pub open spec fn remainder_unsigned(a: u32, b: u32) -> u32 {
    if b == 0 {
        a
    } else {
        a % b
    }
}

/// What an instruction asks of the machine, once its operands are read.
#[derive(Copy, Clone, Debug, PartialEq, Eq, Structural)]
pub enum Action {
    /// Nothing: a fence, a CSR access, a branch not taken.
    Nothing,
    /// Register `rd` takes `value`.
    Write { rd: IntRegister, value: u32 },
    /// The byte at `address` becomes `byte`.
    StoreByte { address: u32, byte: u8 },
    /// The two bytes at `address` take `halfword`, low byte first.
    StoreHalfword { address: u32, halfword: u16 },
    /// The four bytes at `address` take `word`, least significant first.
    StoreWord { address: u32, word: u32 },
    /// The program counter moves to `target`.
    Branch { target: u32 },
    /// Register `rd` takes the return address `link`, and the program
    /// counter moves to `target`.
    Jump { rd: IntRegister, link: u32, target: u32 },
    /// The instruction ends in `error`, and changes nothing.
    Trap { error: ProcessorError },
}

impl Action {
    /// Whether the action moves the program counter.
    pub open spec fn moves_pc(self) -> bool {
        self is Branch || self is Jump
    }

    /// Whether a memory of `size` bytes holds the bytes that the action stores.
    pub open spec fn fits(self, size: nat) -> bool {
        match self {
            Action::StoreByte { address, .. } => in_bounds(size, address, 1),
            Action::StoreHalfword { address, .. } => in_bounds(size, address, 2),
            Action::StoreWord { address, .. } => in_bounds(size, address, 4),
            _ => true,
        }
    }
}

/// The architectural state: program counter, count of executed instructions,
/// memory bytes, and the values of the thirty-two registers.
pub struct Machine {
    pub pc: u32,
    pub cycles: nat,
    pub memory: Seq<u8>,
    pub registers: Seq<u32>,
}

impl Machine {
    /// Thirty-two registers, the first of them zero, and a memory that 32-bit
    /// addresses can reach.
    pub open spec fn well_formed(self) -> bool {
        &&& self.registers.len() == 32
        &&& self.registers[0] == 0
        &&& self.memory.len() <= u32::MAX
    }

    /// The value of a register.
    pub open spec fn reg(self, reg: IntRegister) -> u32 {
        self.registers[reg.index() as int]
    }

    /// The state after a write to a register; register 0 ignores writes.
    pub open spec fn set_reg(self, rd: IntRegister, value: u32) -> Machine {
        if rd == IntRegister::Zero {
            self
        } else {
            Machine { registers: self.registers.update(rd.index() as int, value), ..self }
        }
    }

    /// The state with the program counter at `target`.
    pub open spec fn jump(self, target: u32) -> Machine {
        Machine { pc: target, ..self }
    }

    /// The state with one more instruction counted.
    pub open spec fn tick(self) -> Machine {
        Machine { cycles: self.cycles + 1, ..self }
    }

    /// The state with other memory contents.
    pub open spec fn set_memory(self, memory: Seq<u8>) -> Machine {
        Machine { memory, ..self }
    }

    /// The address of a load or a store: a register plus a signed offset.
    pub open spec fn address(self, rs1: IntRegister, imm: i16) -> u32 {
        wrap(self.reg(rs1) + imm)
    }

    /// A load of `width` bytes from `address` into `rd`, where `value` is what
    /// the bytes there stand for. Outside the memory the load is illegal.
    pub open spec fn load(self, rd: IntRegister, address: u32, width: nat, value: u32) -> Action {
        if in_bounds(self.memory.len(), address, width) {
            Action::Write { rd, value }
        } else {
            Action::Trap { error: ProcessorError::IllegalAccess }
        }
    }

    /// `store`, if the memory holds `width` bytes at `address`. Outside the
    /// memory the store is illegal.
    pub open spec fn store(self, address: u32, width: nat, store: Action) -> Action {
        if in_bounds(self.memory.len(), address, width) {
            store
        } else {
            Action::Trap { error: ProcessorError::IllegalAccess }
        }
    }

    /// A conditional branch: taken, it moves the program counter by `imm`.
    pub open spec fn branch(self, taken: bool, imm: i16) -> Action {
        if taken {
            Action::Branch { target: wrap(self.pc + imm) }
        } else {
            Action::Nothing
        }
    }
}

/// What `inst` asks of the machine in state `m`.
#[verifier::opaque]
pub open spec fn action(m: Machine, inst: Instruction) -> Action {
    match inst {
        Instruction::LUI { rd, imm } => Action::Write { rd, value: wrap(imm * 0x1000) },
        Instruction::AUIPC { rd, imm } => Action::Write { rd, value: wrap(m.pc + imm * 0x1000) },
        Instruction::LB { rd, rs1, imm } => {
            let address = m.address(rs1, imm);
            m.load(rd, address, 1, wrap(sign_extend(m.memory[address as int] as int, 0x80)))
        },
        Instruction::LH { rd, rs1, imm } => {
            let address = m.address(rs1, imm);
            m.load(
                rd,
                address,
                2,
                wrap(sign_extend(halfword_at(m.memory, address as int) as int, 0x8000)),
            )
        },
        Instruction::LW { rd, rs1, imm } => {
            let address = m.address(rs1, imm);
            m.load(rd, address, 4, word_at(m.memory, address as int))
        },
        Instruction::LBU { rd, rs1, imm } => {
            let address = m.address(rs1, imm);
            m.load(rd, address, 1, m.memory[address as int] as u32)
        },
        Instruction::LHU { rd, rs1, imm } => {
            let address = m.address(rs1, imm);
            m.load(rd, address, 2, halfword_at(m.memory, address as int) as u32)
        },
        Instruction::SB { rs1, rs2, imm } => {
            let address = m.address(rs1, imm);
            m.store(address, 1, Action::StoreByte { address, byte: low_byte(m.reg(rs2)) })
        },
        Instruction::SH { rs1, rs2, imm } => {
            let address = m.address(rs1, imm);
            m.store(
                address,
                2,
                Action::StoreHalfword { address, halfword: low_halfword(m.reg(rs2)) },
            )
        },
        Instruction::SW { rs1, rs2, imm } => {
            let address = m.address(rs1, imm);
            m.store(address, 4, Action::StoreWord { address, word: m.reg(rs2) })
        },
        Instruction::SLLI { rd, rs1, shamt } => Action::Write { rd, value: m.reg(rs1) << shamt },
        Instruction::SRLI { rd, rs1, shamt } => Action::Write { rd, value: m.reg(rs1) >> shamt },
        Instruction::SRAI { rd, rs1, shamt } => Action::Write {
            rd,
            value: arithmetic_shift_right(m.reg(rs1), shamt as u32),
        },
        Instruction::SLL { rd, rs1, rs2 } => Action::Write {
            rd,
            value: m.reg(rs1) << shift_amount(m.reg(rs2)),
        },
        Instruction::SRL { rd, rs1, rs2 } => Action::Write {
            rd,
            value: m.reg(rs1) >> shift_amount(m.reg(rs2)),
        },
        Instruction::SRA { rd, rs1, rs2 } => Action::Write {
            rd,
            value: arithmetic_shift_right(m.reg(rs1), shift_amount(m.reg(rs2))),
        },
        Instruction::ADDI { rd, rs1, imm } => Action::Write { rd, value: wrap(m.reg(rs1) + imm) },
        Instruction::ADD { rd, rs1, rs2 } => Action::Write {
            rd,
            value: wrap(m.reg(rs1) + m.reg(rs2)),
        },
        Instruction::SUB { rd, rs1, rs2 } => Action::Write {
            rd,
            value: wrap(m.reg(rs1) - m.reg(rs2)),
        },
        Instruction::ORI { rd, rs1, imm } => Action::Write {
            rd,
            value: m.reg(rs1) | wrap(imm as int),
        },
        Instruction::XORI { rd, rs1, imm } => Action::Write {
            rd,
            value: m.reg(rs1) ^ wrap(imm as int),
        },
        Instruction::ANDI { rd, rs1, imm } => Action::Write {
            rd,
            value: m.reg(rs1) & wrap(imm as int),
        },
        Instruction::OR { rd, rs1, rs2 } => Action::Write { rd, value: m.reg(rs1) | m.reg(rs2) },
        Instruction::XOR { rd, rs1, rs2 } => Action::Write { rd, value: m.reg(rs1) ^ m.reg(rs2) },
        Instruction::AND { rd, rs1, rs2 } => Action::Write { rd, value: m.reg(rs1) & m.reg(rs2) },
        Instruction::SLTI { rd, rs1, imm } => Action::Write {
            rd,
            value: flag(signed(m.reg(rs1)) < imm),
        },
        Instruction::SLTIU { rd, rs1, imm } => Action::Write {
            rd,
            value: flag(m.reg(rs1) < wrap(imm as int)),
        },
        Instruction::SLT { rd, rs1, rs2 } => Action::Write {
            rd,
            value: flag(signed(m.reg(rs1)) < signed(m.reg(rs2))),
        },
        Instruction::SLTU { rd, rs1, rs2 } => Action::Write {
            rd,
            value: flag(m.reg(rs1) < m.reg(rs2)),
        },
        Instruction::BEQ { rs1, rs2, imm } => m.branch(m.reg(rs1) == m.reg(rs2), imm),
        Instruction::BNE { rs1, rs2, imm } => m.branch(m.reg(rs1) != m.reg(rs2), imm),
        Instruction::BLT { rs1, rs2, imm } => m.branch(
            signed(m.reg(rs1)) < signed(m.reg(rs2)),
            imm,
        ),
        Instruction::BGE { rs1, rs2, imm } => m.branch(
            signed(m.reg(rs1)) >= signed(m.reg(rs2)),
            imm,
        ),
        Instruction::BLTU { rs1, rs2, imm } => m.branch(m.reg(rs1) < m.reg(rs2), imm),
        Instruction::BGEU { rs1, rs2, imm } => m.branch(m.reg(rs1) >= m.reg(rs2), imm),
        Instruction::JAL { rd, imm } => Action::Jump {
            rd,
            link: wrap(m.pc + 4),
            target: wrap(m.pc + imm),
        },
        Instruction::JALR { rd, rs1, imm } => Action::Jump {
            rd,
            link: wrap(m.pc + 4),
            target: clear_low_bit(wrap(m.reg(rs1) + imm)),
        },
        Instruction::FENCE { .. } | Instruction::FENCETSO | Instruction::FENCEI => Action::Nothing,
        Instruction::ECALL => Action::Trap { error: ProcessorError::Ecall },
        Instruction::EBREAK => Action::Trap { error: ProcessorError::Ebreak },
        Instruction::CSRRW { .. }
        | Instruction::CSRRS { .. }
        | Instruction::CSRRC { .. }
        | Instruction::CSRRWI { .. }
        | Instruction::CSRRSI { .. }
        | Instruction::CSRRCI { .. } => Action::Nothing,
        Instruction::MUL { rd, rs1, rs2 } => Action::Write {
            rd,
            value: multiply(m.reg(rs1), m.reg(rs2)),
        },
        Instruction::MULH { rd, rs1, rs2 } => Action::Write {
            rd,
            value: multiply_high(m.reg(rs1), m.reg(rs2)),
        },
        Instruction::MULHSU { rd, rs1, rs2 } => Action::Write {
            rd,
            value: multiply_high_mixed(m.reg(rs1), m.reg(rs2)),
        },
        Instruction::MULHU { rd, rs1, rs2 } => Action::Write {
            rd,
            value: multiply_high_unsigned(m.reg(rs1), m.reg(rs2)),
        },
        Instruction::DIV { rd, rs1, rs2 } => Action::Write {
            rd,
            value: divide(m.reg(rs1), m.reg(rs2)),
        },
        Instruction::DIVU { rd, rs1, rs2 } => Action::Write {
            rd,
            value: divide_unsigned(m.reg(rs1), m.reg(rs2)),
        },
        Instruction::REM { rd, rs1, rs2 } => Action::Write {
            rd,
            value: remainder(m.reg(rs1), m.reg(rs2)),
        },
        Instruction::REMU { rd, rs1, rs2 } => Action::Write {
            rd,
            value: remainder_unsigned(m.reg(rs1), m.reg(rs2)),
        },
    }
}

/// The state after `action` is carried out, and how the instruction ended.
pub open spec fn apply(m: Machine, action: Action) -> (Machine, Result<(), ProcessorError>) {
    match action {
        Action::Nothing => (m, Ok(())),
        Action::Write { rd, value } => (m.set_reg(rd, value), Ok(())),
        Action::StoreByte { address, byte } => (
            m.set_memory(m.memory.update(address as int, byte)),
            Ok(()),
        ),
        Action::StoreHalfword { address, halfword } => (
            m.set_memory(with_halfword(m.memory, address as int, halfword)),
            Ok(()),
        ),
        Action::StoreWord { address, word } => (
            m.set_memory(with_word(m.memory, address as int, word)),
            Ok(()),
        ),
        Action::Branch { target } => (m.jump(target), Ok(())),
        Action::Jump { rd, link, target } => (m.set_reg(rd, link).jump(target), Ok(())),
        Action::Trap { error } => (m, Err(error)),
    }
}

/// What executing `inst` does: the instruction is counted, whatever it ends
/// in, and what it asks for is carried out.
pub open spec fn execute(m: Machine, inst: Instruction) -> (Machine, Result<(), ProcessorError>) {
    apply(m.tick(), action(m, inst))
}

/// The instruction at the program counter. The program counter must lie
/// inside the memory, be a multiple of four, and leave room for a whole
/// word; the word there must decode.
pub open spec fn fetch(m: Machine) -> Result<Instruction, ProcessorError> {
    if m.pc >= m.memory.len() {
        Err(ProcessorError::IllegalFetch)
    } else if m.pc % 4 != 0 {
        Err(ProcessorError::MisalignedFetch)
    } else if m.pc + 4 > m.memory.len() {
        Err(ProcessorError::IllegalFetch)
    } else {
        match decode(word_at(m.memory, m.pc as int)) {
            Ok(inst) => Ok(inst),
            Err(_) => Err(ProcessorError::InvalidOpcode),
        }
    }
}

/// One step: fetch, execute, and, where the instruction succeeded and left
/// the program counter where it was, advance it by four. A failed fetch
/// changes nothing.
pub open spec fn step(m: Machine) -> (Machine, Result<(), ProcessorError>) {
    match fetch(m) {
        Err(error) => (m, Err(error)),
        Ok(inst) => {
            let (next, outcome) = execute(m, inst);
            if outcome is Ok && next.pc == m.pc {
                (next.jump(wrap(m.pc + 4)), outcome)
            } else {
                (next, outcome)
            }
        },
    }
}

/// At most `steps` steps: the run ends with the first step that does not
/// succeed. `ECALL` and `EBREAK` end it cleanly, anything else is its error.
pub open spec fn run(m: Machine, steps: nat) -> (Machine, Result<(), ProcessorError>)
    decreases steps,
{
    if steps == 0 {
        (m, Ok(()))
    } else {
        let (next, outcome) = step(m);
        match outcome {
            Ok(_) => run(next, (steps - 1) as nat),
            Err(ProcessorError::Ecall) | Err(ProcessorError::Ebreak) => (next, Ok(())),
            Err(error) => (next, Err(error)),
        }
    }
}

/// The number of bytes that a load or a store reads or writes; 0 for every
/// other instruction.
pub open spec fn access_width(inst: Instruction) -> nat {
    match inst {
        Instruction::LB { .. } | Instruction::LBU { .. } | Instruction::SB { .. } => 1,
        Instruction::LH { .. } | Instruction::LHU { .. } | Instruction::SH { .. } => 2,
        Instruction::LW { .. } | Instruction::SW { .. } => 4,
        _ => 0,
    }
}

/// The address that a load or a store reads or writes.
pub open spec fn access_address(m: Machine, inst: Instruction) -> u32 {
    match inst {
        Instruction::LB { rs1, imm, .. }
        | Instruction::LH { rs1, imm, .. }
        | Instruction::LW { rs1, imm, .. }
        | Instruction::LBU { rs1, imm, .. }
        | Instruction::LHU { rs1, imm, .. }
        | Instruction::SB { rs1, imm, .. }
        | Instruction::SH { rs1, imm, .. }
        | Instruction::SW { rs1, imm, .. } => m.address(rs1, imm),
        _ => 0,
    }
}

/// A load or a store succeeds exactly where the bytes it reads or writes lie
/// inside the memory. Anywhere else it is an illegal access, which is counted
/// and changes nothing besides.
pub proof fn lemma_access_bounds(m: Machine, inst: Instruction)
    requires
        access_width(inst) > 0,
    ensures
        in_bounds(m.memory.len(), access_address(m, inst), access_width(inst)) ==> execute(
            m,
            inst,
        ).1 is Ok,
        !in_bounds(m.memory.len(), access_address(m, inst), access_width(inst)) ==> execute(
            m,
            inst,
        ) == (m.tick(), Err::<(), ProcessorError>(ProcessorError::IllegalAccess)),
{
    reveal(action);
}

/// A word whose two low bits are not both set is no instruction: fetching it
/// fails with an invalid opcode.
pub proof fn lemma_fetch_rejects_compressed(m: Machine)
    requires
        m.pc % 4 == 0,
        m.pc + 4 <= m.memory.len(),
        word_at(m.memory, m.pc as int) % 4 != 3,
    ensures
        fetch(m) == Err::<Instruction, ProcessorError>(ProcessorError::InvalidOpcode),
{
    lemma_decode_rejects_compressed(word_at(m.memory, m.pc as int));
}

/// A store is only asked for where the memory holds its bytes.
pub proof fn lemma_action_fits(m: Machine, inst: Instruction)
    ensures
        action(m, inst).fits(m.memory.len()),
{
    reveal(action);
    inst.lemma_kinds();
}

/// Only jumps and branches ask to move the program counter.
pub proof fn lemma_action_moves_pc(m: Machine, inst: Instruction)
    requires
        action(m, inst).moves_pc(),
    ensures
        inst is JAL || inst is JALR || inst is BEQ || inst is BNE || inst is BLT || inst is BGE
            || inst is BLTU || inst is BGEU,
{
    reveal(action);
    inst.lemma_kinds();
}

/// Carrying out an action keeps the machine well-formed: register 0 stays
/// zero, and the memory keeps its size. The program counter moves only where
/// the action says so, and the count of instructions is left alone.
pub proof fn lemma_apply_well_formed(m: Machine, action: Action)
    requires
        m.well_formed(),
        action.fits(m.memory.len()),
    ensures
        apply(m, action).0.well_formed(),
        apply(m, action).0.memory.len() == m.memory.len(),
        apply(m, action).0.cycles == m.cycles,
        !action.moves_pc() ==> apply(m, action).0.pc == m.pc,
{
    match action {
        Action::Write { rd, value } => {
            IntRegister::lemma_index_round_trip(rd, 0);
            assert(m.set_reg(rd, value).well_formed());
        },
        Action::Jump { rd, link, target } => {
            IntRegister::lemma_index_round_trip(rd, 0);
            assert(m.set_reg(rd, link).well_formed());
        },
        _ => {},
    }
}

/// Executing an instruction counts it, once, however it ends.
pub proof fn lemma_execute_counts(m: Machine, inst: Instruction)
    ensures
        execute(m, inst).0.cycles == m.cycles + 1,
{
}

/// Executing an instruction keeps the machine well-formed.
pub proof fn lemma_execute_well_formed(m: Machine, inst: Instruction)
    requires
        m.well_formed(),
    ensures
        execute(m, inst).0.well_formed(),
        execute(m, inst).0.memory.len() == m.memory.len(),
{
    lemma_action_fits(m, inst);
    lemma_apply_well_formed(m.tick(), action(m, inst));
}

/// Only `ECALL` ends in the trap of its name, and only `EBREAK` in its own;
/// either leaves the machine as it was, but for the count.
pub proof fn lemma_traps(m: Machine, inst: Instruction)
    ensures
        execute(m, inst).1 == Err::<(), ProcessorError>(ProcessorError::Ecall) <==> inst
            == Instruction::ECALL,
        execute(m, inst).1 == Err::<(), ProcessorError>(ProcessorError::Ebreak) <==> inst
            == Instruction::EBREAK,
        execute(m, inst).1 is Err ==> execute(m, inst).0 == m.tick(),
{
    reveal(action);
    inst.lemma_kinds();
}

/// A run never counts more instructions than it was given steps. Its error,
/// if it ends in one, is neither of the two traps. And where it ends cleanly
/// before its steps are used up, it has stopped at an `ECALL` or an `EBREAK`,
/// which is the instruction at the program counter of the state it ends in.
pub proof fn lemma_run_ends(m: Machine, steps: nat)
    ensures
        run(m, steps).0.cycles <= m.cycles + steps,
        run(m, steps).1 matches Err(error) ==> error != ProcessorError::Ecall && error
            != ProcessorError::Ebreak,
        run(m, steps).1 is Ok && run(m, steps).0.cycles < m.cycles + steps ==> fetch(
            run(m, steps).0,
        ) == Ok::<Instruction, ProcessorError>(Instruction::ECALL) || fetch(run(m, steps).0)
            == Ok::<Instruction, ProcessorError>(Instruction::EBREAK),
    decreases steps,
{
    if steps > 0 {
        let (next, outcome) = step(m);
        match fetch(m) {
            Ok(inst) => {
                lemma_traps(m, inst);
                assert(fetch(m.tick()) == fetch(m));
            },
            Err(_) => {},
        }
        if outcome is Ok {
            lemma_run_ends(next, (steps - 1) as nat);
        }
    }
}

/// A step keeps the machine well-formed, whatever it ends in.
pub proof fn lemma_step_well_formed(m: Machine)
    requires
        m.well_formed(),
    ensures
        step(m).0.well_formed(),
        step(m).0.memory.len() == m.memory.len(),
{
    if let Ok(inst) = fetch(m) {
        lemma_execute_well_formed(m, inst);
    }
}

/// Instructions other than jumps and branches never move the program
/// counter.
pub proof fn lemma_pc_untouched(m: Machine, inst: Instruction)
    requires
        !(inst is JAL || inst is JALR || inst is BEQ || inst is BNE || inst is BLT || inst is BGE
            || inst is BLTU || inst is BGEU),
    ensures
        execute(m, inst).0.pc == m.pc,
{
    if action(m, inst).moves_pc() {
        lemma_action_moves_pc(m, inst);
    }
}

/// Where an instruction succeeds and leaves the program counter alone, the
/// step advances the program counter by exactly four.
pub proof fn lemma_step_advances(m: Machine)
    requires
        m.well_formed(),
        fetch(m) matches Ok(inst) && execute(m, inst).1 is Ok && execute(m, inst).0.pc == m.pc,
    ensures
        step(m).0.pc == m.pc + 4,
        step(m).1 is Ok,
{
    reveal(wrap);
}

/// A step of an instruction that is neither a jump nor a branch, and that
/// succeeds, advances the program counter by exactly four.
pub proof fn lemma_step_sequential(m: Machine)
    requires
        m.well_formed(),
        fetch(m) matches Ok(inst) && execute(m, inst).1 is Ok && !(inst is JAL || inst is JALR
            || inst is BEQ || inst is BNE || inst is BLT || inst is BGE || inst is BLTU
            || inst is BGEU),
    ensures
        step(m).0.pc == m.pc + 4,
{
    reveal(wrap);
    lemma_pc_untouched(m, fetch(m)->Ok_0);
}

} // verus!
