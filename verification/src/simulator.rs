//! The simulator: a processor driven step by step, with an optional log of
//! the instructions it executed.
//!
//! The log is text that the simulator appends to, one line for each
//! instruction that succeeded; whoever drives the simulator takes it out and
//! writes it where it belongs.

use crate::alu;
use crate::instruction::{rd_field, register_fields, rs1_field, rs2_field, Instruction};
use crate::machine;
use crate::machine::Machine;
use crate::memory::{load_program, word_at, Memory, ProgramError};
use crate::processor::{Processor, ProcessorError};
use crate::text::{hex, push_hex, push_two_digits, two_digits};
use vstd::prelude::*;

verus! {

/// One register in a log line: its number in two digits and its value in
/// eight hexadecimal digits.
pub open spec fn log_entry(index: u32, registers: Seq<u32>) -> Seq<char> {
    "[x"@ + two_digits(index as nat) + "="@ + hex(registers[index as int] as nat, 8) + "]"@
}

/// The log line of one instruction: the address it was fetched from, the
/// word that encodes it, the registers that the word's three register fields
/// name, with their values after the instruction, and the instruction's text.
pub open spec fn log_line(pc: u32, word: u32, registers: Seq<u32>, inst: Instruction) -> Seq<
    char,
> {
    "[PC="@ + hex(pc as nat, 8) + "] ["@ + hex(word as nat, 8) + "] "@ + log_entry(
        rd_field(word),
        registers,
    ) + " "@ + log_entry(rs1_field(word), registers) + " "@ + log_entry(
        rs2_field(word),
        registers,
    ) + " "@ + inst.text() + "\n"@
}

/// The log line of the step that the machine takes from state `m`.
pub open spec fn step_line(m: Machine) -> Seq<char> {
    log_line(
        m.pc,
        word_at(m.memory, m.pc as int),
        machine::step(m).0.registers,
        machine::fetch(m)->Ok_0,
    )
}

/// The log of a run of at most `steps` steps from state `m`: the lines of the
/// steps that succeeded, in order.
pub open spec fn trace(m: Machine, steps: nat) -> Seq<char>
    decreases steps,
{
    if steps == 0 || machine::step(m).1 is Err {
        Seq::empty()
    } else {
        step_line(m) + trace(machine::step(m).0, (steps - 1) as nat)
    }
}

/// A simulator as a mathematical value: the machine, and the log if one is
/// kept.
pub struct SimulatorView {
    pub machine: Machine,
    pub log: Option<Seq<char>>,
}

impl SimulatorView {
    /// The state with `lines` appended to the log, if a log is kept.
    pub open spec fn logged(self, lines: Seq<char>) -> SimulatorView {
        match self.log {
            Some(log) => SimulatorView { log: Some(log + lines), ..self },
            None => self,
        }
    }
}

/// A processor and, where one is kept, the log of what it executed.
#[derive(Debug)]
pub struct Simulator {
    processor: Processor,
    logger: Option<String>,
}

impl View for Simulator {
    type V = SimulatorView;

    closed spec fn view(&self) -> SimulatorView {
        SimulatorView {
            machine: self.processor@,
            log: match self.logger {
                Some(text) => Some(text@),
                None => None,
            },
        }
    }
}

/// The state in which a simulator starts, or why it does not: a memory of
/// `memsize` zero bytes with the program loaded, the stack pointer at the
/// memory's last address, and the program counter at `pc`, or at the
/// program's entry point where none is given.
pub open spec fn start(program: Seq<u8>, memsize: u32, pc: Option<u32>) -> Result<
    Machine,
    ProgramError,
> {
    let (memory, entry) = load_program(Seq::new(memsize as nat, |i: int| 0u8), program);
    match entry {
        Err(error) => Err(error),
        Ok(entry) => Ok(
            Machine {
                pc: match pc {
                    Some(pc) => pc,
                    None => entry,
                },
                cycles: 0,
                memory,
                registers: Seq::new(32, |i: int| 0u32).update(2, (memsize - 1) as u32),
            },
        ),
    }
}

/// After a step that succeeded, one more instruction is counted; a step that
/// could not fetch changes nothing.
pub proof fn lemma_step_counts(m: Machine)
    ensures
        machine::step(m).1 is Ok ==> machine::step(m).0.cycles == m.cycles + 1,
        machine::step(m).0.cycles <= m.cycles + 1,
{
}

impl Simulator {
    /// A simulator with a memory of `memsize` bytes and the program in
    /// `program`, the bytes of an ELF file, loaded into it. The program
    /// starts at `pc`, or at its entry point where `pc` is `None`. With a
    /// `logger` the simulator keeps a log, which it appends to that string.
    pub fn new(program: &[u8], memsize: u32, pc: Option<u32>, logger: Option<String>) -> (r: Result<
        Self,
        ProgramError,
    >)
        requires
            memsize > 0,
        ensures
            match start(program@, memsize, pc) {
                Ok(machine) => r matches Ok(simulator) && simulator@.machine == machine
                    && simulator@.log == match logger {
                    Some(text) => Some(text@),
                    None => None,
                },
                Err(error) => r matches Err(e) && e == error,
            },
    {
        let mut memory = Memory::new(memsize);
        let def_pc = match memory.load_program(program) {
            Ok(entry) => entry,
            Err(error) => {
                return Err(error);
            },
        };
        let mut processor = Processor::new(memory);
        processor.set_pc(
            if let Some(pc) = pc {
                pc
            } else {
                def_pc
            },
        );
        Ok(Self { processor, logger })
    }

    /// A simulator that drives `processor` from the state it is in.
    pub fn with_processor(processor: Processor, logger: Option<String>) -> (simulator: Self)
        ensures
            simulator@.machine == processor@,
            simulator@.log == match logger {
                Some(text) => Some(text@),
                None => None,
            },
    {
        Self { processor, logger }
    }

    /// The processor.
    pub fn processor(&self) -> (processor: &Processor)
        ensures
            processor@ == self@.machine,
    {
        &self.processor
    }

    /// The number of instructions executed so far.
    pub fn cycles(&self) -> (cycles: usize)
        ensures
            cycles == self@.machine.cycles,
    {
        self.processor.cycles()
    }

    /// Takes the log out: returns what was logged since the log was last
    /// taken, and leaves an empty log behind. Without a log, the result is
    /// empty.
    pub fn take_log(&mut self) -> (log: String)
        ensures
            final(self)@.machine == old(self)@.machine,
            match old(self)@.log {
                Some(text) => log@ == text && final(self)@.log == Some(Seq::<char>::empty()),
                None => log@ == Seq::<char>::empty() && final(self)@.log is None,
            },
    {
        match self.logger.take() {
            Some(text) => {
                self.logger = Some(String::new());
                text
            },
            None => String::new(),
        }
    }

    /// One step: fetches the instruction at the program counter and executes
    /// it; where it succeeded and left the program counter alone, advances
    /// the program counter by four; and logs the instruction, if a log is
    /// kept. A step that ends in an error logs nothing.
    pub fn step(&mut self) -> (r: Result<(), ProcessorError>)
        requires
            old(self)@.machine.cycles < usize::MAX,
        ensures
            final(self)@.machine == machine::step(old(self)@.machine).0,
            r == machine::step(old(self)@.machine).1,
            final(self)@ == if r is Ok {
                (SimulatorView { machine: final(self)@.machine, ..old(self)@ }).logged(
                    step_line(old(self)@.machine),
                )
            } else {
                SimulatorView { machine: final(self)@.machine, ..old(self)@ }
            },
    {
        let pc = self.processor.pc();
        let inst = match self.processor.fetch() {
            Ok(inst) => inst,
            Err(error) => {
                return Err(error);
            },
        };
        let raw_inst = self.processor.memory().read_word(pc);
        match self.processor.execute(inst) {
            Ok(()) => {},
            Err(error) => {
                return Err(error);
            },
        }

        if pc == self.processor.pc() {
            self.processor.set_pc(alu::next_instruction(pc));
        }
        if let Some(mut logger) = self.logger.take() {
            push_line(&mut logger, pc, raw_inst, self.processor.registers(), &inst);
            self.logger = Some(logger);
        }
        Ok(())
    }

    /// Runs the program: steps until a step does not succeed. `ECALL` and
    /// `EBREAK` end the run cleanly; any other error is returned. The run
    /// also ends, cleanly, when the count of executed instructions has
    /// reached the greatest number that it can hold.
    pub fn run(&mut self) -> (r: Result<(), ProcessorError>)
        ensures
            final(self)@.machine == machine::run(
                old(self)@.machine,
                (usize::MAX - old(self)@.machine.cycles) as nat,
            ).0,
            r == machine::run(
                old(self)@.machine,
                (usize::MAX - old(self)@.machine.cycles) as nat,
            ).1,
            final(self)@ == (SimulatorView { machine: final(self)@.machine, ..old(self)@ }).logged(
                trace(old(self)@.machine, (usize::MAX - old(self)@.machine.cycles) as nat),
            ),
    {
        let ghost start = self@;
        let ghost fuel = (usize::MAX - start.machine.cycles) as nat;
        proof {
            self.processor.lemma_cycles_bounded();
            if start.log is Some {
                assert(start.log->0 + Seq::<char>::empty() =~= start.log->0);
            }
        }
        let ghost mut logged = Seq::<char>::empty();
        loop
            invariant
                start == old(self)@,
                fuel == usize::MAX - start.machine.cycles,
                self@.machine.cycles <= usize::MAX,
                machine::run(start.machine, fuel) == machine::run(
                    self@.machine,
                    (usize::MAX - self@.machine.cycles) as nat,
                ),
                logged + trace(self@.machine, (usize::MAX - self@.machine.cycles) as nat) == trace(
                    start.machine,
                    fuel,
                ),
                self@ == (SimulatorView { machine: self@.machine, ..start }).logged(logged),
            decreases usize::MAX - self@.machine.cycles,
        {
            if self.processor.cycles() == usize::MAX {
                proof {
                    assert(logged + Seq::<char>::empty() =~= logged);
                }
                return Ok(());
            }
            let ghost before = self@;
            let ghost remaining = (usize::MAX - before.machine.cycles) as nat;
            proof {
                lemma_step_counts(before.machine);
            }
            match self.step() {
                Ok(()) => {
                    proof {
                        self.processor.lemma_cycles_bounded();
                        let line = step_line(before.machine);
                        let rest = trace(self@.machine, (remaining - 1) as nat);
                        assert((logged + line) + rest =~= logged + (line + rest));
                        if start.log is Some {
                            assert((start.log->0 + logged) + line =~= start.log->0 + (logged
                                + line));
                        }
                        logged = logged + line;
                    }
                },
                Err(ProcessorError::Ecall) | Err(ProcessorError::Ebreak) => {
                    proof {
                        assert(logged + Seq::<char>::empty() =~= logged);
                    }
                    return Ok(());
                },
                Err(error) => {
                    proof {
                        assert(logged + Seq::<char>::empty() =~= logged);
                    }
                    return Err(error);
                },
            }
        }
    }
}

/// Appends the log line of one instruction.
fn push_line(
    text: &mut String,
    pc: u32,
    word: u32,
    registers: &crate::register::IntRegisterSet,
    inst: &Instruction,
)
    ensures
        final(text)@ == old(text)@ + log_line(pc, word, registers@, *inst),
{
    let (rd_id, rs1_id, rs2_id) = register_fields(word);
    text.append("[PC=");
    push_hex(text, pc, 8);
    text.append("] [");
    push_hex(text, word, 8);
    text.append("] ");
    push_entry(text, rd_id, registers);
    text.append(" ");
    push_entry(text, rs1_id, registers);
    text.append(" ");
    push_entry(text, rs2_id, registers);
    text.append(" ");
    text.append(inst.to_string().as_str());
    text.append("\n");
    assert(final(text)@ =~= old(text)@ + log_line(pc, word, registers@, *inst));
}

/// Appends one register of a log line.
fn push_entry(text: &mut String, index: u8, registers: &crate::register::IntRegisterSet)
    requires
        index < 32,
    ensures
        final(text)@ == old(text)@ + log_entry(index as u32, registers@),
{
    let reg = crate::register::IntRegister::try_from(index).unwrap();
    text.append("[x");
    push_two_digits(text, index);
    text.append("=");
    push_hex(text, registers.read(reg), 8);
    text.append("]");
    proof {
        crate::register::IntRegister::lemma_index_round_trip(reg, index as nat);
        assert(final(text)@ =~= old(text)@ + log_entry(index as u32, registers@));
    }
}

} // verus!
