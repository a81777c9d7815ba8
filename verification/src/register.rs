//! The integer register file: thirty-two 32-bit registers, of which the first
//! is hardwired to zero.

use crate::text::{hex, push_hex, push_right_aligned, right_aligned};
use vstd::prelude::*;

verus! {

/// One of the thirty-two integer registers, under its ABI name.
#[derive(Copy, Clone, Debug, PartialEq, Eq, Structural)]
pub enum IntRegister {
    Zero,
    RA,
    SP,
    GP,
    TP,
    T0,
    T1,
    T2,
    S0,
    S1,
    A0,
    A1,
    A2,
    A3,
    A4,
    A5,
    A6,
    A7,
    S2,
    S3,
    S4,
    S5,
    S6,
    S7,
    S8,
    S9,
    S10,
    S11,
    T3,
    T4,
    T5,
    T6,
}

impl IntRegister {
    /// The register's number, from 0 for `zero` to 31 for `t6`.
    pub open spec fn index(self) -> nat {
        match self {
            IntRegister::Zero => 0,
            IntRegister::RA => 1,
            IntRegister::SP => 2,
            IntRegister::GP => 3,
            IntRegister::TP => 4,
            IntRegister::T0 => 5,
            IntRegister::T1 => 6,
            IntRegister::T2 => 7,
            IntRegister::S0 => 8,
            IntRegister::S1 => 9,
            IntRegister::A0 => 10,
            IntRegister::A1 => 11,
            IntRegister::A2 => 12,
            IntRegister::A3 => 13,
            IntRegister::A4 => 14,
            IntRegister::A5 => 15,
            IntRegister::A6 => 16,
            IntRegister::A7 => 17,
            IntRegister::S2 => 18,
            IntRegister::S3 => 19,
            IntRegister::S4 => 20,
            IntRegister::S5 => 21,
            IntRegister::S6 => 22,
            IntRegister::S7 => 23,
            IntRegister::S8 => 24,
            IntRegister::S9 => 25,
            IntRegister::S10 => 26,
            IntRegister::S11 => 27,
            IntRegister::T3 => 28,
            IntRegister::T4 => 29,
            IntRegister::T5 => 30,
            IntRegister::T6 => 31,
        }
    }

    /// The register with the given number; `t6` stands for every number above 31.
    pub open spec fn from_index(index: nat) -> IntRegister {
        if index == 0 {
            IntRegister::Zero
        } else if index == 1 {
            IntRegister::RA
        } else if index == 2 {
            IntRegister::SP
        } else if index == 3 {
            IntRegister::GP
        } else if index == 4 {
            IntRegister::TP
        } else if index == 5 {
            IntRegister::T0
        } else if index == 6 {
            IntRegister::T1
        } else if index == 7 {
            IntRegister::T2
        } else if index == 8 {
            IntRegister::S0
        } else if index == 9 {
            IntRegister::S1
        } else if index == 10 {
            IntRegister::A0
        } else if index == 11 {
            IntRegister::A1
        } else if index == 12 {
            IntRegister::A2
        } else if index == 13 {
            IntRegister::A3
        } else if index == 14 {
            IntRegister::A4
        } else if index == 15 {
            IntRegister::A5
        } else if index == 16 {
            IntRegister::A6
        } else if index == 17 {
            IntRegister::A7
        } else if index == 18 {
            IntRegister::S2
        } else if index == 19 {
            IntRegister::S3
        } else if index == 20 {
            IntRegister::S4
        } else if index == 21 {
            IntRegister::S5
        } else if index == 22 {
            IntRegister::S6
        } else if index == 23 {
            IntRegister::S7
        } else if index == 24 {
            IntRegister::S8
        } else if index == 25 {
            IntRegister::S9
        } else if index == 26 {
            IntRegister::S10
        } else if index == 27 {
            IntRegister::S11
        } else if index == 28 {
            IntRegister::T3
        } else if index == 29 {
            IntRegister::T4
        } else if index == 30 {
            IntRegister::T5
        } else {
            IntRegister::T6
        }
    }

    /// The register's ABI name.
    pub open spec fn name(self) -> Seq<char> {
        match self {
            IntRegister::Zero => "zero"@,
            IntRegister::RA => "ra"@,
            IntRegister::SP => "sp"@,
            IntRegister::GP => "gp"@,
            IntRegister::TP => "tp"@,
            IntRegister::T0 => "t0"@,
            IntRegister::T1 => "t1"@,
            IntRegister::T2 => "t2"@,
            IntRegister::S0 => "s0"@,
            IntRegister::S1 => "s1"@,
            IntRegister::A0 => "a0"@,
            IntRegister::A1 => "a1"@,
            IntRegister::A2 => "a2"@,
            IntRegister::A3 => "a3"@,
            IntRegister::A4 => "a4"@,
            IntRegister::A5 => "a5"@,
            IntRegister::A6 => "a6"@,
            IntRegister::A7 => "a7"@,
            IntRegister::S2 => "s2"@,
            IntRegister::S3 => "s3"@,
            IntRegister::S4 => "s4"@,
            IntRegister::S5 => "s5"@,
            IntRegister::S6 => "s6"@,
            IntRegister::S7 => "s7"@,
            IntRegister::S8 => "s8"@,
            IntRegister::S9 => "s9"@,
            IntRegister::S10 => "s10"@,
            IntRegister::S11 => "s11"@,
            IntRegister::T3 => "t3"@,
            IntRegister::T4 => "t4"@,
            IntRegister::T5 => "t5"@,
            IntRegister::T6 => "t6"@,
        }
    }

    /// Numbering the registers loses nothing: a register is found again by its
    /// number, and every number below 32 is the number of the register it names.
    pub proof fn lemma_index_round_trip(reg: IntRegister, index: nat)
        ensures
            reg.index() < 32,
            IntRegister::from_index(reg.index()) == reg,
            index < 32 ==> IntRegister::from_index(index).index() == index,
            reg.index() == 0 <==> reg == IntRegister::Zero,
    {
    }

    /// Every ABI name has between two and four characters.
    pub proof fn lemma_name_len(reg: IntRegister)
        ensures
            2 <= reg.name().len() <= 4,
    {
        reveal_strlit("zero");
        reveal_strlit("ra");
        reveal_strlit("sp");
        reveal_strlit("gp");
        reveal_strlit("tp");
        reveal_strlit("t0");
        reveal_strlit("t1");
        reveal_strlit("t2");
        reveal_strlit("s0");
        reveal_strlit("s1");
        reveal_strlit("a0");
        reveal_strlit("a1");
        reveal_strlit("a2");
        reveal_strlit("a3");
        reveal_strlit("a4");
        reveal_strlit("a5");
        reveal_strlit("a6");
        reveal_strlit("a7");
        reveal_strlit("s2");
        reveal_strlit("s3");
        reveal_strlit("s4");
        reveal_strlit("s5");
        reveal_strlit("s6");
        reveal_strlit("s7");
        reveal_strlit("s8");
        reveal_strlit("s9");
        reveal_strlit("s10");
        reveal_strlit("s11");
        reveal_strlit("t3");
        reveal_strlit("t4");
        reveal_strlit("t5");
        reveal_strlit("t6");
    }

    /// The register's number.
    pub fn number(self) -> (number: usize)
        ensures
            number == self.index(),
            number < 32,
    {
        match self {
            IntRegister::Zero => 0,
            IntRegister::RA => 1,
            IntRegister::SP => 2,
            IntRegister::GP => 3,
            IntRegister::TP => 4,
            IntRegister::T0 => 5,
            IntRegister::T1 => 6,
            IntRegister::T2 => 7,
            IntRegister::S0 => 8,
            IntRegister::S1 => 9,
            IntRegister::A0 => 10,
            IntRegister::A1 => 11,
            IntRegister::A2 => 12,
            IntRegister::A3 => 13,
            IntRegister::A4 => 14,
            IntRegister::A5 => 15,
            IntRegister::A6 => 16,
            IntRegister::A7 => 17,
            IntRegister::S2 => 18,
            IntRegister::S3 => 19,
            IntRegister::S4 => 20,
            IntRegister::S5 => 21,
            IntRegister::S6 => 22,
            IntRegister::S7 => 23,
            IntRegister::S8 => 24,
            IntRegister::S9 => 25,
            IntRegister::S10 => 26,
            IntRegister::S11 => 27,
            IntRegister::T3 => 28,
            IntRegister::T4 => 29,
            IntRegister::T5 => 30,
            IntRegister::T6 => 31,
        }
    }

    /// The register's ABI name.
    pub fn as_str(self) -> (name: &'static str)
        ensures
            name@ == self.name(),
    {
        match self {
            IntRegister::Zero => "zero",
            IntRegister::RA => "ra",
            IntRegister::SP => "sp",
            IntRegister::GP => "gp",
            IntRegister::TP => "tp",
            IntRegister::T0 => "t0",
            IntRegister::T1 => "t1",
            IntRegister::T2 => "t2",
            IntRegister::S0 => "s0",
            IntRegister::S1 => "s1",
            IntRegister::A0 => "a0",
            IntRegister::A1 => "a1",
            IntRegister::A2 => "a2",
            IntRegister::A3 => "a3",
            IntRegister::A4 => "a4",
            IntRegister::A5 => "a5",
            IntRegister::A6 => "a6",
            IntRegister::A7 => "a7",
            IntRegister::S2 => "s2",
            IntRegister::S3 => "s3",
            IntRegister::S4 => "s4",
            IntRegister::S5 => "s5",
            IntRegister::S6 => "s6",
            IntRegister::S7 => "s7",
            IntRegister::S8 => "s8",
            IntRegister::S9 => "s9",
            IntRegister::S10 => "s10",
            IntRegister::S11 => "s11",
            IntRegister::T3 => "t3",
            IntRegister::T4 => "t4",
            IntRegister::T5 => "t5",
            IntRegister::T6 => "t6",
        }
    }

    /// The register's ABI name, as an owned string.
    pub fn to_string(&self) -> (text: String)
        ensures
            text@ == self.name(),
    {
        String::from_str(self.as_str())
    }
}

impl TryFrom<u8> for IntRegister {
    type Error = ();

    fn try_from(reg: u8) -> (r: Result<Self, Self::Error>) {
        match reg {
            0 => Ok(IntRegister::Zero),
            1 => Ok(IntRegister::RA),
            2 => Ok(IntRegister::SP),
            3 => Ok(IntRegister::GP),
            4 => Ok(IntRegister::TP),
            5 => Ok(IntRegister::T0),
            6 => Ok(IntRegister::T1),
            7 => Ok(IntRegister::T2),
            8 => Ok(IntRegister::S0),
            9 => Ok(IntRegister::S1),
            10 => Ok(IntRegister::A0),
            11 => Ok(IntRegister::A1),
            12 => Ok(IntRegister::A2),
            13 => Ok(IntRegister::A3),
            14 => Ok(IntRegister::A4),
            15 => Ok(IntRegister::A5),
            16 => Ok(IntRegister::A6),
            17 => Ok(IntRegister::A7),
            18 => Ok(IntRegister::S2),
            19 => Ok(IntRegister::S3),
            20 => Ok(IntRegister::S4),
            21 => Ok(IntRegister::S5),
            22 => Ok(IntRegister::S6),
            23 => Ok(IntRegister::S7),
            24 => Ok(IntRegister::S8),
            25 => Ok(IntRegister::S9),
            26 => Ok(IntRegister::S10),
            27 => Ok(IntRegister::S11),
            28 => Ok(IntRegister::T3),
            29 => Ok(IntRegister::T4),
            30 => Ok(IntRegister::T5),
            31 => Ok(IntRegister::T6),
            _ => Err(()),
        }
    }
}

impl vstd::std_specs::convert::TryFromSpecImpl<u8> for IntRegister {
    open spec fn obeys_try_from_spec() -> bool {
        true
    }

    /// A number below 32 gives the register with that number; any other is refused.
    open spec fn try_from_spec(reg: u8) -> Result<Self, Self::Error> {
        if reg < 32 {
            Ok(IntRegister::from_index(reg as nat))
        } else {
            Err(())
        }
    }
}

/// One register in a dump of the register file: its name, right-aligned in
/// four columns, and its value in eight hexadecimal digits.
pub open spec fn dump_entry(index: nat, registers: Seq<u32>) -> Seq<char> {
    right_aligned(IntRegister::from_index(index).name(), 4) + "=0x"@ + hex(
        registers[index as int] as nat,
        8,
    )
}

/// One line of a dump: four registers in a row.
pub open spec fn dump_line(line: nat, registers: Seq<u32>) -> Seq<char> {
    dump_entry(4 * line, registers) + " "@ + dump_entry(4 * line + 1, registers) + " "@
        + dump_entry(4 * line + 2, registers) + " "@ + dump_entry(4 * line + 3, registers) + "\n"@
}

/// The first `count` lines of a dump.
pub open spec fn dump_lines(count: nat, registers: Seq<u32>) -> Seq<char>
    decreases count,
{
    if count == 0 {
        Seq::empty()
    } else {
        dump_lines((count - 1) as nat, registers) + dump_line((count - 1) as nat, registers)
    }
}

/// A dump of the register file: eight lines of four registers.
pub open spec fn dump(registers: Seq<u32>) -> Seq<char> {
    dump_lines(8, registers)
}

/// The register file. Its view is the sequence of the thirty-two register
/// values; the value at index 0 is 0 in every state.
#[derive(Copy, Clone, Debug)]
pub struct IntRegisterSet {
    reg: [u32; 32],
}

impl View for IntRegisterSet {
    type V = Seq<u32>;

    closed spec fn view(&self) -> Seq<u32> {
        self.reg@.update(0, 0u32)
    }
}

impl IntRegisterSet {
    #[verifier::type_invariant]
    spec fn zero_is_zero(self) -> bool {
        self.reg@[0] == 0
    }

    /// In every state the file holds thirty-two values and register 0 holds 0.
    pub proof fn lemma_zero_register(self)
        ensures
            self@.len() == 32,
            self@[0] == 0,
    {
    }

    /// A register file in which every register holds 0.
    pub fn new() -> (registers: Self)
        ensures
            registers@ == Seq::new(32, |i: int| 0u32),
    {
        let reg = [0u32; 32];
        let registers = Self { reg };
        assert(registers@ =~= Seq::new(32, |i: int| 0u32));
        registers
    }

    /// Appends one register of a dump.
    fn push_entry(&self, text: &mut String, index: u8)
        requires
            index < 32,
        ensures
            final(text)@ == old(text)@ + dump_entry(index as nat, self@),
    {
        proof {
            use_type_invariant(self);
        }
        let reg = IntRegister::try_from(index).unwrap();
        push_right_aligned(text, reg.as_str(), 4);
        text.append("=0x");
        push_hex(text, self.reg[index as usize], 8);
        assert(final(text)@ =~= old(text)@ + dump_entry(index as nat, self@));
    }

    /// A dump of the register file: eight lines of four registers, each with
    /// its name and its value in hexadecimal.
    pub fn to_string(&self) -> (text: String)
        ensures
            text@ == dump(self@),
    {
        let mut text = String::new();
        let mut line: u8 = 0;
        while line < 8
            invariant
                line <= 8,
                text@ == dump_lines(line as nat, self@),
            decreases 8 - line,
        {
            let ghost before = text@;
            self.push_entry(&mut text, 4 * line);
            text.append(" ");
            self.push_entry(&mut text, 4 * line + 1);
            text.append(" ");
            self.push_entry(&mut text, 4 * line + 2);
            text.append(" ");
            self.push_entry(&mut text, 4 * line + 3);
            text.append("\n");
            assert(text@ =~= before + dump_line(line as nat, self@));
            line += 1;
        }
        text
    }

    /// The value of `reg`; 0 for register 0.
    pub fn read(&self, reg: IntRegister) -> (val: u32)
        ensures
            val == self@[reg.index() as int],
            reg == IntRegister::Zero ==> val == 0,
    {
        proof {
            use_type_invariant(self);
        }
        self.reg[reg.number()]
    }

    /// Stores `val` in `reg`, unless `reg` is register 0, which ignores writes.
    pub fn write(&mut self, reg: IntRegister, val: u32)
        ensures
            final(self)@ == if reg == IntRegister::Zero {
                old(self)@
            } else {
                old(self)@.update(reg.index() as int, val)
            },
    {
        proof {
            use_type_invariant(&*self);
        }
        let index = reg.number();
        if index != 0 {
            self.reg[index] = val;
        }
        assert(final(self)@ =~= if reg == IntRegister::Zero {
            old(self)@
        } else {
            old(self)@.update(reg.index() as int, val)
        });
    }
}

} // verus!
