//! The instruction model: the decoded form of every supported instruction, and
//! the decoder from 32-bit words.
//!
//! The decoder is specified by [`decode`], which reads the fields of a word as
//! the instruction-set manual lays them out, opcode by opcode. The executable
//! decoder goes by instruction format and slices the bits; it is proved to
//! agree with [`decode`] on every word.

use crate::register::IntRegister;
use vstd::prelude::*;

verus! {

/// The layout of an instruction's fields.
///
/// ```text
///      | 31        25 | 24 20 | 19 15 | 14  12 | 11        7 | 6    0 |
///  R   | ---funct7--- | -rs2- | -rs1- | funct3 | ----rd----- | opcode |
///  R4  | rs3 | funct2 | -rs2- | -rs1- | funct3 | ----rd----- | opcode |
///  I   | -----imm[11:0]------ | -rs1- | funct3 | ----rd----- | opcode |
///  S   | -imm[11:5]-- | -rs2- | -rs1- | funct3 | -imm[4:0]-- | opcode |
///  B   | imm[12|10:5] | -rs2- | -rs1- | funct3 | imm[4:1|11] | opcode |
///  U   | -------------imm[31:12]-------------- | ----rd----- | opcode |
///  J   | --------imm[20|10:1|11|19:12]-------- | ----rd----- | opcode |
/// ```
#[derive(Copy, Clone, Debug, PartialEq, Eq, Structural)]
pub enum InstructionFormat {
    R,
    R4,
    I,
    S,
    B,
    U,
    J,
}

impl InstructionFormat {
    /// The format that an opcode selects. The two low bits of a 32-bit
    /// instruction's opcode are set; the five bits above them name the major
    /// opcode, and the reserved major opcodes have no format.
    pub open spec fn of_opcode(opcode: u8) -> Option<InstructionFormat> {
        let major = opcode / 4 % 32;
        if opcode % 4 != 3 {
            None
        } else if major == 0 || major == 1 || major == 3 || major == 4 || major == 6 || major == 25
            || major == 28 {
            Some(InstructionFormat::I)
        } else if major == 5 || major == 13 {
            Some(InstructionFormat::U)
        } else if major == 8 || major == 9 {
            Some(InstructionFormat::S)
        } else if major == 11 || major == 12 || major == 14 || major == 20 {
            Some(InstructionFormat::R)
        } else if 16 <= major <= 19 {
            Some(InstructionFormat::R4)
        } else if major == 24 {
            Some(InstructionFormat::B)
        } else if major == 27 {
            Some(InstructionFormat::J)
        } else {
            None
        }
    }

    /// The format that `opcode` selects, if it selects one.
    pub fn from_opcode(opcode: u8) -> (format: Option<Self>)
        ensures
            format == Self::of_opcode(opcode),
    {
        proof {
            lemma_opcode_bits(opcode);
        }
        match opcode & 3 {
            3 => match (opcode >> 2) & 0x1F {
                0b00000 => Some(InstructionFormat::I),
                0b00001 => Some(InstructionFormat::I),
                0b00010 => None,
                0b00011 => Some(InstructionFormat::I),
                0b00100 => Some(InstructionFormat::I),
                0b00101 => Some(InstructionFormat::U),
                0b00110 => Some(InstructionFormat::I),
                0b00111 => None,
                0b01000 => Some(InstructionFormat::S),
                0b01001 => Some(InstructionFormat::S),
                0b01010 => None,
                0b01011 => Some(InstructionFormat::R),
                0b01100 => Some(InstructionFormat::R),
                0b01101 => Some(InstructionFormat::U),
                0b01110 => Some(InstructionFormat::R),
                0b01111 => None,
                0b10000 => Some(InstructionFormat::R4),
                0b10001 => Some(InstructionFormat::R4),
                0b10010 => Some(InstructionFormat::R4),
                0b10011 => Some(InstructionFormat::R4),
                0b10100 => Some(InstructionFormat::R),
                0b10101 => None,
                0b10110 => None,
                0b10111 => None,
                0b11000 => Some(InstructionFormat::B),
                0b11001 => Some(InstructionFormat::I),
                0b11010 => None,
                0b11011 => Some(InstructionFormat::J),
                0b11100 => Some(InstructionFormat::I),
                _ => None,
            },
            _ => None,
        }
    }
}

/// The set of accesses that a fence orders: reads, writes, or both.
#[derive(Copy, Clone, Debug, PartialEq, Eq, Structural)]
pub enum FenceKind {
    R,
    W,
    RW,
}

impl FenceKind {
    /// The kind that the four bits of a predecessor or successor field name,
    /// if they name one: 1 for writes, 2 for reads, 3 for both.
    pub open spec fn of_bits(bits: int) -> Option<FenceKind> {
        if bits == 1 {
            Some(FenceKind::W)
        } else if bits == 2 {
            Some(FenceKind::R)
        } else if bits == 3 {
            Some(FenceKind::RW)
        } else {
            None
        }
    }

    /// The kind as it is written in assembly.
    pub open spec fn name(self) -> Seq<char> {
        match self {
            FenceKind::R => "r"@,
            FenceKind::W => "w"@,
            FenceKind::RW => "rw"@,
        }
    }

    /// The kind as it is written in assembly.
    pub fn as_str(self) -> (name: &'static str)
        ensures
            name@ == self.name(),
    {
        match self {
            FenceKind::R => "r",
            FenceKind::W => "w",
            FenceKind::RW => "rw",
        }
    }

    /// The kind as it is written in assembly, as an owned string.
    pub fn to_string(&self) -> (text: String)
        ensures
            text@ == self.name(),
    {
        String::from_str(self.as_str())
    }
}

impl TryFrom<u8> for FenceKind {
    type Error = ();

    fn try_from(value: u8) -> (r: Result<Self, Self::Error>) {
        match value {
            0b10 => Ok(Self::R),
            0b01 => Ok(Self::W),
            0b11 => Ok(Self::RW),
            _ => Err(()),
        }
    }
}

impl vstd::std_specs::convert::TryFromSpecImpl<u8> for FenceKind {
    open spec fn obeys_try_from_spec() -> bool {
        true
    }

    open spec fn try_from_spec(value: u8) -> Result<Self, Self::Error> {
        match FenceKind::of_bits(value as int) {
            Some(kind) => Ok(kind),
            None => Err(()),
        }
    }
}

/// A decoded instruction. Immediates are sign-extended; `LUI` and `AUIPC` hold
/// the 20-bit field itself, not yet shifted.
#[derive(Copy, Clone, Debug, PartialEq, Eq, Structural)]
pub enum Instruction {
    /* --- RV32I --- */

    // Load
    LUI { rd: IntRegister, imm: i32 },
    LB { rd: IntRegister, rs1: IntRegister, imm: i16 },
    LH { rd: IntRegister, rs1: IntRegister, imm: i16 },
    LW { rd: IntRegister, rs1: IntRegister, imm: i16 },
    LBU { rd: IntRegister, rs1: IntRegister, imm: i16 },
    LHU { rd: IntRegister, rs1: IntRegister, imm: i16 },

    // Store
    SB { rs1: IntRegister, rs2: IntRegister, imm: i16 },
    SH { rs1: IntRegister, rs2: IntRegister, imm: i16 },
    SW { rs1: IntRegister, rs2: IntRegister, imm: i16 },

    // Shift
    SLLI { rd: IntRegister, rs1: IntRegister, shamt: u8 },
    SRLI { rd: IntRegister, rs1: IntRegister, shamt: u8 },
    SRAI { rd: IntRegister, rs1: IntRegister, shamt: u8 },
    SLL { rd: IntRegister, rs1: IntRegister, rs2: IntRegister },
    SRL { rd: IntRegister, rs1: IntRegister, rs2: IntRegister },
    SRA { rd: IntRegister, rs1: IntRegister, rs2: IntRegister },

    // Arithmetic
    ADDI { rd: IntRegister, rs1: IntRegister, imm: i16 },
    ADD { rd: IntRegister, rs1: IntRegister, rs2: IntRegister },
    SUB { rd: IntRegister, rs1: IntRegister, rs2: IntRegister },

    // Logical
    ORI { rd: IntRegister, rs1: IntRegister, imm: i16 },
    XORI { rd: IntRegister, rs1: IntRegister, imm: i16 },
    ANDI { rd: IntRegister, rs1: IntRegister, imm: i16 },
    OR { rd: IntRegister, rs1: IntRegister, rs2: IntRegister },
    XOR { rd: IntRegister, rs1: IntRegister, rs2: IntRegister },
    AND { rd: IntRegister, rs1: IntRegister, rs2: IntRegister },

    // Compare
    SLTI { rd: IntRegister, rs1: IntRegister, imm: i16 },
    SLTIU { rd: IntRegister, rs1: IntRegister, imm: i16 },
    SLT { rd: IntRegister, rs1: IntRegister, rs2: IntRegister },
    SLTU { rd: IntRegister, rs1: IntRegister, rs2: IntRegister },

    // Branch
    BEQ { rs1: IntRegister, rs2: IntRegister, imm: i16 },
    BNE { rs1: IntRegister, rs2: IntRegister, imm: i16 },
    BLT { rs1: IntRegister, rs2: IntRegister, imm: i16 },
    BGE { rs1: IntRegister, rs2: IntRegister, imm: i16 },
    BLTU { rs1: IntRegister, rs2: IntRegister, imm: i16 },
    BGEU { rs1: IntRegister, rs2: IntRegister, imm: i16 },

    // Jump
    JAL { rd: IntRegister, imm: i32 },
    AUIPC { rd: IntRegister, imm: i32 },
    JALR { rd: IntRegister, rs1: IntRegister, imm: i16 },

    // Sync
    FENCE { pred: FenceKind, succ: FenceKind },
    FENCETSO,

    // System
    ECALL,
    EBREAK,

    /* --- Zifencei --- */

    FENCEI,

    /* --- Zicsr --- */

    CSRRW { rd: IntRegister, rs1: IntRegister, csr: u16 },
    CSRRS { rd: IntRegister, rs1: IntRegister, csr: u16 },
    CSRRC { rd: IntRegister, rs1: IntRegister, csr: u16 },
    CSRRWI { rd: IntRegister, uimm: u8, csr: u16 },
    CSRRSI { rd: IntRegister, uimm: u8, csr: u16 },
    CSRRCI { rd: IntRegister, uimm: u8, csr: u16 },

    /* --- RV32M --- */

    MUL { rd: IntRegister, rs1: IntRegister, rs2: IntRegister },
    MULH { rd: IntRegister, rs1: IntRegister, rs2: IntRegister },
    MULHSU { rd: IntRegister, rs1: IntRegister, rs2: IntRegister },
    MULHU { rd: IntRegister, rs1: IntRegister, rs2: IntRegister },
    DIV { rd: IntRegister, rs1: IntRegister, rs2: IntRegister },
    DIVU { rd: IntRegister, rs1: IntRegister, rs2: IntRegister },
    REM { rd: IntRegister, rs1: IntRegister, rs2: IntRegister },
    REMU { rd: IntRegister, rs1: IntRegister, rs2: IntRegister },
}

impl Instruction {
    /// Whether the instruction is of one of the fifty-six kinds that there
    /// are. This holds of every instruction; it is spelled out for proofs
    /// that go through the kinds one by one.
    pub open spec fn is_of_a_kind(self) -> bool {
        self is LUI || self is LB || self is LH || self is LW || self is LBU || self is LHU
        || self is SB || self is SH || self is SW || self is SLLI || self is SRLI
        || self is SRAI || self is SLL || self is SRL || self is SRA || self is ADDI
        || self is ADD || self is SUB || self is ORI || self is XORI || self is ANDI
        || self is OR || self is XOR || self is AND || self is SLTI || self is SLTIU
        || self is SLT || self is SLTU || self is BEQ || self is BNE || self is BLT
        || self is BGE || self is BLTU || self is BGEU || self is JAL || self is AUIPC
        || self is JALR || self is FENCE || self is FENCETSO || self is ECALL
        || self is EBREAK || self is FENCEI || self is CSRRW || self is CSRRS
        || self is CSRRC || self is CSRRWI || self is CSRRSI || self is CSRRCI
        || self is MUL || self is MULH || self is MULHSU || self is MULHU || self is DIV
        || self is DIVU || self is REM || self is REMU
    }

    /// Every instruction is of one of the fifty-six kinds.
    pub proof fn lemma_kinds(self)
        ensures
            self.is_of_a_kind(),
    {
    }

    /// Whether the immediate lies in the range of the instruction's format:
    /// twelve signed bits for the I and S formats, an even offset of thirteen
    /// bits for a branch and of twenty-one bits for `JAL`, twenty signed bits
    /// for the U format.
    pub open spec fn immediate_in_range(self) -> bool {
        match self {
            Instruction::LUI { imm, .. } | Instruction::AUIPC { imm, .. } => -0x8_0000 <= imm
                < 0x8_0000,
            Instruction::JAL { imm, .. } => -0x10_0000 <= imm < 0x10_0000 && imm % 2 == 0,
            Instruction::BEQ { imm, .. }
            | Instruction::BNE { imm, .. }
            | Instruction::BLT { imm, .. }
            | Instruction::BGE { imm, .. }
            | Instruction::BLTU { imm, .. }
            | Instruction::BGEU { imm, .. } => -0x1000 <= imm < 0x1000 && imm % 2 == 0,
            Instruction::LB { imm, .. }
            | Instruction::LH { imm, .. }
            | Instruction::LW { imm, .. }
            | Instruction::LBU { imm, .. }
            | Instruction::LHU { imm, .. }
            | Instruction::SB { imm, .. }
            | Instruction::SH { imm, .. }
            | Instruction::SW { imm, .. }
            | Instruction::ADDI { imm, .. }
            | Instruction::ORI { imm, .. }
            | Instruction::XORI { imm, .. }
            | Instruction::ANDI { imm, .. }
            | Instruction::SLTI { imm, .. }
            | Instruction::SLTIU { imm, .. }
            | Instruction::JALR { imm, .. } => -0x800 <= imm < 0x800,
            _ => true,
        }
    }

    /// Whether the narrow fields fit their widths: five bits for a shift
    /// amount and for a CSR instruction's immediate, twelve for a CSR's number.
    pub open spec fn well_formed(self) -> bool {
        match self {
            Instruction::SLLI { shamt, .. }
            | Instruction::SRLI { shamt, .. }
            | Instruction::SRAI { shamt, .. } => shamt < 32,
            Instruction::CSRRW { csr, .. }
            | Instruction::CSRRS { csr, .. }
            | Instruction::CSRRC { csr, .. } => csr < 0x1000,
            Instruction::CSRRWI { uimm, csr, .. }
            | Instruction::CSRRSI { uimm, csr, .. }
            | Instruction::CSRRCI { uimm, csr, .. } => uimm < 32 && csr < 0x1000,
            _ => true,
        }
    }
}

/// Bits 6 to 0 of an instruction word.
pub open spec fn opcode(word: u32) -> u32 {
    word % 0x80
}

/// Bits 11 to 7: the destination register's number.
pub open spec fn rd_field(word: u32) -> u32 {
    word / 0x80 % 32
}

/// Bits 14 to 12.
pub open spec fn funct3(word: u32) -> u32 {
    word / 0x1000 % 8
}

/// Bits 19 to 15: the first source register's number.
pub open spec fn rs1_field(word: u32) -> u32 {
    word / 0x8000 % 32
}

/// Bits 24 to 20: the second source register's number, or a shift amount.
pub open spec fn rs2_field(word: u32) -> u32 {
    word / 0x10_0000 % 32
}

/// Bits 31 to 25.
pub open spec fn funct7(word: u32) -> u32 {
    word / 0x200_0000
}

/// Bits 31 to 20, unsigned.
pub open spec fn imm12_field(word: u32) -> u32 {
    word / 0x10_0000
}

/// `value`, an unsigned field whose top bit weighs `half`, read as a
/// two's-complement number: with its top bit set, the field stands for
/// `value - 2 * half`.
pub open spec fn sign_extend(value: int, half: int) -> int {
    if value >= half {
        value - 2 * half
    } else {
        value
    }
}

/// The immediate of an I-type word: bits 31 to 20, sign-extended.
pub open spec fn imm_i(word: u32) -> int {
    sign_extend(imm12_field(word) as int, 0x800)
}

/// The immediate of an S-type word: bits 31 to 25 above bits 11 to 7,
/// sign-extended.
pub open spec fn imm_s(word: u32) -> int {
    sign_extend(funct7(word) * 32 + rd_field(word), 0x800)
}

/// The immediate of a B-type word: an even offset of 13 bits, made of bit 31,
/// bit 7, bits 30 to 25 and bits 11 to 8, sign-extended.
pub open spec fn imm_b(word: u32) -> int {
    sign_extend(
        (word / 0x8000_0000) * 0x1000 + (word / 0x80 % 2) * 0x800 + (word / 0x200_0000 % 64) * 32
            + (word / 0x100 % 16) * 2,
        0x1000,
    )
}

/// The immediate of a U-type word: bits 31 to 12, sign-extended.
pub open spec fn imm_u(word: u32) -> int {
    sign_extend((word / 0x1000) as int, 0x8_0000)
}

/// The immediate of a J-type word: an even offset of 21 bits, made of bit 31,
/// bits 19 to 12, bit 20 and bits 30 to 21, sign-extended.
pub open spec fn imm_j(word: u32) -> int {
    sign_extend(
        (word / 0x8000_0000) * 0x10_0000 + (word / 0x1000 % 256) * 0x1000 + (word / 0x10_0000 % 2)
            * 0x800 + (word / 0x20_0000 % 1024) * 2,
        0x10_0000,
    )
}

/// The register that a five-bit field names.
pub open spec fn register(field: u32) -> IntRegister {
    IntRegister::from_index(field as nat)
}

/// The loads, by `funct3`.
pub open spec fn decode_load(word: u32) -> Result<Instruction, ()> {
    let rd = register(rd_field(word));
    let rs1 = register(rs1_field(word));
    let imm = imm_i(word) as i16;
    let funct3 = funct3(word);
    if funct3 == 0 {
        Ok(Instruction::LB { rd, rs1, imm })
    } else if funct3 == 1 {
        Ok(Instruction::LH { rd, rs1, imm })
    } else if funct3 == 2 {
        Ok(Instruction::LW { rd, rs1, imm })
    } else if funct3 == 4 {
        Ok(Instruction::LBU { rd, rs1, imm })
    } else if funct3 == 5 {
        Ok(Instruction::LHU { rd, rs1, imm })
    } else {
        Err(())
    }
}

/// The stores, by `funct3`.
pub open spec fn decode_store(word: u32) -> Result<Instruction, ()> {
    let rs1 = register(rs1_field(word));
    let rs2 = register(rs2_field(word));
    let imm = imm_s(word) as i16;
    let funct3 = funct3(word);
    if funct3 == 0 {
        Ok(Instruction::SB { rs1, rs2, imm })
    } else if funct3 == 1 {
        Ok(Instruction::SH { rs1, rs2, imm })
    } else if funct3 == 2 {
        Ok(Instruction::SW { rs1, rs2, imm })
    } else {
        Err(())
    }
}

/// The conditional branches, by `funct3`.
pub open spec fn decode_branch(word: u32) -> Result<Instruction, ()> {
    let rs1 = register(rs1_field(word));
    let rs2 = register(rs2_field(word));
    let imm = imm_b(word) as i16;
    let funct3 = funct3(word);
    if funct3 == 0 {
        Ok(Instruction::BEQ { rs1, rs2, imm })
    } else if funct3 == 1 {
        Ok(Instruction::BNE { rs1, rs2, imm })
    } else if funct3 == 4 {
        Ok(Instruction::BLT { rs1, rs2, imm })
    } else if funct3 == 5 {
        Ok(Instruction::BGE { rs1, rs2, imm })
    } else if funct3 == 6 {
        Ok(Instruction::BLTU { rs1, rs2, imm })
    } else if funct3 == 7 {
        Ok(Instruction::BGEU { rs1, rs2, imm })
    } else {
        Err(())
    }
}

/// The register-immediate operations, by `funct3`. The shifts take their
/// amount from bits 24 to 20, and bits 31 to 25 tell them apart.
pub open spec fn decode_op_imm(word: u32) -> Result<Instruction, ()> {
    let rd = register(rd_field(word));
    let rs1 = register(rs1_field(word));
    let imm = imm_i(word) as i16;
    let shamt = rs2_field(word) as u8;
    let funct3 = funct3(word);
    let funct7 = funct7(word);
    if funct3 == 0 {
        Ok(Instruction::ADDI { rd, rs1, imm })
    } else if funct3 == 1 {
        if funct7 == 0 {
            Ok(Instruction::SLLI { rd, rs1, shamt })
        } else {
            Err(())
        }
    } else if funct3 == 2 {
        Ok(Instruction::SLTI { rd, rs1, imm })
    } else if funct3 == 3 {
        Ok(Instruction::SLTIU { rd, rs1, imm })
    } else if funct3 == 4 {
        Ok(Instruction::XORI { rd, rs1, imm })
    } else if funct3 == 5 {
        if funct7 == 0 {
            Ok(Instruction::SRLI { rd, rs1, shamt })
        } else if funct7 == 0x20 {
            Ok(Instruction::SRAI { rd, rs1, shamt })
        } else {
            Err(())
        }
    } else if funct3 == 6 {
        Ok(Instruction::ORI { rd, rs1, imm })
    } else {
        Ok(Instruction::ANDI { rd, rs1, imm })
    }
}

/// The register-register operations: the base operations under `funct7` 0,
/// subtraction and the arithmetic right shift under `funct7` 0x20, and the
/// multiplications and divisions under `funct7` 1.
pub open spec fn decode_op(word: u32) -> Result<Instruction, ()> {
    let rd = register(rd_field(word));
    let rs1 = register(rs1_field(word));
    let rs2 = register(rs2_field(word));
    let funct3 = funct3(word);
    let funct7 = funct7(word);
    if funct7 == 0 {
        Ok(
            if funct3 == 0 {
                Instruction::ADD { rd, rs1, rs2 }
            } else if funct3 == 1 {
                Instruction::SLL { rd, rs1, rs2 }
            } else if funct3 == 2 {
                Instruction::SLT { rd, rs1, rs2 }
            } else if funct3 == 3 {
                Instruction::SLTU { rd, rs1, rs2 }
            } else if funct3 == 4 {
                Instruction::XOR { rd, rs1, rs2 }
            } else if funct3 == 5 {
                Instruction::SRL { rd, rs1, rs2 }
            } else if funct3 == 6 {
                Instruction::OR { rd, rs1, rs2 }
            } else {
                Instruction::AND { rd, rs1, rs2 }
            },
        )
    } else if funct7 == 0x20 {
        if funct3 == 0 {
            Ok(Instruction::SUB { rd, rs1, rs2 })
        } else if funct3 == 5 {
            Ok(Instruction::SRA { rd, rs1, rs2 })
        } else {
            Err(())
        }
    } else if funct7 == 1 {
        Ok(
            if funct3 == 0 {
                Instruction::MUL { rd, rs1, rs2 }
            } else if funct3 == 1 {
                Instruction::MULH { rd, rs1, rs2 }
            } else if funct3 == 2 {
                Instruction::MULHSU { rd, rs1, rs2 }
            } else if funct3 == 3 {
                Instruction::MULHU { rd, rs1, rs2 }
            } else if funct3 == 4 {
                Instruction::DIV { rd, rs1, rs2 }
            } else if funct3 == 5 {
                Instruction::DIVU { rd, rs1, rs2 }
            } else if funct3 == 6 {
                Instruction::REM { rd, rs1, rs2 }
            } else {
                Instruction::REMU { rd, rs1, rs2 }
            },
        )
    } else {
        Err(())
    }
}

/// A memory fence from its three four-bit fields: the mode, the predecessor
/// set and the successor set. Both sets must be valid; mode 0 is the plain
/// fence, mode 8 over both full sets is `FENCE.TSO`.
pub open spec fn decode_fence_fields(mode: u8, pred: u8, succ: u8) -> Result<Instruction, ()> {
    let pred = FenceKind::of_bits(pred as int);
    let succ = FenceKind::of_bits(succ as int);
    if pred is None || succ is None {
        Err(())
    } else if mode == 8 && pred == Some(FenceKind::RW) && succ == Some(FenceKind::RW) {
        Ok(Instruction::FENCETSO)
    } else if mode == 0 {
        Ok(Instruction::FENCE { pred: pred->0, succ: succ->0 })
    } else {
        Err(())
    }
}

/// The fences. A memory fence (`funct3` 0) has its mode in bits 31 to 28, its
/// predecessor set in bits 27 to 24 and its successor set in bits 23 to 20.
/// `funct3` 1 is the instruction-fetch fence, whose other fields are not
/// looked at.
pub open spec fn decode_misc_mem(word: u32) -> Result<Instruction, ()> {
    let funct3 = funct3(word);
    if funct3 == 0 {
        decode_fence_fields(
            (word / 0x1000_0000) as u8,
            (word / 0x100_0000 % 16) as u8,
            (word / 0x10_0000 % 16) as u8,
        )
    } else if funct3 == 1 {
        Ok(Instruction::FENCEI)
    } else {
        Err(())
    }
}

/// The system instructions. Under `funct3` 0 the twelve immediate bits tell
/// `ECALL` (0) from `EBREAK` (1). The other values of `funct3` but 4 are the
/// CSR accesses: bits 31 to 20 number the CSR, and the immediate forms read
/// bits 19 to 15 as an unsigned number.
pub open spec fn decode_system(word: u32) -> Result<Instruction, ()> {
    let rd = register(rd_field(word));
    let rs1 = register(rs1_field(word));
    let uimm = rs1_field(word) as u8;
    let csr = imm12_field(word) as u16;
    let funct3 = funct3(word);
    if funct3 == 0 {
        if imm12_field(word) == 0 {
            Ok(Instruction::ECALL)
        } else if imm12_field(word) == 1 {
            Ok(Instruction::EBREAK)
        } else {
            Err(())
        }
    } else if funct3 == 1 {
        Ok(Instruction::CSRRW { rd, rs1, csr })
    } else if funct3 == 2 {
        Ok(Instruction::CSRRS { rd, rs1, csr })
    } else if funct3 == 3 {
        Ok(Instruction::CSRRC { rd, rs1, csr })
    } else if funct3 == 5 {
        Ok(Instruction::CSRRWI { rd, uimm, csr })
    } else if funct3 == 6 {
        Ok(Instruction::CSRRSI { rd, uimm, csr })
    } else if funct3 == 7 {
        Ok(Instruction::CSRRCI { rd, uimm, csr })
    } else {
        Err(())
    }
}

/// The instruction that a 32-bit word encodes, or `Err(())` where it encodes
/// none that this machine has. The opcode selects the group.
#[verifier::opaque]
pub open spec fn decode(word: u32) -> Result<Instruction, ()> {
    let opcode = opcode(word);
    let rd = register(rd_field(word));
    if opcode == 0b011_0111 {
        Ok(Instruction::LUI { rd, imm: imm_u(word) as i32 })
    } else if opcode == 0b001_0111 {
        Ok(Instruction::AUIPC { rd, imm: imm_u(word) as i32 })
    } else if opcode == 0b110_1111 {
        Ok(Instruction::JAL { rd, imm: imm_j(word) as i32 })
    } else if opcode == 0b110_0111 {
        if funct3(word) == 0 {
            Ok(Instruction::JALR { rd, rs1: register(rs1_field(word)), imm: imm_i(word) as i16 })
        } else {
            Err(())
        }
    } else if opcode == 0b110_0011 {
        decode_branch(word)
    } else if opcode == 0b000_0011 {
        decode_load(word)
    } else if opcode == 0b010_0011 {
        decode_store(word)
    } else if opcode == 0b001_0011 {
        decode_op_imm(word)
    } else if opcode == 0b011_0011 {
        decode_op(word)
    } else if opcode == 0b000_1111 {
        decode_misc_mem(word)
    } else if opcode == 0b111_0011 {
        decode_system(word)
    } else {
        Err(())
    }
}

/// A word whose two low bits are not both set encodes no instruction: such
/// words are left to the compressed instruction set.
pub proof fn lemma_decode_rejects_compressed(word: u32)
    requires
        word % 4 != 3,
    ensures
        decode(word) is Err,
{
    reveal(decode);
    assert(opcode(word) % 4 == word % 4) by (bit_vector);
}

/// A word encodes an instruction only where its opcode selects a format, and
/// none where that is the format of four registers.
pub proof fn lemma_decode_has_format(word: u32)
    requires
        decode(word) is Ok,
    ensures
        InstructionFormat::of_opcode(opcode(word) as u8) is Some,
        InstructionFormat::of_opcode(opcode(word) as u8) != Some(InstructionFormat::R4),
{
    reveal(decode);
}

/// The immediates of the five formats lie in the ranges of their widths, and
/// the offsets of branches and jumps are even.
pub proof fn lemma_immediate_ranges(word: u32)
    ensures
        -0x800 <= imm_i(word) < 0x800,
        -0x800 <= imm_s(word) < 0x800,
        -0x1000 <= imm_b(word) < 0x1000,
        imm_b(word) % 2 == 0,
        -0x8_0000 <= imm_u(word) < 0x8_0000,
        -0x10_0000 <= imm_j(word) < 0x10_0000,
        imm_j(word) % 2 == 0,
{
}

/// Whatever the decoder yields has fields that fit their widths, and an
/// immediate within the range of its format.
pub proof fn lemma_decode_well_formed(word: u32)
    ensures
        decode(word) matches Ok(inst) ==> inst.well_formed() && inst.immediate_in_range(),
{
    reveal(decode);
    lemma_immediate_ranges(word);
    let opcode = opcode(word);
    if opcode == 0b110_0011 {
        assert(decode(word) == decode_branch(word));
    } else if opcode == 0b000_0011 {
        assert(decode(word) == decode_load(word));
    } else if opcode == 0b010_0011 {
        assert(decode(word) == decode_store(word));
    } else if opcode == 0b001_0011 {
        assert(decode(word) == decode_op_imm(word));
    } else if opcode == 0b011_0011 {
        assert(decode(word) == decode_op(word));
    } else if opcode == 0b000_1111 {
        assert(decode(word) == decode_misc_mem(word));
    } else if opcode == 0b111_0011 {
        assert(decode(word) == decode_system(word));
    }
}

proof fn lemma_opcode_bits(opcode: u8)
    by (bit_vector)
    ensures
        opcode & 3 == opcode % 4,
        opcode >> 2 == opcode / 4,
        (opcode >> 2) & 0x1F == opcode / 4 % 32,
{
}

proof fn lemma_key_bits(funct3: u8, opcode: u8)
    by (bit_vector)
    requires
        funct3 < 8,
        opcode < 0x80,
    ensures
        (funct3 << 5) | (opcode >> 2) == funct3 * 32 + opcode / 4,
{
}

proof fn lemma_field_bits(word: u32)
    by (bit_vector)
    ensures
        word & 0x7F == word % 0x80,
        (word >> 7) & 0b11111 == word / 0x80 % 32,
        (word >> 12) & 0b111 == word / 0x1000 % 8,
        (word >> 15) & 0b11111 == word / 0x8000 % 32,
        (word >> 20) & 0b11111 == word / 0x10_0000 % 32,
        (word >> 25) & 0b1111111 == word / 0x200_0000,
{
}

proof fn lemma_imm_i_bits(word: u32)
    by (bit_vector)
    ensures
        ((word as i32) >> 20) as i16 == sign_extend((word / 0x10_0000) as int, 0x800),
        (((word as i32) >> 20) as i16 >> 5) == 0 <==> word / 0x200_0000 == 0,
        (((word as i32) >> 20) as i16 >> 5) == 0b0100000 <==> word / 0x200_0000 == 0x20,
        ((((word as i32) >> 20) as i16) & 0b11111) as u8 == word / 0x10_0000 % 32,
        ((((word as i32) >> 20) as i16) & 0xFFF) as u16 == word / 0x10_0000,
        (((((word as i32) >> 20) as i16) >> 8) & 0b1111) as u8 == word / 0x1000_0000,
        (((((word as i32) >> 20) as i16) >> 4) & 0b1111) as u8 == word / 0x100_0000 % 16,
        ((((word as i32) >> 20) as i16) & 0b1111) as u8 == word / 0x10_0000 % 16,
{
}

proof fn lemma_imm_s_bits(word: u32)
    by (bit_vector)
    ensures
        ((((((word >> 25) & 0b1111111) << 5) | ((word >> 7) & 0b11111)) as i16) << 4) >> 4
            == sign_extend((word / 0x200_0000) * 32 + word / 0x80 % 32, 0x800),
{
}

proof fn lemma_imm_b_bits(word: u32)
    by (bit_vector)
    ensures
        ((((((word >> 31) & 0b1) << 12) | (((word >> 7) & 0b1) << 11) | (((word >> 25) & 0b111111)
            << 5) | (((word >> 8) & 0b1111) << 1)) as i16) << 3) >> 3 == sign_extend(
            (word / 0x8000_0000) * 0x1000 + (word / 0x80 % 2) * 0x800 + (word / 0x200_0000 % 64)
                * 32 + (word / 0x100 % 16) * 2,
            0x1000,
        ),
{
}

proof fn lemma_imm_u_bits(word: u32)
    by (bit_vector)
    ensures
        (word as i32) >> 12 == sign_extend((word / 0x1000) as int, 0x8_0000),
{
}

proof fn lemma_imm_j_bits(word: u32)
    by (bit_vector)
    ensures
        ((((((word >> 31) & 0b1) << 20) | (((word >> 12) & 0b11111111) << 12) | (((word >> 20)
            & 0b1) << 11) | (((word >> 21) & 0b1111111111) << 1)) as i32) << 11) >> 11
            == sign_extend(
            (word / 0x8000_0000) * 0x10_0000 + (word / 0x1000 % 256) * 0x1000 + (word / 0x10_0000
                % 2) * 0x800 + (word / 0x20_0000 % 1024) * 2,
            0x10_0000,
        ),
{
}

/// The three five-bit register fields of an instruction word: bits 11 to 7,
/// bits 19 to 15 and bits 24 to 20.
pub fn register_fields(word: u32) -> (fields: (u8, u8, u8))
    ensures
        fields.0 == rd_field(word),
        fields.1 == rs1_field(word),
        fields.2 == rs2_field(word),
{
    proof {
        lemma_field_bits(word);
    }
    (
        ((word >> 7) & 0b11111) as u8,
        ((word >> 15) & 0b11111) as u8,
        ((word >> 20) & 0b11111) as u8,
    )
}

fn decode_r(inst: u32) -> (r: Result<Instruction, ()>)
    requires
        InstructionFormat::of_opcode(opcode(inst) as u8) == Some(InstructionFormat::R),
    ensures
        r == decode(inst),
{
    proof {
        reveal(decode);
        lemma_field_bits(inst);
    }
    let opcode = (inst & 0x7F) as u8;
    let rd = IntRegister::try_from(((inst >> 7) & 0b11111) as u8)?;
    let rs1 = IntRegister::try_from(((inst >> 15) & 0b11111) as u8)?;
    let rs2 = IntRegister::try_from(((inst >> 20) & 0b11111) as u8)?;
    let funct3 = ((inst >> 12) & 0b111) as u8;
    let funct7 = ((inst >> 25) & 0b1111111) as u8;
    let fn3_opcode = (funct3 << 5) | (opcode >> 2);
    proof {
        lemma_key_bits(funct3, opcode);
    }

    match fn3_opcode {
        0b000_01100 => match funct7 {
            0b0000000 => Ok(Instruction::ADD { rd, rs1, rs2 }),
            0b0000001 => Ok(Instruction::MUL { rd, rs1, rs2 }),
            0b0100000 => Ok(Instruction::SUB { rd, rs1, rs2 }),
            _ => Err(()),
        },
        0b001_01100 => match funct7 {
            0b0000000 => Ok(Instruction::SLL { rd, rs1, rs2 }),
            0b0000001 => Ok(Instruction::MULH { rd, rs1, rs2 }),
            _ => Err(()),
        },
        0b010_01100 => match funct7 {
            0b0000000 => Ok(Instruction::SLT { rd, rs1, rs2 }),
            0b0000001 => Ok(Instruction::MULHSU { rd, rs1, rs2 }),
            _ => Err(()),
        },
        0b011_01100 => match funct7 {
            0b0000000 => Ok(Instruction::SLTU { rd, rs1, rs2 }),
            0b0000001 => Ok(Instruction::MULHU { rd, rs1, rs2 }),
            _ => Err(()),
        },
        0b100_01100 => match funct7 {
            0b0000000 => Ok(Instruction::XOR { rd, rs1, rs2 }),
            0b0000001 => Ok(Instruction::DIV { rd, rs1, rs2 }),
            _ => Err(()),
        },
        0b101_01100 => match funct7 {
            0b0000000 => Ok(Instruction::SRL { rd, rs1, rs2 }),
            0b0000001 => Ok(Instruction::DIVU { rd, rs1, rs2 }),
            0b0100000 => Ok(Instruction::SRA { rd, rs1, rs2 }),
            _ => Err(()),
        },
        0b110_01100 => match funct7 {
            0b0000000 => Ok(Instruction::OR { rd, rs1, rs2 }),
            0b0000001 => Ok(Instruction::REM { rd, rs1, rs2 }),
            _ => Err(()),
        },
        0b111_01100 => match funct7 {
            0b0000000 => Ok(Instruction::AND { rd, rs1, rs2 }),
            0b0000001 => Ok(Instruction::REMU { rd, rs1, rs2 }),
            _ => Err(()),
        },
        _ => Err(()),
    }
}

fn decode_fence(imm: i16) -> (r: Result<Instruction, ()>)
    ensures
        r == decode_fence_fields(
            ((imm >> 8) & 0b1111) as u8,
            ((imm >> 4) & 0b1111) as u8,
            (imm & 0b1111) as u8,
        ),
{
    let fm = ((imm >> 8) & 0b1111) as u8;
    let pred = ((imm >> 4) & 0b1111) as u8;
    let succ = (imm & 0b1111) as u8;
    let pred = FenceKind::try_from(pred)?;
    let succ = FenceKind::try_from(succ)?;

    match (fm, pred, succ) {
        (0b1000, FenceKind::RW, FenceKind::RW) => Ok(Instruction::FENCETSO),
        (0b0000, pred, succ) => Ok(Instruction::FENCE { pred, succ }),
        _ => Err(()),
    }
}

fn decode_i(inst: u32) -> (r: Result<Instruction, ()>)
    requires
        InstructionFormat::of_opcode(opcode(inst) as u8) == Some(InstructionFormat::I),
    ensures
        r == decode(inst),
{
    proof {
        reveal(decode);
        lemma_field_bits(inst);
        lemma_imm_i_bits(inst);
    }
    let opcode = (inst & 0x7F) as u8;
    let rd = IntRegister::try_from(((inst >> 7) & 0b11111) as u8)?;
    let rs1 = IntRegister::try_from(((inst >> 15) & 0b11111) as u8)?;
    let funct3 = ((inst >> 12) & 0b111) as u8;
    let imm = ((inst as i32) >> 20) as i16;
    let fn3_opcode = (funct3 << 5) | (opcode >> 2);
    proof {
        lemma_key_bits(funct3, opcode);
    }

    match fn3_opcode {
        0b000_11001 => Ok(Instruction::JALR { rd, rs1, imm }),
        0b000_00000 => Ok(Instruction::LB { rd, rs1, imm }),
        0b001_00000 => Ok(Instruction::LH { rd, rs1, imm }),
        0b010_00000 => Ok(Instruction::LW { rd, rs1, imm }),
        0b100_00000 => Ok(Instruction::LBU { rd, rs1, imm }),
        0b101_00000 => Ok(Instruction::LHU { rd, rs1, imm }),
        0b000_00100 => Ok(Instruction::ADDI { rd, rs1, imm }),
        0b001_00100 => {
            let shamt = (imm & 0b11111) as u8;
            match imm >> 5 {
                0b0000000 => Ok(Instruction::SLLI { rd, rs1, shamt }),
                _ => Err(()),
            }
        },
        0b010_00100 => Ok(Instruction::SLTI { rd, rs1, imm }),
        0b011_00100 => Ok(Instruction::SLTIU { rd, rs1, imm }),
        0b100_00100 => Ok(Instruction::XORI { rd, rs1, imm }),
        0b101_00100 => {
            let shamt = (imm & 0b11111) as u8;
            match imm >> 5 {
                0b0000000 => Ok(Instruction::SRLI { rd, rs1, shamt }),
                0b0100000 => Ok(Instruction::SRAI { rd, rs1, shamt }),
                _ => Err(()),
            }
        },
        0b110_00100 => Ok(Instruction::ORI { rd, rs1, imm }),
        0b111_00100 => Ok(Instruction::ANDI { rd, rs1, imm }),
        0b000_00011 => decode_fence(imm),
        0b001_00011 => Ok(Instruction::FENCEI),
        0b000_11100 => match imm {
            0 => Ok(Instruction::ECALL),
            1 => Ok(Instruction::EBREAK),
            _ => Err(()),
        },
        0b001_11100 => Ok(Instruction::CSRRW { rd, rs1, csr: (imm & 0xFFF) as u16 }),
        0b010_11100 => Ok(Instruction::CSRRS { rd, rs1, csr: (imm & 0xFFF) as u16 }),
        0b011_11100 => Ok(Instruction::CSRRC { rd, rs1, csr: (imm & 0xFFF) as u16 }),
        0b101_11100 => Ok(
            Instruction::CSRRWI { rd, uimm: ((inst >> 15) & 0b11111) as u8, csr: (imm & 0xFFF) as u16 },
        ),
        0b110_11100 => Ok(
            Instruction::CSRRSI { rd, uimm: ((inst >> 15) & 0b11111) as u8, csr: (imm & 0xFFF) as u16 },
        ),
        0b111_11100 => Ok(
            Instruction::CSRRCI { rd, uimm: ((inst >> 15) & 0b11111) as u8, csr: (imm & 0xFFF) as u16 },
        ),
        _ => Err(()),
    }
}

fn decode_s(inst: u32) -> (r: Result<Instruction, ()>)
    requires
        InstructionFormat::of_opcode(opcode(inst) as u8) == Some(InstructionFormat::S),
    ensures
        r == decode(inst),
{
    proof {
        reveal(decode);
        lemma_field_bits(inst);
        lemma_imm_s_bits(inst);
    }
    let opcode = (inst & 0x7F) as u8;
    let funct3 = ((inst >> 12) & 0b111) as u8;
    let rs1 = IntRegister::try_from(((inst >> 15) & 0b11111) as u8)?;
    let rs2 = IntRegister::try_from(((inst >> 20) & 0b11111) as u8)?;
    let imm115 = (inst >> 25) & 0b1111111;
    let imm40 = (inst >> 7) & 0b11111;
    let imm = (imm115 << 5) | imm40;
    let imm = ((imm as i16) << 4) >> 4;
    let fn3_opcode = (funct3 << 5) | (opcode >> 2);
    proof {
        lemma_key_bits(funct3, opcode);
    }

    match fn3_opcode {
        0b000_01000 => Ok(Instruction::SB { rs1, rs2, imm }),
        0b001_01000 => Ok(Instruction::SH { rs1, rs2, imm }),
        0b010_01000 => Ok(Instruction::SW { rs1, rs2, imm }),
        _ => Err(()),
    }
}

fn decode_b(inst: u32) -> (r: Result<Instruction, ()>)
    requires
        InstructionFormat::of_opcode(opcode(inst) as u8) == Some(InstructionFormat::B),
    ensures
        r == decode(inst),
{
    proof {
        reveal(decode);
        lemma_field_bits(inst);
        lemma_imm_b_bits(inst);
    }
    let opcode = (inst & 0x7F) as u8;
    let funct3 = ((inst >> 12) & 0b111) as u8;
    let rs1 = IntRegister::try_from(((inst >> 15) & 0b11111) as u8)?;
    let rs2 = IntRegister::try_from(((inst >> 20) & 0b11111) as u8)?;
    let imm12 = (inst >> 31) & 0b1;
    let imm105 = (inst >> 25) & 0b111111;
    let imm41 = (inst >> 8) & 0b1111;
    let imm11 = (inst >> 7) & 0b1;
    let imm = (imm12 << 12) | (imm11 << 11) | (imm105 << 5) | (imm41 << 1);
    let imm = ((imm as i16) << 3) >> 3;
    let fn3_opcode = (funct3 << 5) | (opcode >> 2);
    proof {
        lemma_key_bits(funct3, opcode);
    }

    match fn3_opcode {
        0b000_11000 => Ok(Instruction::BEQ { rs1, rs2, imm }),
        0b001_11000 => Ok(Instruction::BNE { rs1, rs2, imm }),
        0b100_11000 => Ok(Instruction::BLT { rs1, rs2, imm }),
        0b101_11000 => Ok(Instruction::BGE { rs1, rs2, imm }),
        0b110_11000 => Ok(Instruction::BLTU { rs1, rs2, imm }),
        0b111_11000 => Ok(Instruction::BGEU { rs1, rs2, imm }),
        _ => Err(()),
    }
}

fn decode_u(inst: u32) -> (r: Result<Instruction, ()>)
    requires
        InstructionFormat::of_opcode(opcode(inst) as u8) == Some(InstructionFormat::U),
    ensures
        r == decode(inst),
{
    proof {
        reveal(decode);
        lemma_field_bits(inst);
        lemma_imm_u_bits(inst);
        lemma_opcode_bits((inst & 0x7F) as u8);
    }
    let opcode = (inst & 0x7F) as u8;
    let rd = IntRegister::try_from(((inst >> 7) & 0b11111) as u8)?;
    let imm = (inst as i32) >> 12;

    match opcode >> 2 {
        0b01101 => Ok(Instruction::LUI { rd, imm }),
        0b00101 => Ok(Instruction::AUIPC { rd, imm }),
        _ => Err(()),
    }
}

fn decode_j(inst: u32) -> (r: Result<Instruction, ()>)
    requires
        InstructionFormat::of_opcode(opcode(inst) as u8) == Some(InstructionFormat::J),
    ensures
        r == decode(inst),
{
    proof {
        reveal(decode);
        lemma_field_bits(inst);
        lemma_imm_j_bits(inst);
        lemma_opcode_bits((inst & 0x7F) as u8);
    }
    let opcode = (inst & 0x7F) as u8;
    let rd = IntRegister::try_from(((inst >> 7) & 0b11111) as u8)?;
    let imm20 = (inst >> 31) & 0b1;
    let imm101 = (inst >> 21) & 0b1111111111;
    let imm11 = (inst >> 20) & 0b1;
    let imm1912 = (inst >> 12) & 0b11111111;
    let imm = (imm20 << 20) | (imm1912 << 12) | (imm11 << 11) | (imm101 << 1);
    let imm = ((imm as i32) << 11) >> 11;

    match opcode >> 2 {
        0b11011 => Ok(Instruction::JAL { rd, imm }),
        _ => Err(()),
    }
}

impl TryFrom<u32> for Instruction {
    type Error = ();

    /// Decodes an instruction word: the opcode gives the format, the format
    /// says where the fields lie, and the fields select the instruction.
    fn try_from(inst: u32) -> (r: Result<Self, Self::Error>) {
        proof {
            reveal(decode);
            lemma_field_bits(inst);
        }
        let opcode = (inst & 0x7F) as u8;
        let format = match InstructionFormat::from_opcode(opcode) {
            Some(format) => format,
            None => {
                return Err(());
            },
        };

        match format {
            InstructionFormat::R => decode_r(inst),
            InstructionFormat::R4 => Err(()),
            InstructionFormat::I => decode_i(inst),
            InstructionFormat::S => decode_s(inst),
            InstructionFormat::B => decode_b(inst),
            InstructionFormat::U => decode_u(inst),
            InstructionFormat::J => decode_j(inst),
        }
    }
}

impl vstd::std_specs::convert::TryFromSpecImpl<u32> for Instruction {
    open spec fn obeys_try_from_spec() -> bool {
        true
    }

    open spec fn try_from_spec(inst: u32) -> Result<Self, Self::Error> {
        decode(inst)
    }
}

} // verus!
