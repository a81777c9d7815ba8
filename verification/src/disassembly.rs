//! Disassembly: the text of a decoded instruction.
//!
//! An instruction is written as its mnemonic in lower case, padded to eight
//! columns, and its operands: the destination first, then the sources. Loads,
//! stores and indirect jumps write their address as `offset(base)`; branches
//! and jumps write their offset with its sign after `pc`. An instruction
//! without operands is its bare mnemonic.

use crate::instruction::{decode, FenceKind, Instruction};
use crate::register::IntRegister;
use crate::text::{
    decimal, explicit_decimal, left_aligned, push_decimal, push_explicit, push_left_aligned,
    push_signed, signed_decimal,
};
use vstd::prelude::*;

verus! {

/// `rd, imm`
pub open spec fn operands_upper(rd: IntRegister, imm: int) -> Seq<char> {
    rd.name() + ", "@ + signed_decimal(imm)
}

/// `reg, imm(base)`
pub open spec fn operands_address(reg: IntRegister, imm: int, base: IntRegister) -> Seq<char> {
    reg.name() + ", "@ + signed_decimal(imm) + "("@ + base.name() + ")"@
}

/// `rd, rs1, imm`
pub open spec fn operands_immediate(rd: IntRegister, rs1: IntRegister, imm: int) -> Seq<char> {
    rd.name() + ", "@ + rs1.name() + ", "@ + signed_decimal(imm)
}

/// `rd, rs1, rs2`
pub open spec fn operands_register(rd: IntRegister, rs1: IntRegister, rs2: IntRegister) -> Seq<
    char,
> {
    rd.name() + ", "@ + rs1.name() + ", "@ + rs2.name()
}

/// `rs1, rs2, pc+imm`
pub open spec fn operands_branch(rs1: IntRegister, rs2: IntRegister, imm: int) -> Seq<char> {
    rs1.name() + ", "@ + rs2.name() + ", pc"@ + explicit_decimal(imm)
}

/// `rd, pc+imm`
pub open spec fn operands_jump(rd: IntRegister, imm: int) -> Seq<char> {
    rd.name() + ", pc"@ + explicit_decimal(imm)
}

/// `pred, succ`
pub open spec fn operands_fence(pred: FenceKind, succ: FenceKind) -> Seq<char> {
    pred.name() + ", "@ + succ.name()
}

/// `rd, csr, rs1`
pub open spec fn operands_csr(rd: IntRegister, csr: nat, rs1: IntRegister) -> Seq<char> {
    rd.name() + ", "@ + decimal(csr) + ", "@ + rs1.name()
}

/// `rd, csr, uimm`
pub open spec fn operands_csr_immediate(rd: IntRegister, csr: nat, uimm: nat) -> Seq<char> {
    rd.name() + ", "@ + decimal(csr) + ", "@ + decimal(uimm)
}

impl Instruction {
    /// The instruction's mnemonic.
    pub open spec fn mnemonic(self) -> Seq<char> {
        match self {
            Instruction::LUI { .. } => "lui"@,
            Instruction::LB { .. } => "lb"@,
            Instruction::LH { .. } => "lh"@,
            Instruction::LW { .. } => "lw"@,
            Instruction::LBU { .. } => "lbu"@,
            Instruction::LHU { .. } => "lhu"@,
            Instruction::SB { .. } => "sb"@,
            Instruction::SH { .. } => "sh"@,
            Instruction::SW { .. } => "sw"@,
            Instruction::SLLI { .. } => "slli"@,
            Instruction::SRLI { .. } => "srli"@,
            Instruction::SRAI { .. } => "srai"@,
            Instruction::SLL { .. } => "sll"@,
            Instruction::SRL { .. } => "srl"@,
            Instruction::SRA { .. } => "sra"@,
            Instruction::ADDI { .. } => "addi"@,
            Instruction::ADD { .. } => "add"@,
            Instruction::SUB { .. } => "sub"@,
            Instruction::ORI { .. } => "ori"@,
            Instruction::XORI { .. } => "xori"@,
            Instruction::ANDI { .. } => "andi"@,
            Instruction::OR { .. } => "or"@,
            Instruction::XOR { .. } => "xor"@,
            Instruction::AND { .. } => "and"@,
            Instruction::SLTI { .. } => "slti"@,
            Instruction::SLTIU { .. } => "sltiu"@,
            Instruction::SLT { .. } => "slt"@,
            Instruction::SLTU { .. } => "sltu"@,
            Instruction::BEQ { .. } => "beq"@,
            Instruction::BNE { .. } => "bne"@,
            Instruction::BLT { .. } => "blt"@,
            Instruction::BGE { .. } => "bge"@,
            Instruction::BLTU { .. } => "bltu"@,
            Instruction::BGEU { .. } => "bgeu"@,
            Instruction::JAL { .. } => "jal"@,
            Instruction::AUIPC { .. } => "auipc"@,
            Instruction::JALR { .. } => "jalr"@,
            Instruction::FENCE { .. } => "fence"@,
            Instruction::FENCETSO => "fence.tso"@,
            Instruction::ECALL => "ecall"@,
            Instruction::EBREAK => "ebreak"@,
            Instruction::FENCEI => "fence.i"@,
            Instruction::CSRRW { .. } => "csrrw"@,
            Instruction::CSRRS { .. } => "csrrs"@,
            Instruction::CSRRC { .. } => "csrrc"@,
            Instruction::CSRRWI { .. } => "csrrwi"@,
            Instruction::CSRRSI { .. } => "csrrsi"@,
            Instruction::CSRRCI { .. } => "csrrci"@,
            Instruction::MUL { .. } => "mul"@,
            Instruction::MULH { .. } => "mulh"@,
            Instruction::MULHSU { .. } => "mulhsu"@,
            Instruction::MULHU { .. } => "mulhu"@,
            Instruction::DIV { .. } => "div"@,
            Instruction::DIVU { .. } => "divu"@,
            Instruction::REM { .. } => "rem"@,
            Instruction::REMU { .. } => "remu"@,
        }
    }

    /// Whether the instruction is written with operands.
    pub open spec fn has_operands(self) -> bool {
        !(self is FENCETSO || self is FENCEI || self is ECALL || self is EBREAK)
    }

    /// The instruction's operands, as they are written after the mnemonic.
    pub open spec fn operands(self) -> Seq<char> {
        match self {
            Instruction::LUI { rd, imm }
            | Instruction::AUIPC { rd, imm } => operands_upper(rd, imm as int),
            Instruction::LB { rd, rs1, imm }
            | Instruction::LH { rd, rs1, imm }
            | Instruction::LW { rd, rs1, imm }
            | Instruction::LBU { rd, rs1, imm }
            | Instruction::LHU { rd, rs1, imm }
            | Instruction::JALR { rd, rs1, imm } => operands_address(rd, imm as int, rs1),
            Instruction::SB { rs1, rs2, imm }
            | Instruction::SH { rs1, rs2, imm }
            | Instruction::SW { rs1, rs2, imm } => operands_address(rs2, imm as int, rs1),
            Instruction::SLLI { rd, rs1, shamt }
            | Instruction::SRLI { rd, rs1, shamt }
            | Instruction::SRAI { rd, rs1, shamt } => operands_immediate(rd, rs1, shamt as int),
            Instruction::ADDI { rd, rs1, imm }
            | Instruction::ORI { rd, rs1, imm }
            | Instruction::XORI { rd, rs1, imm }
            | Instruction::ANDI { rd, rs1, imm }
            | Instruction::SLTI { rd, rs1, imm }
            | Instruction::SLTIU { rd, rs1, imm } => operands_immediate(rd, rs1, imm as int),
            Instruction::SLL { rd, rs1, rs2 }
            | Instruction::SRL { rd, rs1, rs2 }
            | Instruction::SRA { rd, rs1, rs2 }
            | Instruction::ADD { rd, rs1, rs2 }
            | Instruction::SUB { rd, rs1, rs2 }
            | Instruction::OR { rd, rs1, rs2 }
            | Instruction::XOR { rd, rs1, rs2 }
            | Instruction::AND { rd, rs1, rs2 }
            | Instruction::SLT { rd, rs1, rs2 }
            | Instruction::SLTU { rd, rs1, rs2 }
            | Instruction::MUL { rd, rs1, rs2 }
            | Instruction::MULH { rd, rs1, rs2 }
            | Instruction::MULHSU { rd, rs1, rs2 }
            | Instruction::MULHU { rd, rs1, rs2 }
            | Instruction::DIV { rd, rs1, rs2 }
            | Instruction::DIVU { rd, rs1, rs2 }
            | Instruction::REM { rd, rs1, rs2 }
            | Instruction::REMU { rd, rs1, rs2 } => operands_register(rd, rs1, rs2),
            Instruction::BEQ { rs1, rs2, imm }
            | Instruction::BNE { rs1, rs2, imm }
            | Instruction::BLT { rs1, rs2, imm }
            | Instruction::BGE { rs1, rs2, imm }
            | Instruction::BLTU { rs1, rs2, imm }
            | Instruction::BGEU { rs1, rs2, imm } => operands_branch(rs1, rs2, imm as int),
            Instruction::JAL { rd, imm } => operands_jump(rd, imm as int),
            Instruction::FENCE { pred, succ } => operands_fence(pred, succ),
            Instruction::CSRRW { rd, rs1, csr }
            | Instruction::CSRRS { rd, rs1, csr }
            | Instruction::CSRRC { rd, rs1, csr } => operands_csr(rd, csr as nat, rs1),
            Instruction::CSRRWI { rd, uimm, csr }
            | Instruction::CSRRSI { rd, uimm, csr }
            | Instruction::CSRRCI { rd, uimm, csr } => operands_csr_immediate(rd, csr as nat, uimm as nat),
            Instruction::FENCETSO | Instruction::FENCEI | Instruction::ECALL | Instruction::EBREAK => Seq::empty(),
        }
    }

    /// The instruction as it is written in assembly.
    pub open spec fn text(self) -> Seq<char> {
        if self.has_operands() {
            left_aligned(self.mnemonic(), 8) + self.operands()
        } else {
            self.mnemonic()
        }
    }

    /// Every mnemonic has between two and nine characters.
    pub proof fn lemma_mnemonic_len(self)
        ensures
            2 <= self.mnemonic().len() <= 9,
            self.has_operands() ==> self.mnemonic().len() <= 6,
    {
        self.lemma_kinds();
        reveal_strlit("lui");
        reveal_strlit("lb");
        reveal_strlit("lh");
        reveal_strlit("lw");
        reveal_strlit("lbu");
        reveal_strlit("lhu");
        reveal_strlit("sb");
        reveal_strlit("sh");
        reveal_strlit("sw");
        reveal_strlit("slli");
        reveal_strlit("srli");
        reveal_strlit("srai");
        reveal_strlit("sll");
        reveal_strlit("srl");
        reveal_strlit("sra");
        reveal_strlit("addi");
        reveal_strlit("add");
        reveal_strlit("sub");
        reveal_strlit("ori");
        reveal_strlit("xori");
        reveal_strlit("andi");
        reveal_strlit("or");
        reveal_strlit("xor");
        reveal_strlit("and");
        reveal_strlit("slti");
        reveal_strlit("sltiu");
        reveal_strlit("slt");
        reveal_strlit("sltu");
        reveal_strlit("beq");
        reveal_strlit("bne");
        reveal_strlit("blt");
        reveal_strlit("bge");
        reveal_strlit("bltu");
        reveal_strlit("bgeu");
        reveal_strlit("jal");
        reveal_strlit("auipc");
        reveal_strlit("jalr");
        reveal_strlit("fence");
        reveal_strlit("fence.tso");
        reveal_strlit("ecall");
        reveal_strlit("ebreak");
        reveal_strlit("fence.i");
        reveal_strlit("csrrw");
        reveal_strlit("csrrs");
        reveal_strlit("csrrc");
        reveal_strlit("csrrwi");
        reveal_strlit("csrrsi");
        reveal_strlit("csrrci");
        reveal_strlit("mul");
        reveal_strlit("mulh");
        reveal_strlit("mulhsu");
        reveal_strlit("mulhu");
        reveal_strlit("div");
        reveal_strlit("divu");
        reveal_strlit("rem");
        reveal_strlit("remu");
    }

    /// The text of an instruction is never empty, and begins with the
    /// instruction's mnemonic.
    pub proof fn lemma_text_begins_with_mnemonic(self)
        ensures
            self.text().len() >= self.mnemonic().len() >= 2,
            self.mnemonic().is_prefix_of(self.text()),
    {
        self.lemma_mnemonic_len();
        assert(self.mnemonic().is_prefix_of(self.text())) by {
            if self.has_operands() {
                let head = left_aligned(self.mnemonic(), 8);
                assert(head.subrange(0, self.mnemonic().len() as int) =~= self.mnemonic());
                assert(self.text().subrange(0, self.mnemonic().len() as int) =~= self.mnemonic());
            } else {
                assert(self.text().subrange(0, self.mnemonic().len() as int) =~= self.mnemonic());
            }
        }
    }

    /// Whatever a word decodes to has a text, which is not empty and begins
    /// with the mnemonic of the instruction.
    pub proof fn lemma_decoded_text(word: u32)
        ensures
            decode(word) matches Ok(inst) ==> inst.text().len() > 0 && inst.mnemonic().len() > 0
                && inst.mnemonic().is_prefix_of(inst.text()),
    {
        if let Ok(inst) = decode(word) {
            inst.lemma_text_begins_with_mnemonic();
        }
    }

    /// The instruction's mnemonic.
    pub fn mnemonic_str(&self) -> (mnemonic: &'static str)
        ensures
            mnemonic@ == self.mnemonic(),
    {
        match self {
            Instruction::LUI { .. } => "lui",
            Instruction::LB { .. } => "lb",
            Instruction::LH { .. } => "lh",
            Instruction::LW { .. } => "lw",
            Instruction::LBU { .. } => "lbu",
            Instruction::LHU { .. } => "lhu",
            Instruction::SB { .. } => "sb",
            Instruction::SH { .. } => "sh",
            Instruction::SW { .. } => "sw",
            Instruction::SLLI { .. } => "slli",
            Instruction::SRLI { .. } => "srli",
            Instruction::SRAI { .. } => "srai",
            Instruction::SLL { .. } => "sll",
            Instruction::SRL { .. } => "srl",
            Instruction::SRA { .. } => "sra",
            Instruction::ADDI { .. } => "addi",
            Instruction::ADD { .. } => "add",
            Instruction::SUB { .. } => "sub",
            Instruction::ORI { .. } => "ori",
            Instruction::XORI { .. } => "xori",
            Instruction::ANDI { .. } => "andi",
            Instruction::OR { .. } => "or",
            Instruction::XOR { .. } => "xor",
            Instruction::AND { .. } => "and",
            Instruction::SLTI { .. } => "slti",
            Instruction::SLTIU { .. } => "sltiu",
            Instruction::SLT { .. } => "slt",
            Instruction::SLTU { .. } => "sltu",
            Instruction::BEQ { .. } => "beq",
            Instruction::BNE { .. } => "bne",
            Instruction::BLT { .. } => "blt",
            Instruction::BGE { .. } => "bge",
            Instruction::BLTU { .. } => "bltu",
            Instruction::BGEU { .. } => "bgeu",
            Instruction::JAL { .. } => "jal",
            Instruction::AUIPC { .. } => "auipc",
            Instruction::JALR { .. } => "jalr",
            Instruction::FENCE { .. } => "fence",
            Instruction::FENCETSO => "fence.tso",
            Instruction::ECALL => "ecall",
            Instruction::EBREAK => "ebreak",
            Instruction::FENCEI => "fence.i",
            Instruction::CSRRW { .. } => "csrrw",
            Instruction::CSRRS { .. } => "csrrs",
            Instruction::CSRRC { .. } => "csrrc",
            Instruction::CSRRWI { .. } => "csrrwi",
            Instruction::CSRRSI { .. } => "csrrsi",
            Instruction::CSRRCI { .. } => "csrrci",
            Instruction::MUL { .. } => "mul",
            Instruction::MULH { .. } => "mulh",
            Instruction::MULHSU { .. } => "mulhsu",
            Instruction::MULHU { .. } => "mulhu",
            Instruction::DIV { .. } => "div",
            Instruction::DIVU { .. } => "divu",
            Instruction::REM { .. } => "rem",
            Instruction::REMU { .. } => "remu",
        }
    }

    /// The instruction as it is written in assembly.
    pub fn to_string(&self) -> (text: String)
        ensures
            text@ == self.text(),
    {
        proof {
            self.lemma_kinds();
        }
        let mut text = String::new();
        match *self {
            Instruction::FENCETSO | Instruction::FENCEI | Instruction::ECALL | Instruction::EBREAK => {
                text.append(self.mnemonic_str());
                assert(text@ =~= self.mnemonic());
                return text;
            },
            _ => {},
        }
        push_left_aligned(&mut text, self.mnemonic_str(), 8);
        assert(text@ =~= left_aligned(self.mnemonic(), 8));
        match *self {
            Instruction::LUI { rd, imm }
            | Instruction::AUIPC { rd, imm } => {
                push_upper(&mut text, rd, imm);
            },
            Instruction::LB { rd, rs1, imm }
            | Instruction::LH { rd, rs1, imm }
            | Instruction::LW { rd, rs1, imm }
            | Instruction::LBU { rd, rs1, imm }
            | Instruction::LHU { rd, rs1, imm }
            | Instruction::JALR { rd, rs1, imm } => {
                push_address(&mut text, rd, imm, rs1);
            },
            Instruction::SB { rs1, rs2, imm }
            | Instruction::SH { rs1, rs2, imm }
            | Instruction::SW { rs1, rs2, imm } => {
                push_address(&mut text, rs2, imm, rs1);
            },
            Instruction::SLLI { rd, rs1, shamt }
            | Instruction::SRLI { rd, rs1, shamt }
            | Instruction::SRAI { rd, rs1, shamt } => {
                push_immediate(&mut text, rd, rs1, shamt as i16);
            },
            Instruction::ADDI { rd, rs1, imm }
            | Instruction::ORI { rd, rs1, imm }
            | Instruction::XORI { rd, rs1, imm }
            | Instruction::ANDI { rd, rs1, imm }
            | Instruction::SLTI { rd, rs1, imm }
            | Instruction::SLTIU { rd, rs1, imm } => {
                push_immediate(&mut text, rd, rs1, imm);
            },
            Instruction::SLL { rd, rs1, rs2 }
            | Instruction::SRL { rd, rs1, rs2 }
            | Instruction::SRA { rd, rs1, rs2 }
            | Instruction::ADD { rd, rs1, rs2 }
            | Instruction::SUB { rd, rs1, rs2 }
            | Instruction::OR { rd, rs1, rs2 }
            | Instruction::XOR { rd, rs1, rs2 }
            | Instruction::AND { rd, rs1, rs2 }
            | Instruction::SLT { rd, rs1, rs2 }
            | Instruction::SLTU { rd, rs1, rs2 }
            | Instruction::MUL { rd, rs1, rs2 }
            | Instruction::MULH { rd, rs1, rs2 }
            | Instruction::MULHSU { rd, rs1, rs2 }
            | Instruction::MULHU { rd, rs1, rs2 }
            | Instruction::DIV { rd, rs1, rs2 }
            | Instruction::DIVU { rd, rs1, rs2 }
            | Instruction::REM { rd, rs1, rs2 }
            | Instruction::REMU { rd, rs1, rs2 } => {
                push_register(&mut text, rd, rs1, rs2);
            },
            Instruction::BEQ { rs1, rs2, imm }
            | Instruction::BNE { rs1, rs2, imm }
            | Instruction::BLT { rs1, rs2, imm }
            | Instruction::BGE { rs1, rs2, imm }
            | Instruction::BLTU { rs1, rs2, imm }
            | Instruction::BGEU { rs1, rs2, imm } => {
                push_branch(&mut text, rs1, rs2, imm);
            },
            Instruction::JAL { rd, imm } => {
                push_jump(&mut text, rd, imm);
            },
            Instruction::FENCE { pred, succ } => {
                push_fence(&mut text, pred, succ);
            },
            Instruction::CSRRW { rd, rs1, csr }
            | Instruction::CSRRS { rd, rs1, csr }
            | Instruction::CSRRC { rd, rs1, csr } => {
                push_csr(&mut text, rd, csr, rs1);
            },
            Instruction::CSRRWI { rd, uimm, csr }
            | Instruction::CSRRSI { rd, uimm, csr }
            | Instruction::CSRRCI { rd, uimm, csr } => {
                push_csr_immediate(&mut text, rd, csr, uimm);
            },
            Instruction::FENCETSO | Instruction::FENCEI | Instruction::ECALL | Instruction::EBREAK => {},
        }
        text
    }
}

fn push_upper(text: &mut String, rd: IntRegister, imm: i32)
    ensures
        final(text)@ == old(text)@ + operands_upper(rd, imm as int),
{
    text.append(rd.as_str());
    text.append(", ");
    push_signed(text, imm);
    assert(final(text)@ =~= old(text)@ + operands_upper(rd, imm as int));
}

fn push_address(text: &mut String, reg: IntRegister, imm: i16, base: IntRegister)
    ensures
        final(text)@ == old(text)@ + operands_address(reg, imm as int, base),
{
    text.append(reg.as_str());
    text.append(", ");
    push_signed(text, imm as i32);
    text.append("(");
    text.append(base.as_str());
    text.append(")");
    assert(final(text)@ =~= old(text)@ + operands_address(reg, imm as int, base));
}

fn push_immediate(text: &mut String, rd: IntRegister, rs1: IntRegister, imm: i16)
    ensures
        final(text)@ == old(text)@ + operands_immediate(rd, rs1, imm as int),
{
    text.append(rd.as_str());
    text.append(", ");
    text.append(rs1.as_str());
    text.append(", ");
    push_signed(text, imm as i32);
    assert(final(text)@ =~= old(text)@ + operands_immediate(rd, rs1, imm as int));
}

fn push_register(text: &mut String, rd: IntRegister, rs1: IntRegister, rs2: IntRegister)
    ensures
        final(text)@ == old(text)@ + operands_register(rd, rs1, rs2),
{
    text.append(rd.as_str());
    text.append(", ");
    text.append(rs1.as_str());
    text.append(", ");
    text.append(rs2.as_str());
    assert(final(text)@ =~= old(text)@ + operands_register(rd, rs1, rs2));
}

fn push_branch(text: &mut String, rs1: IntRegister, rs2: IntRegister, imm: i16)
    ensures
        final(text)@ == old(text)@ + operands_branch(rs1, rs2, imm as int),
{
    text.append(rs1.as_str());
    text.append(", ");
    text.append(rs2.as_str());
    text.append(", pc");
    push_explicit(text, imm as i32);
    assert(final(text)@ =~= old(text)@ + operands_branch(rs1, rs2, imm as int));
}

fn push_jump(text: &mut String, rd: IntRegister, imm: i32)
    ensures
        final(text)@ == old(text)@ + operands_jump(rd, imm as int),
{
    text.append(rd.as_str());
    text.append(", pc");
    push_explicit(text, imm);
    assert(final(text)@ =~= old(text)@ + operands_jump(rd, imm as int));
}

fn push_fence(text: &mut String, pred: FenceKind, succ: FenceKind)
    ensures
        final(text)@ == old(text)@ + operands_fence(pred, succ),
{
    text.append(pred.as_str());
    text.append(", ");
    text.append(succ.as_str());
    assert(final(text)@ =~= old(text)@ + operands_fence(pred, succ));
}

fn push_csr(text: &mut String, rd: IntRegister, csr: u16, rs1: IntRegister)
    ensures
        final(text)@ == old(text)@ + operands_csr(rd, csr as nat, rs1),
{
    text.append(rd.as_str());
    text.append(", ");
    push_decimal(text, csr as u64);
    text.append(", ");
    text.append(rs1.as_str());
    assert(final(text)@ =~= old(text)@ + operands_csr(rd, csr as nat, rs1));
}

fn push_csr_immediate(text: &mut String, rd: IntRegister, csr: u16, uimm: u8)
    ensures
        final(text)@ == old(text)@ + operands_csr_immediate(rd, csr as nat, uimm as nat),
{
    text.append(rd.as_str());
    text.append(", ");
    push_decimal(text, csr as u64);
    text.append(", ");
    push_decimal(text, uimm as u64);
    assert(final(text)@ =~= old(text)@ + operands_csr_immediate(rd, csr as nat, uimm as nat));
}

} // verus!
