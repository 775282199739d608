//! Instruction set model: register identifiers, the decoded-instruction
//! type, and the total decoder from 32-bit words to instructions.

use vstd::prelude::*;

verus! {

use crate::codec::{
    opcode_of, rd_of, funct3_of, rs1_of, rs2_of, funct7_of, i_imm_raw, s_imm_raw, b_imm_raw,
    u_imm_field, j_imm_raw, i_imm, s_imm, b_imm, u_imm, j_imm, shamt6_of, shamt5_of,
    rshift_type_of, fence_fm_of, fence_pred_of, fence_succ_of, sign_extend, sign_extend_to_i32,
    lemma_field_bounds, lemma_imm_raw_in_range, lemma_sign_extend_correct,
};
use vstd::arithmetic::power2::lemma2_to64;

/// A register identifier: the 32 general-purpose registers `x0`..`x31`
/// (index 0 is hardwired to zero) and the distinguished program counter.
#[derive(Debug, PartialEq, Eq, Structural, Clone, Copy)]
pub enum Register {
    X0,
    X1,
    X2,
    X3,
    X4,
    X5,
    X6,
    X7,
    X8,
    X9,
    X10,
    X11,
    X12,
    X13,
    X14,
    X15,
    X16,
    X17,
    X18,
    X19,
    X20,
    X21,
    X22,
    X23,
    X24,
    X25,
    X26,
    X27,
    X28,
    X29,
    X30,
    X31,
    PC,
}

impl Register {
    /// The numeric index of a general-purpose register; 32 for the
    /// program counter, which has no slot in the register file.
    pub open spec fn index_spec(self) -> int {
        match self {
            Register::X0 => 0,
            Register::X1 => 1,
            Register::X2 => 2,
            Register::X3 => 3,
            Register::X4 => 4,
            Register::X5 => 5,
            Register::X6 => 6,
            Register::X7 => 7,
            Register::X8 => 8,
            Register::X9 => 9,
            Register::X10 => 10,
            Register::X11 => 11,
            Register::X12 => 12,
            Register::X13 => 13,
            Register::X14 => 14,
            Register::X15 => 15,
            Register::X16 => 16,
            Register::X17 => 17,
            Register::X18 => 18,
            Register::X19 => 19,
            Register::X20 => 20,
            Register::X21 => 21,
            Register::X22 => 22,
            Register::X23 => 23,
            Register::X24 => 24,
            Register::X25 => 25,
            Register::X26 => 26,
            Register::X27 => 27,
            Register::X28 => 28,
            Register::X29 => 29,
            Register::X30 => 30,
            Register::X31 => 31,
            Register::PC => 32,
        }
    }

    /// A general-purpose register, as opposed to the program counter.
    pub open spec fn is_gpr(self) -> bool {
        self.index_spec() < 32
    }

    /// The 0-31 index of a general-purpose register.
    pub fn index(self) -> (i: usize)
        requires
            self.is_gpr(),
        ensures
            i == self.index_spec(),
    {
        match self {
            Register::X0 => 0,
            Register::X1 => 1,
            Register::X2 => 2,
            Register::X3 => 3,
            Register::X4 => 4,
            Register::X5 => 5,
            Register::X6 => 6,
            Register::X7 => 7,
            Register::X8 => 8,
            Register::X9 => 9,
            Register::X10 => 10,
            Register::X11 => 11,
            Register::X12 => 12,
            Register::X13 => 13,
            Register::X14 => 14,
            Register::X15 => 15,
            Register::X16 => 16,
            Register::X17 => 17,
            Register::X18 => 18,
            Register::X19 => 19,
            Register::X20 => 20,
            Register::X21 => 21,
            Register::X22 => 22,
            Register::X23 => 23,
            Register::X24 => 24,
            Register::X25 => 25,
            Register::X26 => 26,
            Register::X27 => 27,
            Register::X28 => 28,
            Register::X29 => 29,
            Register::X30 => 30,
            Register::X31 => 31,
            Register::PC => 0,
        }
    }

    /// The general-purpose register with the given 0-31 index.
    pub fn from_index(val: usize) -> (r: Register)
        requires
            val < 32,
        ensures
            r == reg_from_index(val as int),
            r.is_gpr(),
            r.index_spec() == val,
    {
        match val {
            0 => Register::X0,
            1 => Register::X1,
            2 => Register::X2,
            3 => Register::X3,
            4 => Register::X4,
            5 => Register::X5,
            6 => Register::X6,
            7 => Register::X7,
            8 => Register::X8,
            9 => Register::X9,
            10 => Register::X10,
            11 => Register::X11,
            12 => Register::X12,
            13 => Register::X13,
            14 => Register::X14,
            15 => Register::X15,
            16 => Register::X16,
            17 => Register::X17,
            18 => Register::X18,
            19 => Register::X19,
            20 => Register::X20,
            21 => Register::X21,
            22 => Register::X22,
            23 => Register::X23,
            24 => Register::X24,
            25 => Register::X25,
            26 => Register::X26,
            27 => Register::X27,
            28 => Register::X28,
            29 => Register::X29,
            30 => Register::X30,
            _ => Register::X31,
        }
    }
}

/// The general-purpose register with the given 0-31 index.
pub open spec fn reg_from_index(i: int) -> Register {
    if i == 0 {
        Register::X0
    } else if i == 1 {
        Register::X1
    } else if i == 2 {
        Register::X2
    } else if i == 3 {
        Register::X3
    } else if i == 4 {
        Register::X4
    } else if i == 5 {
        Register::X5
    } else if i == 6 {
        Register::X6
    } else if i == 7 {
        Register::X7
    } else if i == 8 {
        Register::X8
    } else if i == 9 {
        Register::X9
    } else if i == 10 {
        Register::X10
    } else if i == 11 {
        Register::X11
    } else if i == 12 {
        Register::X12
    } else if i == 13 {
        Register::X13
    } else if i == 14 {
        Register::X14
    } else if i == 15 {
        Register::X15
    } else if i == 16 {
        Register::X16
    } else if i == 17 {
        Register::X17
    } else if i == 18 {
        Register::X18
    } else if i == 19 {
        Register::X19
    } else if i == 20 {
        Register::X20
    } else if i == 21 {
        Register::X21
    } else if i == 22 {
        Register::X22
    } else if i == 23 {
        Register::X23
    } else if i == 24 {
        Register::X24
    } else if i == 25 {
        Register::X25
    } else if i == 26 {
        Register::X26
    } else if i == 27 {
        Register::X27
    } else if i == 28 {
        Register::X28
    } else if i == 29 {
        Register::X29
    } else if i == 30 {
        Register::X30
    } else {
        Register::X31
    }
}

/// Indexing a general-purpose register and looking the index back up
/// returns the same register.
pub proof fn lemma_reg_index_roundtrip(r: Register)
    requires
        r.is_gpr(),
    ensures
        reg_from_index(r.index_spec()) == r,
{
}

/// The ABI names of the 32 general-purpose registers, in index order.
#[derive(Debug, PartialEq, Eq, Structural, Clone, Copy)]
pub enum AbiRegister {
    Zero,
    Ra,
    Sp,
    Gp,
    Tp,
    T0,
    T1,
    T2,
    S0Fp,
    S1,
    A0,
    A1,
    A2,
    A3,
    A4,
    A5,
    A6,
    A7,
    S2,
    S3,
    S4,
    S5,
    S6,
    S7,
    S8,
    S9,
    S10,
    S11,
    T3,
    T4,
    T5,
    T6,
}

/// The register an ABI name denotes.
pub open spec fn abi_to_reg(abi_name: AbiRegister) -> Register {
    match abi_name {
        AbiRegister::Zero => Register::X0,
        AbiRegister::Ra => Register::X1,
        AbiRegister::Sp => Register::X2,
        AbiRegister::Gp => Register::X3,
        AbiRegister::Tp => Register::X4,
        AbiRegister::T0 => Register::X5,
        AbiRegister::T1 => Register::X6,
        AbiRegister::T2 => Register::X7,
        AbiRegister::S0Fp => Register::X8,
        AbiRegister::S1 => Register::X9,
        AbiRegister::A0 => Register::X10,
        AbiRegister::A1 => Register::X11,
        AbiRegister::A2 => Register::X12,
        AbiRegister::A3 => Register::X13,
        AbiRegister::A4 => Register::X14,
        AbiRegister::A5 => Register::X15,
        AbiRegister::A6 => Register::X16,
        AbiRegister::A7 => Register::X17,
        AbiRegister::S2 => Register::X18,
        AbiRegister::S3 => Register::X19,
        AbiRegister::S4 => Register::X20,
        AbiRegister::S5 => Register::X21,
        AbiRegister::S6 => Register::X22,
        AbiRegister::S7 => Register::X23,
        AbiRegister::S8 => Register::X24,
        AbiRegister::S9 => Register::X25,
        AbiRegister::S10 => Register::X26,
        AbiRegister::S11 => Register::X27,
        AbiRegister::T3 => Register::X28,
        AbiRegister::T4 => Register::X29,
        AbiRegister::T5 => Register::X30,
        AbiRegister::T6 => Register::X31,
    }
}

impl From<AbiRegister> for Register {
    fn from(abi_name: AbiRegister) -> (r: Register) {
        match abi_name {
            AbiRegister::Zero => Register::X0,
            AbiRegister::Ra => Register::X1,
            AbiRegister::Sp => Register::X2,
            AbiRegister::Gp => Register::X3,
            AbiRegister::Tp => Register::X4,
            AbiRegister::T0 => Register::X5,
            AbiRegister::T1 => Register::X6,
            AbiRegister::T2 => Register::X7,
            AbiRegister::S0Fp => Register::X8,
            AbiRegister::S1 => Register::X9,
            AbiRegister::A0 => Register::X10,
            AbiRegister::A1 => Register::X11,
            AbiRegister::A2 => Register::X12,
            AbiRegister::A3 => Register::X13,
            AbiRegister::A4 => Register::X14,
            AbiRegister::A5 => Register::X15,
            AbiRegister::A6 => Register::X16,
            AbiRegister::A7 => Register::X17,
            AbiRegister::S2 => Register::X18,
            AbiRegister::S3 => Register::X19,
            AbiRegister::S4 => Register::X20,
            AbiRegister::S5 => Register::X21,
            AbiRegister::S6 => Register::X22,
            AbiRegister::S7 => Register::X23,
            AbiRegister::S8 => Register::X24,
            AbiRegister::S9 => Register::X25,
            AbiRegister::S10 => Register::X26,
            AbiRegister::S11 => Register::X27,
            AbiRegister::T3 => Register::X28,
            AbiRegister::T4 => Register::X29,
            AbiRegister::T5 => Register::X30,
            AbiRegister::T6 => Register::X31,
        }
    }
}

impl vstd::std_specs::convert::FromSpecImpl<AbiRegister> for Register {
    open spec fn obeys_from_spec() -> bool {
        true
    }

    open spec fn from_spec(v: AbiRegister) -> Register {
        abi_to_reg(v)
    }
}

/// A decoded RV64I instruction: one variant per recognized operation,
/// carrying exactly the operand fields of its encoding format, plus
/// `Undefined` for every word that matches no recognized encoding.
#[derive(Debug, PartialEq, Eq, Structural, Clone, Copy)]
pub enum Instruction {
    Undefined,
    // B-Type
    Beq { rs1: Register, rs2: Register, imm: i32 },
    Bne { rs1: Register, rs2: Register, imm: i32 },
    Blt { rs1: Register, rs2: Register, imm: i32 },
    Bge { rs1: Register, rs2: Register, imm: i32 },
    Bltu { rs1: Register, rs2: Register, imm: i32 },
    Bgeu { rs1: Register, rs2: Register, imm: i32 },
    // I-Type
    Lb { rd: Register, rs1: Register, imm: i32 },
    Lh { rd: Register, rs1: Register, imm: i32 },
    Lw { rd: Register, rs1: Register, imm: i32 },
    Lbu { rd: Register, rs1: Register, imm: i32 },
    Lhu { rd: Register, rs1: Register, imm: i32 },
    Lwu { rd: Register, rs1: Register, imm: i32 },
    Ld { rd: Register, rs1: Register, imm: i32 },
    Fence { rd: Register, rs1: Register, succ: u32, pred: u32, fm: u32 },
    Addi { rd: Register, rs1: Register, imm: i32 },
    Slti { rd: Register, rs1: Register, imm: i32 },
    Sltiu { rd: Register, rs1: Register, imm: i32 },
    Xori { rd: Register, rs1: Register, imm: i32 },
    Ori { rd: Register, rs1: Register, imm: i32 },
    Andi { rd: Register, rs1: Register, imm: i32 },
    Slli { rd: Register, rs1: Register, shamt: u32 },
    Srli { rd: Register, rs1: Register, shamt: u32 },
    Srai { rd: Register, rs1: Register, shamt: u32 },
    Addiw { rd: Register, rs1: Register, imm: i32 },
    Slliw { rd: Register, rs1: Register, shamt: u32 },
    Srliw { rd: Register, rs1: Register, shamt: u32 },
    Sraiw { rd: Register, rs1: Register, shamt: u32 },
    Jalr { rd: Register, rs1: Register, imm: i32 },
    Ebreak,
    Ecall,
    // J-Type
    Jal { rd: Register, imm: i32 },
    // R-Type
    Add { rd: Register, rs1: Register, rs2: Register },
    Sub { rd: Register, rs1: Register, rs2: Register },
    Sll { rd: Register, rs1: Register, rs2: Register },
    Slt { rd: Register, rs1: Register, rs2: Register },
    Sltu { rd: Register, rs1: Register, rs2: Register },
    Xor { rd: Register, rs1: Register, rs2: Register },
    Srl { rd: Register, rs1: Register, rs2: Register },
    Sra { rd: Register, rs1: Register, rs2: Register },
    Or { rd: Register, rs1: Register, rs2: Register },
    And { rd: Register, rs1: Register, rs2: Register },
    Addw { rd: Register, rs1: Register, rs2: Register },
    Subw { rd: Register, rs1: Register, rs2: Register },
    Sllw { rd: Register, rs1: Register, rs2: Register },
    Srlw { rd: Register, rs1: Register, rs2: Register },
    Sraw { rd: Register, rs1: Register, rs2: Register },
    // S-Type
    Sb { rs2: Register, rs1: Register, imm: i32 },
    Sh { rs2: Register, rs1: Register, imm: i32 },
    Sw { rs2: Register, rs1: Register, imm: i32 },
    Sd { rs2: Register, rs1: Register, imm: i32 },
    // U-Type
    Auipc { rd: Register, imm: i32 },
    Lui { rd: Register, imm: i32 },
}

impl Instruction {
    /// Every decoded instruction satisfies this: register operands name
    /// general-purpose registers, shift amounts fit their field width, and
    /// fence sets fit four bits.
    pub open spec fn wf(self) -> bool {
        match self {
            Instruction::Undefined => true,
            Instruction::Beq { rs1, rs2, imm } => rs1.is_gpr() && rs2.is_gpr(),
            Instruction::Bne { rs1, rs2, imm } => rs1.is_gpr() && rs2.is_gpr(),
            Instruction::Blt { rs1, rs2, imm } => rs1.is_gpr() && rs2.is_gpr(),
            Instruction::Bge { rs1, rs2, imm } => rs1.is_gpr() && rs2.is_gpr(),
            Instruction::Bltu { rs1, rs2, imm } => rs1.is_gpr() && rs2.is_gpr(),
            Instruction::Bgeu { rs1, rs2, imm } => rs1.is_gpr() && rs2.is_gpr(),
            Instruction::Lb { rd, rs1, imm } => rd.is_gpr() && rs1.is_gpr(),
            Instruction::Lh { rd, rs1, imm } => rd.is_gpr() && rs1.is_gpr(),
            Instruction::Lw { rd, rs1, imm } => rd.is_gpr() && rs1.is_gpr(),
            Instruction::Lbu { rd, rs1, imm } => rd.is_gpr() && rs1.is_gpr(),
            Instruction::Lhu { rd, rs1, imm } => rd.is_gpr() && rs1.is_gpr(),
            Instruction::Lwu { rd, rs1, imm } => rd.is_gpr() && rs1.is_gpr(),
            Instruction::Ld { rd, rs1, imm } => rd.is_gpr() && rs1.is_gpr(),
            Instruction::Fence { rd, rs1, succ, pred, fm } => rd.is_gpr() && rs1.is_gpr()
                && succ < 16 && pred < 16 && fm < 16,
            Instruction::Addi { rd, rs1, imm } => rd.is_gpr() && rs1.is_gpr(),
            Instruction::Slti { rd, rs1, imm } => rd.is_gpr() && rs1.is_gpr(),
            Instruction::Sltiu { rd, rs1, imm } => rd.is_gpr() && rs1.is_gpr(),
            Instruction::Xori { rd, rs1, imm } => rd.is_gpr() && rs1.is_gpr(),
            Instruction::Ori { rd, rs1, imm } => rd.is_gpr() && rs1.is_gpr(),
            Instruction::Andi { rd, rs1, imm } => rd.is_gpr() && rs1.is_gpr(),
            Instruction::Slli { rd, rs1, shamt } => rd.is_gpr() && rs1.is_gpr() && shamt < 64,
            Instruction::Srli { rd, rs1, shamt } => rd.is_gpr() && rs1.is_gpr() && shamt < 64,
            Instruction::Srai { rd, rs1, shamt } => rd.is_gpr() && rs1.is_gpr() && shamt < 64,
            Instruction::Addiw { rd, rs1, imm } => rd.is_gpr() && rs1.is_gpr(),
            Instruction::Slliw { rd, rs1, shamt } => rd.is_gpr() && rs1.is_gpr() && shamt < 32,
            Instruction::Srliw { rd, rs1, shamt } => rd.is_gpr() && rs1.is_gpr() && shamt < 32,
            Instruction::Sraiw { rd, rs1, shamt } => rd.is_gpr() && rs1.is_gpr() && shamt < 32,
            Instruction::Jalr { rd, rs1, imm } => rd.is_gpr() && rs1.is_gpr(),
            Instruction::Ebreak => true,
            Instruction::Ecall => true,
            Instruction::Jal { rd, imm } => rd.is_gpr(),
            Instruction::Add { rd, rs1, rs2 } => rd.is_gpr() && rs1.is_gpr() && rs2.is_gpr(),
            Instruction::Sub { rd, rs1, rs2 } => rd.is_gpr() && rs1.is_gpr() && rs2.is_gpr(),
            Instruction::Sll { rd, rs1, rs2 } => rd.is_gpr() && rs1.is_gpr() && rs2.is_gpr(),
            Instruction::Slt { rd, rs1, rs2 } => rd.is_gpr() && rs1.is_gpr() && rs2.is_gpr(),
            Instruction::Sltu { rd, rs1, rs2 } => rd.is_gpr() && rs1.is_gpr() && rs2.is_gpr(),
            Instruction::Xor { rd, rs1, rs2 } => rd.is_gpr() && rs1.is_gpr() && rs2.is_gpr(),
            Instruction::Srl { rd, rs1, rs2 } => rd.is_gpr() && rs1.is_gpr() && rs2.is_gpr(),
            Instruction::Sra { rd, rs1, rs2 } => rd.is_gpr() && rs1.is_gpr() && rs2.is_gpr(),
            Instruction::Or { rd, rs1, rs2 } => rd.is_gpr() && rs1.is_gpr() && rs2.is_gpr(),
            Instruction::And { rd, rs1, rs2 } => rd.is_gpr() && rs1.is_gpr() && rs2.is_gpr(),
            Instruction::Addw { rd, rs1, rs2 } => rd.is_gpr() && rs1.is_gpr() && rs2.is_gpr(),
            Instruction::Subw { rd, rs1, rs2 } => rd.is_gpr() && rs1.is_gpr() && rs2.is_gpr(),
            Instruction::Sllw { rd, rs1, rs2 } => rd.is_gpr() && rs1.is_gpr() && rs2.is_gpr(),
            Instruction::Srlw { rd, rs1, rs2 } => rd.is_gpr() && rs1.is_gpr() && rs2.is_gpr(),
            Instruction::Sraw { rd, rs1, rs2 } => rd.is_gpr() && rs1.is_gpr() && rs2.is_gpr(),
            Instruction::Sb { rs2, rs1, imm } => rs1.is_gpr() && rs2.is_gpr(),
            Instruction::Sh { rs2, rs1, imm } => rs1.is_gpr() && rs2.is_gpr(),
            Instruction::Sw { rs2, rs1, imm } => rs1.is_gpr() && rs2.is_gpr(),
            Instruction::Sd { rs2, rs1, imm } => rs1.is_gpr() && rs2.is_gpr(),
            Instruction::Auipc { rd, imm } => rd.is_gpr(),
            Instruction::Lui { rd, imm } => rd.is_gpr(),
        }
    }
}

/// The six RV64I encoding formats.
#[derive(Debug, PartialEq, Eq, Structural, Clone, Copy)]
pub enum InstructionFormat {
    R,
    I,
    S,
    B,
    U,
    J,
}

/// The encoding format a 7-bit opcode selects, or `None` when the opcode
/// is not recognized. This is the 128-entry opcode dispatch table.
pub open spec fn spec_format_of(op: u32) -> Option<InstructionFormat> {
    if op == 0x03 || op == 0x0f || op == 0x13 || op == 0x1b || op == 0x67 || op == 0x73 {
        Some(InstructionFormat::I)
    } else if op == 0x17 || op == 0x37 {
        Some(InstructionFormat::U)
    } else if op == 0x23 {
        Some(InstructionFormat::S)
    } else if op == 0x33 || op == 0x3b {
        Some(InstructionFormat::R)
    } else if op == 0x63 {
        Some(InstructionFormat::B)
    } else if op == 0x6f {
        Some(InstructionFormat::J)
    } else {
        None
    }
}

/// B-format dispatch: branches, selected by funct3.
pub open spec fn spec_decode_b(w: u32) -> Instruction {
    let rs1 = reg_from_index(rs1_of(w) as int);
    let rs2 = reg_from_index(rs2_of(w) as int);
    let imm = b_imm(w) as i32;
    let f3 = funct3_of(w);
    if f3 == 0 {
        Instruction::Beq { rs1, rs2, imm }
    } else if f3 == 1 {
        Instruction::Bne { rs1, rs2, imm }
    } else if f3 == 4 {
        Instruction::Blt { rs1, rs2, imm }
    } else if f3 == 5 {
        Instruction::Bge { rs1, rs2, imm }
    } else if f3 == 6 {
        Instruction::Bltu { rs1, rs2, imm }
    } else if f3 == 7 {
        Instruction::Bgeu { rs1, rs2, imm }
    } else {
        Instruction::Undefined
    }
}

/// I-format dispatch: loads, fence, immediate ALU operations and their
/// 32-bit variants, jalr, and the ecall/ebreak pair, selected by opcode
/// and funct3; the right-shift immediates also read bit 30 of the word.
pub open spec fn spec_decode_i(w: u32) -> Instruction {
    let rd = reg_from_index(rd_of(w) as int);
    let rs1 = reg_from_index(rs1_of(w) as int);
    let imm = i_imm(w) as i32;
    let op = opcode_of(w);
    let f3 = funct3_of(w);
    if op == 0x03 {
        if f3 == 0 {
            Instruction::Lb { rd, rs1, imm }
        } else if f3 == 1 {
            Instruction::Lh { rd, rs1, imm }
        } else if f3 == 2 {
            Instruction::Lw { rd, rs1, imm }
        } else if f3 == 4 {
            Instruction::Lbu { rd, rs1, imm }
        } else if f3 == 5 {
            Instruction::Lhu { rd, rs1, imm }
        } else if f3 == 6 {
            Instruction::Lwu { rd, rs1, imm }
        } else if f3 == 3 {
            Instruction::Ld { rd, rs1, imm }
        } else {
            Instruction::Undefined
        }
    } else if op == 0x0f {
        if f3 == 0 {
            Instruction::Fence {
                rd,
                rs1,
                succ: fence_succ_of(w),
                pred: fence_pred_of(w),
                fm: fence_fm_of(w),
            }
        } else {
            Instruction::Undefined
        }
    } else if op == 0x13 {
        if f3 == 0 {
            Instruction::Addi { rd, rs1, imm }
        } else if f3 == 2 {
            Instruction::Slti { rd, rs1, imm }
        } else if f3 == 3 {
            Instruction::Sltiu { rd, rs1, imm }
        } else if f3 == 4 {
            Instruction::Xori { rd, rs1, imm }
        } else if f3 == 6 {
            Instruction::Ori { rd, rs1, imm }
        } else if f3 == 7 {
            Instruction::Andi { rd, rs1, imm }
        } else if f3 == 1 {
            Instruction::Slli { rd, rs1, shamt: shamt6_of(w) }
        } else if f3 == 5 && rshift_type_of(w) == 0 {
            Instruction::Srli { rd, rs1, shamt: shamt6_of(w) }
        } else if f3 == 5 && rshift_type_of(w) == 1 {
            Instruction::Srai { rd, rs1, shamt: shamt6_of(w) }
        } else {
            Instruction::Undefined
        }
    } else if op == 0x1b {
        if f3 == 0 {
            Instruction::Addiw { rd, rs1, imm }
        } else if f3 == 1 {
            Instruction::Slliw { rd, rs1, shamt: shamt5_of(w) }
        } else if f3 == 5 && rshift_type_of(w) == 0 {
            Instruction::Srliw { rd, rs1, shamt: shamt5_of(w) }
        } else if f3 == 5 && rshift_type_of(w) == 1 {
            Instruction::Sraiw { rd, rs1, shamt: shamt5_of(w) }
        } else {
            Instruction::Undefined
        }
    } else if op == 0x67 {
        if f3 == 0 {
            Instruction::Jalr { rd, rs1, imm }
        } else {
            Instruction::Undefined
        }
    } else if op == 0x73 {
        if f3 == 0 && i_imm_raw(w) == 0 && rs1_of(w) == 0 && rd_of(w) == 0 {
            Instruction::Ecall
        } else if f3 == 0 && i_imm_raw(w) == 1 && rs1_of(w) == 0 && rd_of(w) == 0 {
            Instruction::Ebreak
        } else {
            Instruction::Undefined
        }
    } else {
        Instruction::Undefined
    }
}

/// J-format dispatch: jal.
pub open spec fn spec_decode_j(w: u32) -> Instruction {
    let rd = reg_from_index(rd_of(w) as int);
    let imm = j_imm(w) as i32;
    if opcode_of(w) == 0x6f {
        Instruction::Jal { rd, imm }
    } else {
        Instruction::Undefined
    }
}

/// R-format dispatch: register ALU operations and their 32-bit variants,
/// selected by opcode, funct7, and funct3.
pub open spec fn spec_decode_r(w: u32) -> Instruction {
    let rd = reg_from_index(rd_of(w) as int);
    let rs1 = reg_from_index(rs1_of(w) as int);
    let rs2 = reg_from_index(rs2_of(w) as int);
    let op = opcode_of(w);
    let f3 = funct3_of(w);
    let f7 = funct7_of(w);
    if op == 0x33 {
        if f7 == 0x00 && f3 == 0 {
            Instruction::Add { rd, rs1, rs2 }
        } else if f7 == 0x20 && f3 == 0 {
            Instruction::Sub { rd, rs1, rs2 }
        } else if f7 == 0x00 && f3 == 1 {
            Instruction::Sll { rd, rs1, rs2 }
        } else if f7 == 0x00 && f3 == 2 {
            Instruction::Slt { rd, rs1, rs2 }
        } else if f7 == 0x00 && f3 == 3 {
            Instruction::Sltu { rd, rs1, rs2 }
        } else if f7 == 0x00 && f3 == 4 {
            Instruction::Xor { rd, rs1, rs2 }
        } else if f7 == 0x00 && f3 == 5 {
            Instruction::Srl { rd, rs1, rs2 }
        } else if f7 == 0x20 && f3 == 5 {
            Instruction::Sra { rd, rs1, rs2 }
        } else if f7 == 0x00 && f3 == 6 {
            Instruction::Or { rd, rs1, rs2 }
        } else if f7 == 0x00 && f3 == 7 {
            Instruction::And { rd, rs1, rs2 }
        } else {
            Instruction::Undefined
        }
    } else if op == 0x3b {
        if f7 == 0x00 && f3 == 0 {
            Instruction::Addw { rd, rs1, rs2 }
        } else if f7 == 0x20 && f3 == 0 {
            Instruction::Subw { rd, rs1, rs2 }
        } else if f7 == 0x00 && f3 == 1 {
            Instruction::Sllw { rd, rs1, rs2 }
        } else if f7 == 0x00 && f3 == 5 {
            Instruction::Srlw { rd, rs1, rs2 }
        } else if f7 == 0x20 && f3 == 5 {
            Instruction::Sraw { rd, rs1, rs2 }
        } else {
            Instruction::Undefined
        }
    } else {
        Instruction::Undefined
    }
}

/// S-format dispatch: stores, selected by funct3.
pub open spec fn spec_decode_s(w: u32) -> Instruction {
    let rs1 = reg_from_index(rs1_of(w) as int);
    let rs2 = reg_from_index(rs2_of(w) as int);
    let imm = s_imm(w) as i32;
    let op = opcode_of(w);
    let f3 = funct3_of(w);
    if op == 0x23 {
        if f3 == 0 {
            Instruction::Sb { rs1, rs2, imm }
        } else if f3 == 1 {
            Instruction::Sh { rs1, rs2, imm }
        } else if f3 == 2 {
            Instruction::Sw { rs1, rs2, imm }
        } else if f3 == 3 {
            Instruction::Sd { rs1, rs2, imm }
        } else {
            Instruction::Undefined
        }
    } else {
        Instruction::Undefined
    }
}

/// U-format dispatch: auipc and lui.
pub open spec fn spec_decode_u(w: u32) -> Instruction {
    let rd = reg_from_index(rd_of(w) as int);
    let imm = u_imm(w) as i32;
    let op = opcode_of(w);
    if op == 0x17 {
        Instruction::Auipc { rd, imm }
    } else if op == 0x37 {
        Instruction::Lui { rd, imm }
    } else {
        Instruction::Undefined
    }
}

/// Field dispatch of a word under a given format.
pub open spec fn spec_format_decode(f: InstructionFormat, w: u32) -> Instruction {
    match f {
        InstructionFormat::R => spec_decode_r(w),
        InstructionFormat::I => spec_decode_i(w),
        InstructionFormat::S => spec_decode_s(w),
        InstructionFormat::B => spec_decode_b(w),
        InstructionFormat::U => spec_decode_u(w),
        InstructionFormat::J => spec_decode_j(w),
    }
}

/// The instruction a 32-bit word decodes to: format lookup by opcode,
/// then field dispatch within the format.
pub open spec fn spec_decode(w: u32) -> Instruction {
    match spec_format_of(opcode_of(w)) {
        Some(f) => spec_format_decode(f, w),
        None => Instruction::Undefined,
    }
}

/// Every word whose opcode selects no format decodes to `Undefined`.
pub proof fn lemma_unrecognized_opcode_undefined(w: u32)
    requires
        spec_format_of(opcode_of(w)) is None,
    ensures
        spec_decode(w) == Instruction::Undefined,
{
}

/// Every general-purpose register index names a general-purpose register.
pub proof fn lemma_reg_from_index_gpr(i: int)
    requires
        0 <= i < 32,
    ensures
        reg_from_index(i).is_gpr(),
        reg_from_index(i).index_spec() == i,
{
}

/// Everything a format decodes a word to is well-formed.
#[verifier::rlimit(40)]
proof fn lemma_format_decode_wf(f: InstructionFormat, w: u32)
    ensures
        spec_format_decode(f, w).wf(),
{
    lemma_field_bounds(w);
    lemma_reg_from_index_gpr(rd_of(w) as int);
    lemma_reg_from_index_gpr(rs1_of(w) as int);
    lemma_reg_from_index_gpr(rs2_of(w) as int);
}

/// Everything `decode` returns is well-formed.
pub proof fn lemma_decode_wf(w: u32)
    ensures
        spec_decode(w).wf(),
{
    if spec_format_of(opcode_of(w)) is Some {
        lemma_format_decode_wf(spec_format_of(opcode_of(w)).unwrap(), w);
    }
}

impl InstructionFormat {
    /// Decode a word under this format: extract the format's fields,
    /// reassemble and sign-extend its immediate, and dispatch on the
    /// remaining selector fields.
    pub fn decode(&self, instruction: u32) -> (r: Instruction)
        ensures
            r == spec_format_decode(*self, instruction),
    {
        proof {
            lemma_field_bounds(instruction);
            lemma_imm_raw_in_range(instruction);
            lemma2_to64();
        }
        let opcode = instruction & 0x7f;
        match self {
            InstructionFormat::B => {
                let imm12 = (instruction >> 31) & 1;
                let imm105 = (instruction >> 25) & 0x3f;
                let rs2 = Register::from_index(((instruction >> 20) & 0x1f) as usize);
                let rs1 = Register::from_index(((instruction >> 15) & 0x1f) as usize);
                let funct3 = (instruction >> 12) & 0x7;
                let imm41 = (instruction >> 8) & 0xf;
                let imm11 = (instruction >> 7) & 1;
                let raw = (imm12 << 12) | (imm11 << 11) | (imm105 << 5) | (imm41 << 1);
                let imm = sign_extend_to_i32(raw, 0x1000, 0x2000, Ghost(13nat));
                proof {
                    lemma_sign_extend_correct(raw, 13);
                }
                match funct3 {
                    0 => Instruction::Beq { rs1, rs2, imm },
                    1 => Instruction::Bne { rs1, rs2, imm },
                    4 => Instruction::Blt { rs1, rs2, imm },
                    5 => Instruction::Bge { rs1, rs2, imm },
                    6 => Instruction::Bltu { rs1, rs2, imm },
                    7 => Instruction::Bgeu { rs1, rs2, imm },
                    _ => Instruction::Undefined,
                }
            },
            InstructionFormat::I => {
                let raw = (instruction >> 20) & 0xfff;
                let rs1 = Register::from_index(((instruction >> 15) & 0x1f) as usize);
                let funct3 = (instruction >> 12) & 0x7;
                let rd = Register::from_index(((instruction >> 7) & 0x1f) as usize);
                // Shift-immediate instructions reuse the immediate field:
                // bits 5:0 (or 4:0 for the 32-bit variants) are the shift
                // amount, and bit 10 selects the right-shift type.
                let shamt = raw & 0x3f;
                let shamtw = raw & 0x1f;
                let rshift_type = (raw >> 10) & 0x3;
                let imm = sign_extend_to_i32(raw, 0x800, 0x1000, Ghost(12nat));
                proof {
                    lemma_sign_extend_correct(raw, 12);
                }
                match opcode {
                    0x03 => match funct3 {
                        0 => Instruction::Lb { rd, rs1, imm },
                        1 => Instruction::Lh { rd, rs1, imm },
                        2 => Instruction::Lw { rd, rs1, imm },
                        4 => Instruction::Lbu { rd, rs1, imm },
                        5 => Instruction::Lhu { rd, rs1, imm },
                        6 => Instruction::Lwu { rd, rs1, imm },
                        3 => Instruction::Ld { rd, rs1, imm },
                        _ => Instruction::Undefined,
                    },
                    0x0f => match funct3 {
                        0 => Instruction::Fence {
                            rd,
                            rs1,
                            succ: (instruction >> 20) & 0xf,
                            pred: (instruction >> 24) & 0xf,
                            fm: (instruction >> 28) & 0xf,
                        },
                        _ => Instruction::Undefined,
                    },
                    0x13 => match funct3 {
                        0 => Instruction::Addi { rd, rs1, imm },
                        2 => Instruction::Slti { rd, rs1, imm },
                        3 => Instruction::Sltiu { rd, rs1, imm },
                        4 => Instruction::Xori { rd, rs1, imm },
                        6 => Instruction::Ori { rd, rs1, imm },
                        7 => Instruction::Andi { rd, rs1, imm },
                        1 => Instruction::Slli { rd, rs1, shamt },
                        5 => {
                            if rshift_type == 0 {
                                Instruction::Srli { rd, rs1, shamt }
                            } else if rshift_type == 1 {
                                Instruction::Srai { rd, rs1, shamt }
                            } else {
                                Instruction::Undefined
                            }
                        },
                        _ => Instruction::Undefined,
                    },
                    0x1b => match funct3 {
                        0 => Instruction::Addiw { rd, rs1, imm },
                        1 => Instruction::Slliw { rd, rs1, shamt: shamtw },
                        5 => {
                            if rshift_type == 0 {
                                Instruction::Srliw { rd, rs1, shamt: shamtw }
                            } else if rshift_type == 1 {
                                Instruction::Sraiw { rd, rs1, shamt: shamtw }
                            } else {
                                Instruction::Undefined
                            }
                        },
                        _ => Instruction::Undefined,
                    },
                    0x67 => match funct3 {
                        0 => Instruction::Jalr { rd, rs1, imm },
                        _ => Instruction::Undefined,
                    },
                    0x73 => {
                        let rs1_raw = (instruction >> 15) & 0x1f;
                        let rd_raw = (instruction >> 7) & 0x1f;
                        if funct3 == 0 && raw == 0 && rs1_raw == 0 && rd_raw == 0 {
                            Instruction::Ecall
                        } else if funct3 == 0 && raw == 1 && rs1_raw == 0 && rd_raw == 0 {
                            Instruction::Ebreak
                        } else {
                            Instruction::Undefined
                        }
                    },
                    _ => Instruction::Undefined,
                }
            },
            InstructionFormat::J => {
                let rd = Register::from_index(((instruction >> 7) & 0x1f) as usize);
                let imm20 = (instruction >> 31) & 1;
                let imm1912 = (instruction >> 12) & 0xff;
                let imm11 = (instruction >> 20) & 1;
                let imm101 = (instruction >> 21) & 0x3ff;
                let raw = (imm20 << 20) | (imm1912 << 12) | (imm11 << 11) | (imm101 << 1);
                let imm = sign_extend_to_i32(raw, 0x10_0000, 0x20_0000, Ghost(21nat));
                proof {
                    lemma_sign_extend_correct(raw, 21);
                }
                match opcode {
                    0x6f => Instruction::Jal { rd, imm },
                    _ => Instruction::Undefined,
                }
            },
            InstructionFormat::R => {
                let funct7 = (instruction >> 25) & 0x7f;
                let rs2 = Register::from_index(((instruction >> 20) & 0x1f) as usize);
                let rs1 = Register::from_index(((instruction >> 15) & 0x1f) as usize);
                let funct3 = (instruction >> 12) & 0x7;
                let rd = Register::from_index(((instruction >> 7) & 0x1f) as usize);
                match opcode {
                    0x33 => match (funct7, funct3) {
                        (0x00, 0) => Instruction::Add { rd, rs1, rs2 },
                        (0x20, 0) => Instruction::Sub { rd, rs1, rs2 },
                        (0x00, 1) => Instruction::Sll { rd, rs1, rs2 },
                        (0x00, 2) => Instruction::Slt { rd, rs1, rs2 },
                        (0x00, 3) => Instruction::Sltu { rd, rs1, rs2 },
                        (0x00, 4) => Instruction::Xor { rd, rs1, rs2 },
                        (0x00, 5) => Instruction::Srl { rd, rs1, rs2 },
                        (0x20, 5) => Instruction::Sra { rd, rs1, rs2 },
                        (0x00, 6) => Instruction::Or { rd, rs1, rs2 },
                        (0x00, 7) => Instruction::And { rd, rs1, rs2 },
                        _ => Instruction::Undefined,
                    },
                    0x3b => match (funct7, funct3) {
                        (0x00, 0) => Instruction::Addw { rd, rs1, rs2 },
                        (0x20, 0) => Instruction::Subw { rd, rs1, rs2 },
                        (0x00, 1) => Instruction::Sllw { rd, rs1, rs2 },
                        (0x00, 5) => Instruction::Srlw { rd, rs1, rs2 },
                        (0x20, 5) => Instruction::Sraw { rd, rs1, rs2 },
                        _ => Instruction::Undefined,
                    },
                    _ => Instruction::Undefined,
                }
            },
            InstructionFormat::S => {
                let imm115 = (instruction >> 25) & 0x7f;
                let rs2 = Register::from_index(((instruction >> 20) & 0x1f) as usize);
                let rs1 = Register::from_index(((instruction >> 15) & 0x1f) as usize);
                let funct3 = (instruction >> 12) & 0x7;
                let imm40 = (instruction >> 7) & 0x1f;
                let raw = (imm115 << 5) | imm40;
                let imm = sign_extend_to_i32(raw, 0x800, 0x1000, Ghost(12nat));
                proof {
                    lemma_sign_extend_correct(raw, 12);
                }
                match opcode {
                    0x23 => match funct3 {
                        0 => Instruction::Sb { rs1, rs2, imm },
                        1 => Instruction::Sh { rs1, rs2, imm },
                        2 => Instruction::Sw { rs1, rs2, imm },
                        3 => Instruction::Sd { rs1, rs2, imm },
                        _ => Instruction::Undefined,
                    },
                    _ => Instruction::Undefined,
                }
            },
            InstructionFormat::U => {
                let field = instruction & 0xffff_f000;
                let rd = Register::from_index(((instruction >> 7) & 0x1f) as usize);
                let imm: i32 = if field >= 0x8000_0000 {
                    ((field as i64) - 0x1_0000_0000i64) as i32
                } else {
                    field as i32
                };
                proof {
                    lemma_sign_extend_correct(field, 32);
                }
                match opcode {
                    0x17 => Instruction::Auipc { rd, imm },
                    0x37 => Instruction::Lui { rd, imm },
                    _ => Instruction::Undefined,
                }
            },
        }
    }
}

/// Look up the encoding format of a 7-bit opcode; `None` for every opcode
/// outside the recognized set.
pub fn format_for_opcode(op: u32) -> (r: Option<InstructionFormat>)
    ensures
        r == spec_format_of(op),
{
    match op {
        0x03 | 0x0f | 0x13 | 0x1b | 0x67 | 0x73 => Some(InstructionFormat::I),
        0x17 | 0x37 => Some(InstructionFormat::U),
        0x23 => Some(InstructionFormat::S),
        0x33 | 0x3b => Some(InstructionFormat::R),
        0x63 => Some(InstructionFormat::B),
        0x6f => Some(InstructionFormat::J),
        _ => None,
    }
}

/// Decode a 32-bit RV64I instruction word. Total: every word decodes,
/// to `Undefined` when no recognized encoding matches.
pub fn decode(instruction: u32) -> (r: Instruction)
    ensures
        r == spec_decode(instruction),
        r.wf(),
{
    proof {
        lemma_decode_wf(instruction);
    }
    let opcode = instruction & 0x7f;
    if let Some(instruction_format) = format_for_opcode(opcode) {
        instruction_format.decode(instruction)
    } else {
        Instruction::Undefined
    }
}

} // verus!
