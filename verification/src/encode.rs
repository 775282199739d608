//! Instruction encoder and the decode round trip.
//!
//! `encode` packs a well-formed decoded instruction back into a 32-bit
//! word, and its contract states the round-trip law: decoding the packed
//! word yields the instruction unchanged.

use vstd::prelude::*;

verus! {

use crate::codec::{
    opcode_of, rd_of, funct3_of, rs1_of, rs2_of, funct7_of, i_imm_raw, s_imm_raw, b_imm_raw,
    u_imm_field, j_imm_raw, fence_fm_of, fence_pred_of, fence_succ_of, sign_extend,
    lemma_sign_extend_inverse,
};
use crate::instruction::{
    Register, Instruction, spec_decode, lemma_reg_index_roundtrip,
};
use vstd::arithmetic::power2::{pow2, lemma2_to64, lemma_pow2_unfold};
use vstd::arithmetic::div_mod::lemma_mod_multiples_vanish;

impl Instruction {
    /// A well-formed instruction whose immediate also fits its format's
    /// field: such an instruction has an encoding.
    pub open spec fn encodable(self) -> bool {
        &&& self.wf()
        &&& match self {
            Instruction::Beq { rs1, rs2, imm } => -4096 <= imm < 4096 && imm % 2 == 0,
            Instruction::Bne { rs1, rs2, imm } => -4096 <= imm < 4096 && imm % 2 == 0,
            Instruction::Blt { rs1, rs2, imm } => -4096 <= imm < 4096 && imm % 2 == 0,
            Instruction::Bge { rs1, rs2, imm } => -4096 <= imm < 4096 && imm % 2 == 0,
            Instruction::Bltu { rs1, rs2, imm } => -4096 <= imm < 4096 && imm % 2 == 0,
            Instruction::Bgeu { rs1, rs2, imm } => -4096 <= imm < 4096 && imm % 2 == 0,
            Instruction::Lb { rd, rs1, imm } => -2048 <= imm < 2048,
            Instruction::Lh { rd, rs1, imm } => -2048 <= imm < 2048,
            Instruction::Lw { rd, rs1, imm } => -2048 <= imm < 2048,
            Instruction::Lbu { rd, rs1, imm } => -2048 <= imm < 2048,
            Instruction::Lhu { rd, rs1, imm } => -2048 <= imm < 2048,
            Instruction::Lwu { rd, rs1, imm } => -2048 <= imm < 2048,
            Instruction::Ld { rd, rs1, imm } => -2048 <= imm < 2048,
            Instruction::Addi { rd, rs1, imm } => -2048 <= imm < 2048,
            Instruction::Slti { rd, rs1, imm } => -2048 <= imm < 2048,
            Instruction::Sltiu { rd, rs1, imm } => -2048 <= imm < 2048,
            Instruction::Xori { rd, rs1, imm } => -2048 <= imm < 2048,
            Instruction::Ori { rd, rs1, imm } => -2048 <= imm < 2048,
            Instruction::Andi { rd, rs1, imm } => -2048 <= imm < 2048,
            Instruction::Addiw { rd, rs1, imm } => -2048 <= imm < 2048,
            Instruction::Jalr { rd, rs1, imm } => -2048 <= imm < 2048,
            Instruction::Sb { rs2, rs1, imm } => -2048 <= imm < 2048,
            Instruction::Sh { rs2, rs1, imm } => -2048 <= imm < 2048,
            Instruction::Sw { rs2, rs1, imm } => -2048 <= imm < 2048,
            Instruction::Sd { rs2, rs1, imm } => -2048 <= imm < 2048,
            Instruction::Jal { rd, imm } => -0x10_0000 <= imm < 0x10_0000 && imm % 2 == 0,
            Instruction::Auipc { rd, imm } => imm % 4096 == 0,
            Instruction::Lui { rd, imm } => imm % 4096 == 0,
            _ => true,
        }
    }
}

/// Wrap a signed immediate back into its raw unsigned `width`-bit field.
/// `half` and `full` are 2^(width-1) and 2^width.
fn imm_to_raw(imm: i32, half: u32, full: u32, width: Ghost<nat>) -> (raw: u32)
    requires
        1 <= width@ <= 21,
        half == pow2((width@ - 1) as nat),
        full == pow2(width@),
        -(half as int) <= imm < half as int,
    ensures
        raw < full,
        sign_extend(raw, width@) == imm,
        raw as int % 2 == imm as int % 2,
{
    proof {
        lemma_pow2_unfold(width@);
        lemma2_to64();
        if imm < 0 {
            lemma_sign_extend_inverse(imm as int, (imm + full) as u32, width@);
            lemma_mod_multiples_vanish(pow2((width@ - 1) as nat) as int, imm as int, 2);
        } else {
            lemma_sign_extend_inverse(imm as int, imm as u32, width@);
        }
    }
    if imm < 0 {
        (imm + (full as i32)) as u32
    } else {
        imm as u32
    }
}

/// Pack the fields of an R-format instruction.
fn pack_r(op: u32, f7: u32, f3: u32, rd: u32, rs1: u32, rs2: u32) -> (w: u32)
    requires
        op < 128,
        f7 < 128,
        f3 < 8,
        rd < 32,
        rs1 < 32,
        rs2 < 32,
    ensures
        opcode_of(w) == op,
        funct7_of(w) == f7,
        funct3_of(w) == f3,
        rd_of(w) == rd,
        rs1_of(w) == rs1,
        rs2_of(w) == rs2,
{
    let w = op | (rd << 7) | (f3 << 12) | (rs1 << 15) | (rs2 << 20) | (f7 << 25);
    proof {
        assert(opcode_of(w) == op && funct7_of(w) == f7 && funct3_of(w) == f3 && rd_of(w) == rd
            && rs1_of(w) == rs1 && rs2_of(w) == rs2) by (bit_vector)
            requires
                op < 128,
                f7 < 128,
                f3 < 8,
                rd < 32,
                rs1 < 32,
                rs2 < 32,
                w == op | (rd << 7) | (f3 << 12) | (rs1 << 15) | (rs2 << 20) | (f7 << 25),
        ;
    }
    w
}

/// Pack the fields of an I-format instruction.
fn pack_i(op: u32, f3: u32, rd: u32, rs1: u32, raw: u32) -> (w: u32)
    requires
        op < 128,
        f3 < 8,
        rd < 32,
        rs1 < 32,
        raw < 4096,
    ensures
        opcode_of(w) == op,
        funct3_of(w) == f3,
        rd_of(w) == rd,
        rs1_of(w) == rs1,
        i_imm_raw(w) == raw,
{
    let w = op | (rd << 7) | (f3 << 12) | (rs1 << 15) | (raw << 20);
    proof {
        assert(opcode_of(w) == op && funct3_of(w) == f3 && rd_of(w) == rd && rs1_of(w) == rs1
            && i_imm_raw(w) == raw) by (bit_vector)
            requires
                op < 128,
                f3 < 8,
                rd < 32,
                rs1 < 32,
                raw < 4096,
                w == op | (rd << 7) | (f3 << 12) | (rs1 << 15) | (raw << 20),
        ;
    }
    w
}

/// Pack the fields of an S-format instruction.
fn pack_s(op: u32, f3: u32, rs1: u32, rs2: u32, raw: u32) -> (w: u32)
    requires
        op < 128,
        f3 < 8,
        rs1 < 32,
        rs2 < 32,
        raw < 4096,
    ensures
        opcode_of(w) == op,
        funct3_of(w) == f3,
        rs1_of(w) == rs1,
        rs2_of(w) == rs2,
        s_imm_raw(w) == raw,
{
    let w = op | ((raw & 0x1f) << 7) | (f3 << 12) | (rs1 << 15) | (rs2 << 20) | ((raw >> 5)
        << 25);
    proof {
        assert(opcode_of(w) == op && funct3_of(w) == f3 && rs1_of(w) == rs1 && rs2_of(w) == rs2
            && s_imm_raw(w) == raw) by (bit_vector)
            requires
                op < 128,
                f3 < 8,
                rs1 < 32,
                rs2 < 32,
                raw < 4096,
                w == op | ((raw & 0x1f) << 7) | (f3 << 12) | (rs1 << 15) | (rs2 << 20) | ((raw
                    >> 5) << 25),
        ;
    }
    w
}

/// Pack the fields of a B-format instruction.
fn pack_b(op: u32, f3: u32, rs1: u32, rs2: u32, raw: u32) -> (w: u32)
    requires
        op < 128,
        f3 < 8,
        rs1 < 32,
        rs2 < 32,
        raw < 8192,
        raw % 2 == 0,
    ensures
        opcode_of(w) == op,
        funct3_of(w) == f3,
        rs1_of(w) == rs1,
        rs2_of(w) == rs2,
        b_imm_raw(w) == raw,
{
    let w = op | (((raw >> 11) & 1) << 7) | (((raw >> 1) & 0xf) << 8) | (f3 << 12) | (rs1 << 15)
        | (rs2 << 20) | (((raw >> 5) & 0x3f) << 25) | (((raw >> 12) & 1) << 31);
    proof {
        assert(opcode_of(w) == op && funct3_of(w) == f3 && rs1_of(w) == rs1 && rs2_of(w) == rs2
            && b_imm_raw(w) == raw) by (bit_vector)
            requires
                op < 128,
                f3 < 8,
                rs1 < 32,
                rs2 < 32,
                raw < 8192,
                raw % 2 == 0,
                w == op | (((raw >> 11) & 1) << 7) | (((raw >> 1) & 0xf) << 8) | (f3 << 12) | (
                rs1 << 15) | (rs2 << 20) | (((raw >> 5) & 0x3f) << 25) | (((raw >> 12) & 1)
                    << 31),
        ;
    }
    w
}

/// Pack the fields of a U-format instruction; `field` is the immediate
/// already in place at bits 31:12.
fn pack_u(op: u32, rd: u32, field: u32) -> (w: u32)
    requires
        op < 128,
        rd < 32,
        field % 4096 == 0,
    ensures
        opcode_of(w) == op,
        rd_of(w) == rd,
        u_imm_field(w) == field,
{
    let w = op | (rd << 7) | field;
    proof {
        assert(opcode_of(w) == op && rd_of(w) == rd && u_imm_field(w) == field) by (bit_vector)
            requires
                op < 128,
                rd < 32,
                field % 4096 == 0,
                w == op | (rd << 7) | field,
        ;
    }
    w
}

/// Pack the fields of a J-format instruction.
fn pack_j(op: u32, rd: u32, raw: u32) -> (w: u32)
    requires
        op < 128,
        rd < 32,
        raw < 0x20_0000,
        raw % 2 == 0,
    ensures
        opcode_of(w) == op,
        rd_of(w) == rd,
        j_imm_raw(w) == raw,
{
    let w = op | (rd << 7) | (((raw >> 12) & 0xff) << 12) | (((raw >> 11) & 1) << 20) | (((raw
        >> 1) & 0x3ff) << 21) | (((raw >> 20) & 1) << 31);
    proof {
        assert(opcode_of(w) == op && rd_of(w) == rd && j_imm_raw(w) == raw) by (bit_vector)
            requires
                op < 128,
                rd < 32,
                raw < 0x20_0000,
                raw % 2 == 0,
                w == op | (rd << 7) | (((raw >> 12) & 0xff) << 12) | (((raw >> 11) & 1) << 20) | (
                ((raw >> 1) & 0x3ff) << 21) | (((raw >> 20) & 1) << 31),
        ;
    }
    w
}

/// A shift amount below its field's bound passes unchanged through the
/// immediate field, with the right-shift type bit clear, or set when the
/// arithmetic-shift bit is merged in.
proof fn lemma_shift_imm_fields(s: u32)
    by (bit_vector)
    ensures
        s < 64 ==> (s & 0x3f == s && (s >> 10) & 0x3 == 0 && s < 4096),
        s < 64 ==> ((s | 0x400) & 0x3f == s && ((s | 0x400) >> 10) & 0x3 == 1 && (s | 0x400)
            < 4096),
        s < 32 ==> s & 0x1f == s,
        s < 32 ==> (s | 0x400) & 0x1f == s,
{
}

/// The three fence sets read back out of the immediate field they were
/// packed into.
proof fn lemma_fence_fields(w: u32, fm: u32, pred: u32, succ: u32)
    by (bit_vector)
    requires
        fm < 16,
        pred < 16,
        succ < 16,
        i_imm_raw(w) == (fm << 8) | (pred << 4) | succ,
    ensures
        fence_fm_of(w) == fm,
        fence_pred_of(w) == pred,
        fence_succ_of(w) == succ,
        (fm << 8) | (pred << 4) | succ < 4096,
{
}

/// The packed fence immediate field fits twelve bits.
proof fn lemma_fence_raw_bound(fm: u32, pred: u32, succ: u32)
    by (bit_vector)
    requires
        fm < 16,
        pred < 16,
        succ < 16,
    ensures
        (fm << 8) | (pred << 4) | succ < 4096,
{
}

/// The field values of the two fixed system words and of the zero word.
proof fn lemma_fixed_words()
    by (bit_vector)
    ensures
        opcode_of(0u32) == 0,
        opcode_of(0x73u32) == 0x73,
        funct3_of(0x73u32) == 0,
        i_imm_raw(0x73u32) == 0,
        rs1_of(0x73u32) == 0,
        rd_of(0x73u32) == 0,
        opcode_of(0x0010_0073u32) == 0x73,
        funct3_of(0x0010_0073u32) == 0,
        i_imm_raw(0x0010_0073u32) == 1,
        rs1_of(0x0010_0073u32) == 0,
        rd_of(0x0010_0073u32) == 0,
{
}

/// Encode the six conditional branches.
#[verifier::rlimit(60)]
#[verifier::spinoff_prover]
fn encode_branch(instruction: &Instruction) -> (w: u32)
    requires
        instruction.encodable(),
        (*instruction matches Instruction::Beq { .. }) || (*instruction
            matches Instruction::Bne { .. }) || (*instruction matches Instruction::Blt { .. }) || (
        *instruction matches Instruction::Bge { .. }) || (*instruction
            matches Instruction::Bltu { .. }) || (*instruction matches Instruction::Bgeu { .. }),
    ensures
        spec_decode(w) == *instruction,
{
    proof {
        lemma2_to64();
        match *instruction {
            Instruction::Beq { rs1, rs2, .. } | Instruction::Bne { rs1, rs2, .. }
            | Instruction::Blt { rs1, rs2, .. } | Instruction::Bge { rs1, rs2, .. }
            | Instruction::Bltu { rs1, rs2, .. } | Instruction::Bgeu { rs1, rs2, .. } => {
                lemma_reg_index_roundtrip(rs1);
                lemma_reg_index_roundtrip(rs2);
            },
            _ => {},
        }
    }
    match *instruction {
        Instruction::Beq { rs1, rs2, imm } => pack_b(
            0x63,
            0,
            (rs1.index() as u32),
            (rs2.index() as u32),
            imm_to_raw(imm, 0x1000, 0x2000, Ghost(13nat)),
        ),
        Instruction::Bne { rs1, rs2, imm } => pack_b(
            0x63,
            1,
            (rs1.index() as u32),
            (rs2.index() as u32),
            imm_to_raw(imm, 0x1000, 0x2000, Ghost(13nat)),
        ),
        Instruction::Blt { rs1, rs2, imm } => pack_b(
            0x63,
            4,
            (rs1.index() as u32),
            (rs2.index() as u32),
            imm_to_raw(imm, 0x1000, 0x2000, Ghost(13nat)),
        ),
        Instruction::Bge { rs1, rs2, imm } => pack_b(
            0x63,
            5,
            (rs1.index() as u32),
            (rs2.index() as u32),
            imm_to_raw(imm, 0x1000, 0x2000, Ghost(13nat)),
        ),
        Instruction::Bltu { rs1, rs2, imm } => pack_b(
            0x63,
            6,
            (rs1.index() as u32),
            (rs2.index() as u32),
            imm_to_raw(imm, 0x1000, 0x2000, Ghost(13nat)),
        ),
        Instruction::Bgeu { rs1, rs2, imm } => pack_b(
            0x63,
            7,
            (rs1.index() as u32),
            (rs2.index() as u32),
            imm_to_raw(imm, 0x1000, 0x2000, Ghost(13nat)),
        ),
        _ => {
            proof {
                assert(false);
            }
            0
        },
    }
}

/// Encode the seven loads.
#[verifier::rlimit(60)]
#[verifier::spinoff_prover]
fn encode_load(instruction: &Instruction) -> (w: u32)
    requires
        instruction.encodable(),
        (*instruction matches Instruction::Lb { .. }) || (*instruction
            matches Instruction::Lh { .. }) || (*instruction matches Instruction::Lw { .. }) || (
        *instruction matches Instruction::Lbu { .. }) || (*instruction
            matches Instruction::Lhu { .. }) || (*instruction matches Instruction::Lwu { .. }) || (
        *instruction matches Instruction::Ld { .. }),
    ensures
        spec_decode(w) == *instruction,
{
    proof {
        lemma2_to64();
        match *instruction {
            Instruction::Lb { rd, rs1, .. } | Instruction::Lh { rd, rs1, .. }
            | Instruction::Lw { rd, rs1, .. } | Instruction::Lbu { rd, rs1, .. }
            | Instruction::Lhu { rd, rs1, .. } | Instruction::Lwu { rd, rs1, .. }
            | Instruction::Ld { rd, rs1, .. } => {
                lemma_reg_index_roundtrip(rd);
                lemma_reg_index_roundtrip(rs1);
            },
            _ => {},
        }
    }
    match *instruction {
        Instruction::Lb { rd, rs1, imm } => pack_i(
            0x03,
            0,
            (rd.index() as u32),
            (rs1.index() as u32),
            imm_to_raw(imm, 0x800, 0x1000, Ghost(12nat)),
        ),
        Instruction::Lh { rd, rs1, imm } => pack_i(
            0x03,
            1,
            (rd.index() as u32),
            (rs1.index() as u32),
            imm_to_raw(imm, 0x800, 0x1000, Ghost(12nat)),
        ),
        Instruction::Lw { rd, rs1, imm } => pack_i(
            0x03,
            2,
            (rd.index() as u32),
            (rs1.index() as u32),
            imm_to_raw(imm, 0x800, 0x1000, Ghost(12nat)),
        ),
        Instruction::Lbu { rd, rs1, imm } => pack_i(
            0x03,
            4,
            (rd.index() as u32),
            (rs1.index() as u32),
            imm_to_raw(imm, 0x800, 0x1000, Ghost(12nat)),
        ),
        Instruction::Lhu { rd, rs1, imm } => pack_i(
            0x03,
            5,
            (rd.index() as u32),
            (rs1.index() as u32),
            imm_to_raw(imm, 0x800, 0x1000, Ghost(12nat)),
        ),
        Instruction::Lwu { rd, rs1, imm } => pack_i(
            0x03,
            6,
            (rd.index() as u32),
            (rs1.index() as u32),
            imm_to_raw(imm, 0x800, 0x1000, Ghost(12nat)),
        ),
        Instruction::Ld { rd, rs1, imm } => pack_i(
            0x03,
            3,
            (rd.index() as u32),
            (rs1.index() as u32),
            imm_to_raw(imm, 0x800, 0x1000, Ghost(12nat)),
        ),
        _ => {
            proof {
                assert(false);
            }
            0
        },
    }
}

/// Encode the immediate ALU operations, shift-immediates included.
#[verifier::rlimit(60)]
#[verifier::spinoff_prover]
fn encode_alu_imm(instruction: &Instruction) -> (w: u32)
    requires
        instruction.encodable(),
        (*instruction matches Instruction::Addi { .. }) || (*instruction
            matches Instruction::Slti { .. }) || (*instruction
            matches Instruction::Sltiu { .. }) || (*instruction
            matches Instruction::Xori { .. }) || (*instruction matches Instruction::Ori { .. })
            || (*instruction matches Instruction::Andi { .. }) || (*instruction
            matches Instruction::Slli { .. }) || (*instruction matches Instruction::Srli { .. })
            || (*instruction matches Instruction::Srai { .. }),
    ensures
        spec_decode(w) == *instruction,
{
    proof {
        lemma2_to64();
        match *instruction {
            Instruction::Addi { rd, rs1, .. } | Instruction::Slti { rd, rs1, .. }
            | Instruction::Sltiu { rd, rs1, .. } | Instruction::Xori { rd, rs1, .. }
            | Instruction::Ori { rd, rs1, .. } | Instruction::Andi { rd, rs1, .. }
            | Instruction::Slli { rd, rs1, .. } | Instruction::Srli { rd, rs1, .. }
            | Instruction::Srai { rd, rs1, .. } => {
                lemma_reg_index_roundtrip(rd);
                lemma_reg_index_roundtrip(rs1);
            },
            _ => {},
        }
    }
    match *instruction {
        Instruction::Addi { rd, rs1, imm } => pack_i(
            0x13,
            0,
            (rd.index() as u32),
            (rs1.index() as u32),
            imm_to_raw(imm, 0x800, 0x1000, Ghost(12nat)),
        ),
        Instruction::Slti { rd, rs1, imm } => pack_i(
            0x13,
            2,
            (rd.index() as u32),
            (rs1.index() as u32),
            imm_to_raw(imm, 0x800, 0x1000, Ghost(12nat)),
        ),
        Instruction::Sltiu { rd, rs1, imm } => pack_i(
            0x13,
            3,
            (rd.index() as u32),
            (rs1.index() as u32),
            imm_to_raw(imm, 0x800, 0x1000, Ghost(12nat)),
        ),
        Instruction::Xori { rd, rs1, imm } => pack_i(
            0x13,
            4,
            (rd.index() as u32),
            (rs1.index() as u32),
            imm_to_raw(imm, 0x800, 0x1000, Ghost(12nat)),
        ),
        Instruction::Ori { rd, rs1, imm } => pack_i(
            0x13,
            6,
            (rd.index() as u32),
            (rs1.index() as u32),
            imm_to_raw(imm, 0x800, 0x1000, Ghost(12nat)),
        ),
        Instruction::Andi { rd, rs1, imm } => pack_i(
            0x13,
            7,
            (rd.index() as u32),
            (rs1.index() as u32),
            imm_to_raw(imm, 0x800, 0x1000, Ghost(12nat)),
        ),
        Instruction::Slli { rd, rs1, shamt } => {
            proof {
                lemma_shift_imm_fields(shamt);
            }
            pack_i(0x13, 1, rd.index() as u32, rs1.index() as u32, shamt)
        },
        Instruction::Srli { rd, rs1, shamt } => {
            proof {
                lemma_shift_imm_fields(shamt);
            }
            pack_i(0x13, 5, rd.index() as u32, rs1.index() as u32, shamt)
        },
        Instruction::Srai { rd, rs1, shamt } => {
            proof {
                lemma_shift_imm_fields(shamt);
            }
            pack_i(0x13, 5, rd.index() as u32, rs1.index() as u32, shamt | 0x400)
        },
        _ => {
            proof {
                assert(false);
            }
            0
        },
    }
}

/// Encode the 32-bit immediate ALU operations.
#[verifier::rlimit(60)]
#[verifier::spinoff_prover]
fn encode_alu_imm_w(instruction: &Instruction) -> (w: u32)
    requires
        instruction.encodable(),
        (*instruction matches Instruction::Addiw { .. }) || (*instruction
            matches Instruction::Slliw { .. }) || (*instruction
            matches Instruction::Srliw { .. }) || (*instruction
            matches Instruction::Sraiw { .. }),
    ensures
        spec_decode(w) == *instruction,
{
    proof {
        lemma2_to64();
        match *instruction {
            Instruction::Addiw { rd, rs1, .. } | Instruction::Slliw { rd, rs1, .. }
            | Instruction::Srliw { rd, rs1, .. } | Instruction::Sraiw { rd, rs1, .. } => {
                lemma_reg_index_roundtrip(rd);
                lemma_reg_index_roundtrip(rs1);
            },
            _ => {},
        }
    }
    match *instruction {
        Instruction::Addiw { rd, rs1, imm } => pack_i(
            0x1b,
            0,
            (rd.index() as u32),
            (rs1.index() as u32),
            imm_to_raw(imm, 0x800, 0x1000, Ghost(12nat)),
        ),
        Instruction::Slliw { rd, rs1, shamt } => {
            proof {
                lemma_shift_imm_fields(shamt);
            }
            pack_i(0x1b, 1, rd.index() as u32, rs1.index() as u32, shamt)
        },
        Instruction::Srliw { rd, rs1, shamt } => {
            proof {
                lemma_shift_imm_fields(shamt);
            }
            pack_i(0x1b, 5, rd.index() as u32, rs1.index() as u32, shamt)
        },
        Instruction::Sraiw { rd, rs1, shamt } => {
            proof {
                lemma_shift_imm_fields(shamt);
            }
            pack_i(0x1b, 5, rd.index() as u32, rs1.index() as u32, shamt | 0x400)
        },
        _ => {
            proof {
                assert(false);
            }
            0
        },
    }
}

/// Encode the register ALU operations.
#[verifier::rlimit(60)]
#[verifier::spinoff_prover]
fn encode_alu_reg(instruction: &Instruction) -> (w: u32)
    requires
        instruction.encodable(),
        (*instruction matches Instruction::Add { .. }) || (*instruction
            matches Instruction::Sub { .. }) || (*instruction matches Instruction::Sll { .. }) || (
        *instruction matches Instruction::Slt { .. }) || (*instruction
            matches Instruction::Sltu { .. }) || (*instruction matches Instruction::Xor { .. })
            || (*instruction matches Instruction::Srl { .. }) || (*instruction
            matches Instruction::Sra { .. }) || (*instruction matches Instruction::Or { .. }) || (
        *instruction matches Instruction::And { .. }),
    ensures
        spec_decode(w) == *instruction,
{
    proof {
        match *instruction {
            Instruction::Add { rd, rs1, rs2 } | Instruction::Sub { rd, rs1, rs2 }
            | Instruction::Sll { rd, rs1, rs2 } | Instruction::Slt { rd, rs1, rs2 }
            | Instruction::Sltu { rd, rs1, rs2 } | Instruction::Xor { rd, rs1, rs2 }
            | Instruction::Srl { rd, rs1, rs2 } | Instruction::Sra { rd, rs1, rs2 }
            | Instruction::Or { rd, rs1, rs2 } | Instruction::And { rd, rs1, rs2 } => {
                lemma_reg_index_roundtrip(rd);
                lemma_reg_index_roundtrip(rs1);
                lemma_reg_index_roundtrip(rs2);
            },
            _ => {},
        }
    }
    match *instruction {
        Instruction::Add { rd, rs1, rs2 } => pack_r(
            0x33,
            0x00,
            0,
            (rd.index() as u32),
            (rs1.index() as u32),
            (rs2.index() as u32),
        ),
        Instruction::Sub { rd, rs1, rs2 } => pack_r(
            0x33,
            0x20,
            0,
            (rd.index() as u32),
            (rs1.index() as u32),
            (rs2.index() as u32),
        ),
        Instruction::Sll { rd, rs1, rs2 } => pack_r(
            0x33,
            0x00,
            1,
            (rd.index() as u32),
            (rs1.index() as u32),
            (rs2.index() as u32),
        ),
        Instruction::Slt { rd, rs1, rs2 } => pack_r(
            0x33,
            0x00,
            2,
            (rd.index() as u32),
            (rs1.index() as u32),
            (rs2.index() as u32),
        ),
        Instruction::Sltu { rd, rs1, rs2 } => pack_r(
            0x33,
            0x00,
            3,
            (rd.index() as u32),
            (rs1.index() as u32),
            (rs2.index() as u32),
        ),
        Instruction::Xor { rd, rs1, rs2 } => pack_r(
            0x33,
            0x00,
            4,
            (rd.index() as u32),
            (rs1.index() as u32),
            (rs2.index() as u32),
        ),
        Instruction::Srl { rd, rs1, rs2 } => pack_r(
            0x33,
            0x00,
            5,
            (rd.index() as u32),
            (rs1.index() as u32),
            (rs2.index() as u32),
        ),
        Instruction::Sra { rd, rs1, rs2 } => pack_r(
            0x33,
            0x20,
            5,
            (rd.index() as u32),
            (rs1.index() as u32),
            (rs2.index() as u32),
        ),
        Instruction::Or { rd, rs1, rs2 } => pack_r(
            0x33,
            0x00,
            6,
            (rd.index() as u32),
            (rs1.index() as u32),
            (rs2.index() as u32),
        ),
        Instruction::And { rd, rs1, rs2 } => pack_r(
            0x33,
            0x00,
            7,
            (rd.index() as u32),
            (rs1.index() as u32),
            (rs2.index() as u32),
        ),
        _ => {
            proof {
                assert(false);
            }
            0
        },
    }
}

/// Encode the 32-bit register ALU operations.
#[verifier::rlimit(60)]
#[verifier::spinoff_prover]
fn encode_alu_reg_w(instruction: &Instruction) -> (w: u32)
    requires
        instruction.encodable(),
        (*instruction matches Instruction::Addw { .. }) || (*instruction
            matches Instruction::Subw { .. }) || (*instruction matches Instruction::Sllw { .. })
            || (*instruction matches Instruction::Srlw { .. }) || (*instruction
            matches Instruction::Sraw { .. }),
    ensures
        spec_decode(w) == *instruction,
{
    proof {
        match *instruction {
            Instruction::Addw { rd, rs1, rs2 } | Instruction::Subw { rd, rs1, rs2 }
            | Instruction::Sllw { rd, rs1, rs2 } | Instruction::Srlw { rd, rs1, rs2 }
            | Instruction::Sraw { rd, rs1, rs2 } => {
                lemma_reg_index_roundtrip(rd);
                lemma_reg_index_roundtrip(rs1);
                lemma_reg_index_roundtrip(rs2);
            },
            _ => {},
        }
    }
    match *instruction {
        Instruction::Addw { rd, rs1, rs2 } => pack_r(
            0x3b,
            0x00,
            0,
            (rd.index() as u32),
            (rs1.index() as u32),
            (rs2.index() as u32),
        ),
        Instruction::Subw { rd, rs1, rs2 } => pack_r(
            0x3b,
            0x20,
            0,
            (rd.index() as u32),
            (rs1.index() as u32),
            (rs2.index() as u32),
        ),
        Instruction::Sllw { rd, rs1, rs2 } => pack_r(
            0x3b,
            0x00,
            1,
            (rd.index() as u32),
            (rs1.index() as u32),
            (rs2.index() as u32),
        ),
        Instruction::Srlw { rd, rs1, rs2 } => pack_r(
            0x3b,
            0x00,
            5,
            (rd.index() as u32),
            (rs1.index() as u32),
            (rs2.index() as u32),
        ),
        Instruction::Sraw { rd, rs1, rs2 } => pack_r(
            0x3b,
            0x20,
            5,
            (rd.index() as u32),
            (rs1.index() as u32),
            (rs2.index() as u32),
        ),
        _ => {
            proof {
                assert(false);
            }
            0
        },
    }
}

/// Encode the four stores.
#[verifier::rlimit(60)]
#[verifier::spinoff_prover]
fn encode_store(instruction: &Instruction) -> (w: u32)
    requires
        instruction.encodable(),
        (*instruction matches Instruction::Sb { .. }) || (*instruction
            matches Instruction::Sh { .. }) || (*instruction matches Instruction::Sw { .. }) || (
        *instruction matches Instruction::Sd { .. }),
    ensures
        spec_decode(w) == *instruction,
{
    proof {
        lemma2_to64();
        match *instruction {
            Instruction::Sb { rs2, rs1, .. } | Instruction::Sh { rs2, rs1, .. }
            | Instruction::Sw { rs2, rs1, .. } | Instruction::Sd { rs2, rs1, .. } => {
                lemma_reg_index_roundtrip(rs1);
                lemma_reg_index_roundtrip(rs2);
            },
            _ => {},
        }
    }
    match *instruction {
        Instruction::Sb { rs2, rs1, imm } => pack_s(
            0x23,
            0,
            (rs1.index() as u32),
            (rs2.index() as u32),
            imm_to_raw(imm, 0x800, 0x1000, Ghost(12nat)),
        ),
        Instruction::Sh { rs2, rs1, imm } => pack_s(
            0x23,
            1,
            (rs1.index() as u32),
            (rs2.index() as u32),
            imm_to_raw(imm, 0x800, 0x1000, Ghost(12nat)),
        ),
        Instruction::Sw { rs2, rs1, imm } => pack_s(
            0x23,
            2,
            (rs1.index() as u32),
            (rs2.index() as u32),
            imm_to_raw(imm, 0x800, 0x1000, Ghost(12nat)),
        ),
        Instruction::Sd { rs2, rs1, imm } => pack_s(
            0x23,
            3,
            (rs1.index() as u32),
            (rs2.index() as u32),
            imm_to_raw(imm, 0x800, 0x1000, Ghost(12nat)),
        ),
        _ => {
            proof {
                assert(false);
            }
            0
        },
    }
}

/// Encode fence, the jumps, the upper-immediate operations, the system
/// pair, and the canonical undefined word.
#[verifier::rlimit(60)]
#[verifier::spinoff_prover]
fn encode_misc(instruction: &Instruction) -> (w: u32)
    requires
        instruction.encodable(),
        (*instruction matches Instruction::Fence { .. }) || (*instruction
            matches Instruction::Jalr { .. }) || (*instruction matches Instruction::Jal { .. })
            || (*instruction matches Instruction::Auipc { .. }) || (*instruction
            matches Instruction::Lui { .. }) || (*instruction matches Instruction::Ecall) || (
        *instruction matches Instruction::Ebreak) || (*instruction
            matches Instruction::Undefined),
    ensures
        spec_decode(w) == *instruction,
{
    proof {
        lemma2_to64();
        match *instruction {
            Instruction::Fence { rd, rs1, .. } | Instruction::Jalr { rd, rs1, .. } => {
                lemma_reg_index_roundtrip(rd);
                lemma_reg_index_roundtrip(rs1);
            },
            Instruction::Jal { rd, .. } | Instruction::Auipc { rd, .. }
            | Instruction::Lui { rd, .. } => {
                lemma_reg_index_roundtrip(rd);
            },
            _ => {},
        }
    }
    match *instruction {
        Instruction::Fence { rd, rs1, succ, pred, fm } => {
            proof {
                lemma_fence_raw_bound(fm, pred, succ);
            }
            let raw = (fm << 8) | (pred << 4) | succ;
            let w = pack_i(0x0f, 0, rd.index() as u32, rs1.index() as u32, raw);
            proof {
                lemma_fence_fields(w, fm, pred, succ);
            }
            w
        },
        Instruction::Jalr { rd, rs1, imm } => pack_i(
            0x67,
            0,
            (rd.index() as u32),
            (rs1.index() as u32),
            imm_to_raw(imm, 0x800, 0x1000, Ghost(12nat)),
        ),
        Instruction::Jal { rd, imm } => pack_j(
            0x6f,
            (rd.index() as u32),
            imm_to_raw(imm, 0x10_0000, 0x20_0000, Ghost(21nat)),
        ),
        Instruction::Auipc { rd, imm } => pack_u(0x17, rd.index() as u32, imm_to_u_field(imm)),
        Instruction::Lui { rd, imm } => pack_u(0x37, rd.index() as u32, imm_to_u_field(imm)),
        Instruction::Ecall => {
            proof {
                lemma_fixed_words();
            }
            0x73
        },
        Instruction::Ebreak => {
            proof {
                lemma_fixed_words();
            }
            0x0010_0073
        },
        _ => {
            proof {
                lemma_fixed_words();
            }
            0
        },
    }
}

/// Pack an encodable instruction into a 32-bit word. The contract is the
/// round-trip law: decoding the result yields the instruction unchanged,
/// so `decode` is a left inverse of `encode` over encodable instructions.
pub fn encode(instruction: &Instruction) -> (w: u32)
    requires
        instruction.encodable(),
    ensures
        spec_decode(w) == *instruction,
{
    match *instruction {
        Instruction::Beq { .. } | Instruction::Bne { .. } | Instruction::Blt { .. }
        | Instruction::Bge { .. } | Instruction::Bltu { .. } | Instruction::Bgeu { .. } => {
            encode_branch(instruction)
        },
        Instruction::Lb { .. } | Instruction::Lh { .. } | Instruction::Lw { .. }
        | Instruction::Lbu { .. } | Instruction::Lhu { .. } | Instruction::Lwu { .. }
        | Instruction::Ld { .. } => encode_load(instruction),
        Instruction::Addi { .. } | Instruction::Slti { .. } | Instruction::Sltiu { .. }
        | Instruction::Xori { .. } | Instruction::Ori { .. } | Instruction::Andi { .. }
        | Instruction::Slli { .. } | Instruction::Srli { .. } | Instruction::Srai { .. } => {
            encode_alu_imm(instruction)
        },
        Instruction::Addiw { .. } | Instruction::Slliw { .. } | Instruction::Srliw { .. }
        | Instruction::Sraiw { .. } => encode_alu_imm_w(instruction),
        Instruction::Add { .. } | Instruction::Sub { .. } | Instruction::Sll { .. }
        | Instruction::Slt { .. } | Instruction::Sltu { .. } | Instruction::Xor { .. }
        | Instruction::Srl { .. } | Instruction::Sra { .. } | Instruction::Or { .. }
        | Instruction::And { .. } => encode_alu_reg(instruction),
        Instruction::Addw { .. } | Instruction::Subw { .. } | Instruction::Sllw { .. }
        | Instruction::Srlw { .. } | Instruction::Sraw { .. } => encode_alu_reg_w(instruction),
        Instruction::Sb { .. } | Instruction::Sh { .. } | Instruction::Sw { .. }
        | Instruction::Sd { .. } => encode_store(instruction),
        Instruction::Fence { .. } | Instruction::Jalr { .. } | Instruction::Jal { .. }
        | Instruction::Auipc { .. } | Instruction::Lui { .. } | Instruction::Ecall
        | Instruction::Ebreak | Instruction::Undefined => encode_misc(instruction),
    }
}

/// Wrap a U-format immediate (a signed multiple of 4096) back into its
/// in-place upper field.
fn imm_to_u_field(imm: i32) -> (field: u32)
    requires
        imm as int % 4096 == 0,
    ensures
        field % 4096 == 0,
        sign_extend(field, 32) == imm,
{
    proof {
        lemma2_to64();
        if imm < 0 {
            lemma_sign_extend_inverse(imm as int, (imm + 0x1_0000_0000) as u32, 32);
            lemma_mod_multiples_vanish(0x10_0000, imm as int, 4096);
        } else {
            lemma_sign_extend_inverse(imm as int, imm as u32, 32);
        }
    }
    if imm < 0 {
        ((imm as i64) + 0x1_0000_0000i64) as u32
    } else {
        imm as u32
    }
}

} // verus!
