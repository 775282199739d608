//! Bitfield and immediate codec.
//!
//! Spec-level descriptions of the fixed bit fields of a 32-bit RISC-V
//! instruction word, the reassembled immediates of the I/S/B/U/J encoding
//! formats, and two's-complement sign extension, together with the
//! executable sign-extension routine and the bound facts the decoder needs.

use vstd::prelude::*;

verus! {

use vstd::arithmetic::power2::pow2;
use vstd::arithmetic::power2::lemma2_to64;
use vstd::arithmetic::div_mod::lemma_mod_multiples_vanish;

/// The `width`-bit field `v` read as a two's-complement signed value:
/// if the top bit of the field is set, the value wraps down by 2^width.
pub open spec fn sign_extend(v: u32, width: nat) -> int
    recommends
        1 <= width <= 32,
        v < pow2(width),
{
    if v >= pow2((width - 1) as nat) {
        v - pow2(width)
    } else {
        v as int
    }
}

/// Sign extension is the unique signed reading of a field: the result lies
/// in the signed range of the field's width and is congruent to the raw
/// field modulo 2^width.
pub proof fn lemma_sign_extend_correct(v: u32, width: nat)
    requires
        1 <= width <= 32,
        v < pow2(width),
    ensures
        -pow2((width - 1) as nat) <= sign_extend(v, width) < pow2((width - 1) as nat),
        sign_extend(v, width) % (pow2(width) as int) == v as int % (pow2(width) as int),
{
    vstd::arithmetic::power2::lemma_pow2_unfold(width);
    vstd::arithmetic::power2::lemma_pow2_pos((width - 1) as nat);
    assert(pow2(width) == 2 * pow2((width - 1) as nat));
    if v >= pow2((width - 1) as nat) {
        lemma_mod_multiples_vanish(-1, v as int, pow2(width) as int);
    }
}

/// A signed value in the `width`-bit range, wrapped back into its raw
/// unsigned field, sign-extends to the value it came from.
pub proof fn lemma_sign_extend_inverse(x: int, v: u32, width: nat)
    requires
        1 <= width <= 32,
        -pow2((width - 1) as nat) <= x < pow2((width - 1) as nat),
        v == if x < 0 { x + pow2(width) } else { x },
    ensures
        sign_extend(v, width) == x,
{
    vstd::arithmetic::power2::lemma_pow2_unfold(width);
    vstd::arithmetic::power2::lemma_pow2_pos((width - 1) as nat);
}

/// Sign-extend the `width`-bit field `v` into a signed 32-bit value.
/// `half` and `full` are 2^(width-1) and 2^width, passed explicitly so the
/// routine stays free of ghost-only arithmetic.
pub fn sign_extend_to_i32(v: u32, half: u32, full: u32, width: Ghost<nat>) -> (r: i32)
    requires
        1 <= width@ <= 31,
        half == pow2((width@ - 1) as nat),
        full == pow2(width@),
        v < full,
    ensures
        r == sign_extend(v, width@),
{
    proof {
        vstd::arithmetic::power2::lemma_pow2_unfold(width@);
    }
    if v >= half {
        -((full - v) as i32)
    } else {
        v as i32
    }
}

// The fixed fields of an instruction word, by their bit positions.

/// Bits 6:0, the opcode.
pub open spec fn opcode_of(w: u32) -> u32 {
    w & 0x7f
}

/// Bits 11:7, the destination register index.
pub open spec fn rd_of(w: u32) -> u32 {
    (w >> 7) & 0x1f
}

/// Bits 14:12, the minor operation selector.
pub open spec fn funct3_of(w: u32) -> u32 {
    (w >> 12) & 0x7
}

/// Bits 19:15, the first source register index.
pub open spec fn rs1_of(w: u32) -> u32 {
    (w >> 15) & 0x1f
}

/// Bits 24:20, the second source register index.
pub open spec fn rs2_of(w: u32) -> u32 {
    (w >> 20) & 0x1f
}

/// Bits 31:25, the major operation selector of the R format.
pub open spec fn funct7_of(w: u32) -> u32 {
    (w >> 25) & 0x7f
}

/// The raw 12-bit I-format immediate field, bits 31:20.
pub open spec fn i_imm_raw(w: u32) -> u32 {
    (w >> 20) & 0xfff
}

/// The raw 12-bit S-format immediate: bits 31:25 over bits 11:7.
pub open spec fn s_imm_raw(w: u32) -> u32 {
    (((w >> 25) & 0x7f) << 5) | ((w >> 7) & 0x1f)
}

/// The raw 13-bit B-format immediate: bit 31 is immediate bit 12, bit 7 is
/// bit 11, bits 30:25 are bits 10:5, bits 11:8 are bits 4:1; bit 0 is zero.
pub open spec fn b_imm_raw(w: u32) -> u32 {
    (((w >> 31) & 1) << 12) | (((w >> 7) & 1) << 11) | (((w >> 25) & 0x3f) << 5) | (((w >> 8)
        & 0xf) << 1)
}

/// The U-format immediate field: bits 31:12 in place, low 12 bits zero.
pub open spec fn u_imm_field(w: u32) -> u32 {
    w & 0xffff_f000
}

/// The raw 21-bit J-format immediate: bit 31 is immediate bit 20, bits 19:12
/// stay at 19:12, bit 20 is bit 11, bits 30:21 are bits 10:1; bit 0 is zero.
pub open spec fn j_imm_raw(w: u32) -> u32 {
    (((w >> 31) & 1) << 20) | (((w >> 12) & 0xff) << 12) | (((w >> 20) & 1) << 11) | (((w >> 21)
        & 0x3ff) << 1)
}

/// The sign-extended I-format immediate.
pub open spec fn i_imm(w: u32) -> int {
    sign_extend(i_imm_raw(w), 12)
}

/// The sign-extended S-format immediate.
pub open spec fn s_imm(w: u32) -> int {
    sign_extend(s_imm_raw(w), 12)
}

/// The sign-extended B-format immediate, always even.
pub open spec fn b_imm(w: u32) -> int {
    sign_extend(b_imm_raw(w), 13)
}

/// The sign-extended U-format immediate: the in-place upper field with bit
/// 31 as its sign.
pub open spec fn u_imm(w: u32) -> int {
    sign_extend(u_imm_field(w), 32)
}

/// The sign-extended J-format immediate, always even.
pub open spec fn j_imm(w: u32) -> int {
    sign_extend(j_imm_raw(w), 21)
}

/// The 6-bit shift amount of a 64-bit shift-immediate instruction,
/// bits 5:0 of the I-format immediate field.
pub open spec fn shamt6_of(w: u32) -> u32 {
    i_imm_raw(w) & 0x3f
}

/// The 5-bit shift amount of a 32-bit shift-immediate instruction,
/// bits 4:0 of the I-format immediate field.
pub open spec fn shamt5_of(w: u32) -> u32 {
    i_imm_raw(w) & 0x1f
}

/// Bits 11:10 of the I-format immediate field; bit 10 of the field (bit 30
/// of the word) selects logical (0) or arithmetic (1) right shift.
pub open spec fn rshift_type_of(w: u32) -> u32 {
    (i_imm_raw(w) >> 10) & 0x3
}

/// Bits 31:28 of a fence instruction, the fence mode.
pub open spec fn fence_fm_of(w: u32) -> u32 {
    (w >> 28) & 0xf
}

/// Bits 27:24 of a fence instruction, the predecessor set.
pub open spec fn fence_pred_of(w: u32) -> u32 {
    (w >> 24) & 0xf
}

/// Bits 23:20 of a fence instruction, the successor set.
pub open spec fn fence_succ_of(w: u32) -> u32 {
    (w >> 20) & 0xf
}

/// Every extracted field lies under the bound its width gives it, and the
/// B- and J-format immediates are even.
pub proof fn lemma_field_bounds(w: u32)
    by (bit_vector)
    ensures
        opcode_of(w) < 128,
        rd_of(w) < 32,
        funct3_of(w) < 8,
        rs1_of(w) < 32,
        rs2_of(w) < 32,
        funct7_of(w) < 128,
        i_imm_raw(w) < 4096,
        s_imm_raw(w) < 4096,
        b_imm_raw(w) < 8192,
        b_imm_raw(w) % 2 == 0,
        j_imm_raw(w) < 0x20_0000,
        j_imm_raw(w) % 2 == 0,
        u_imm_field(w) % 0x1000 == 0,
        shamt6_of(w) < 64,
        shamt5_of(w) < 32,
        rshift_type_of(w) < 4,
        fence_fm_of(w) < 16,
        fence_pred_of(w) < 16,
        fence_succ_of(w) < 16,
{
}

/// The field bounds expressed against the powers of two that
/// `sign_extend` measures widths with.
pub proof fn lemma_imm_raw_in_range(w: u32)
    ensures
        i_imm_raw(w) < pow2(12),
        s_imm_raw(w) < pow2(12),
        b_imm_raw(w) < pow2(13),
        u_imm_field(w) < pow2(32),
        j_imm_raw(w) < pow2(21),
{
    lemma_field_bounds(w);
    lemma2_to64();
}

} // verus!
