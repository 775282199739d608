//! Arithmetic semantics helpers: sign extension to 64 bits, signed
//! readings of 64-bit register values, the immediate widened to a 64-bit
//! two's-complement addend, and arithmetic right shifts.

use vstd::prelude::*;

verus! {

/// Masking a 64-bit value keeps it under the mask's bound, for the masks
/// the execution engine uses.
pub proof fn lemma_u64_mask_bounds(a: u64)
    by (bit_vector)
    ensures
        a & 0xffff_ffff < 0x1_0000_0000,
        a & 0xffff < 0x1_0000,
        a & 0xff < 0x100,
        a & 0x3f < 64,
        a & 0x1f < 32,
{
}

/// The low 32 bits of a 64-bit register value.
pub open spec fn low32(a: u64) -> u32 {
    (a & 0xffff_ffff) as u32
}

/// Read the low 32 bits of a register value, the operand width of the
/// `w`-suffixed operations.
pub fn low32_exec(a: u64) -> (r: u32)
    ensures
        r == low32(a),
{
    proof {
        lemma_u64_mask_bounds(a);
    }
    (a & 0xffff_ffff) as u32
}

/// A byte sign-extended to 64 bits.
pub open spec fn sext8_to_64(b: u8) -> u64 {
    if b >= 0x80 {
        (b + 0xffff_ffff_ffff_ff00) as u64
    } else {
        b as u64
    }
}

/// A halfword sign-extended to 64 bits.
pub open spec fn sext16_to_64(h: u16) -> u64 {
    if h >= 0x8000 {
        (h + 0xffff_ffff_ffff_0000) as u64
    } else {
        h as u64
    }
}

/// A 32-bit value sign-extended to 64 bits.
pub open spec fn sext32_to_64(w: u32) -> u64 {
    if w >= 0x8000_0000 {
        (w + 0xffff_ffff_0000_0000) as u64
    } else {
        w as u64
    }
}

/// Sign-extend a loaded byte to the 64-bit register width.
pub fn sext8_to_64_exec(b: u8) -> (r: u64)
    ensures
        r == sext8_to_64(b),
{
    if b >= 0x80 {
        (b as u64) + 0xffff_ffff_ffff_ff00
    } else {
        b as u64
    }
}

/// Sign-extend a loaded halfword to the 64-bit register width.
pub fn sext16_to_64_exec(h: u16) -> (r: u64)
    ensures
        r == sext16_to_64(h),
{
    if h >= 0x8000 {
        (h as u64) + 0xffff_ffff_ffff_0000
    } else {
        h as u64
    }
}

/// Sign-extend a 32-bit result to the 64-bit register width.
pub fn sext32_to_64_exec(w: u32) -> (r: u64)
    ensures
        r == sext32_to_64(w),
{
    if w >= 0x8000_0000 {
        (w as u64) + 0xffff_ffff_0000_0000
    } else {
        w as u64
    }
}

/// A decoded immediate widened to a 64-bit two's-complement addend.
pub open spec fn imm_as_u64(imm: i32) -> u64 {
    if imm < 0 {
        (imm + 0x1_0000_0000_0000_0000) as u64
    } else {
        imm as u64
    }
}

/// Widen a decoded immediate to the 64-bit two's-complement addend used
/// by address arithmetic and the immediate ALU operations.
pub fn imm_as_u64_exec(imm: i32) -> (r: u64)
    ensures
        r == imm_as_u64(imm),
{
    if imm >= 0 {
        imm as u64
    } else {
        let m = (-(imm as i64)) as u64;
        (u64::MAX - m) + 1
    }
}

/// A 64-bit register value read as a signed quantity.
pub open spec fn as_signed64(a: u64) -> int {
    if a >= 0x8000_0000_0000_0000 {
        a - 0x1_0000_0000_0000_0000
    } else {
        a as int
    }
}

/// Whether `a < b` as signed 64-bit values.
pub fn signed_lt(a: u64, b: u64) -> (r: bool)
    ensures
        r == (as_signed64(a) < as_signed64(b)),
{
    let a_neg = a >= 0x8000_0000_0000_0000;
    let b_neg = b >= 0x8000_0000_0000_0000;
    if a_neg == b_neg {
        a < b
    } else {
        a_neg
    }
}

/// A 64-bit arithmetic right shift: the sign bit fills the vacated high
/// positions.
pub open spec fn sra64(a: u64, s: u64) -> u64
    recommends
        s < 64,
{
    if s == 0 {
        a
    } else if a >= 0x8000_0000_0000_0000 {
        (a >> s) | (0xffff_ffff_ffff_ffffu64 << ((64 - s) as u64))
    } else {
        a >> s
    }
}

/// Shift right arithmetically over the full 64-bit register width.
pub fn sra64_exec(a: u64, s: u64) -> (r: u64)
    requires
        s < 64,
    ensures
        r == sra64(a, s),
{
    if s == 0 {
        a
    } else if a >= 0x8000_0000_0000_0000 {
        (a >> s) | (0xffff_ffff_ffff_ffffu64 << (64 - s))
    } else {
        a >> s
    }
}

/// A 32-bit arithmetic right shift.
pub open spec fn sra32(a: u32, s: u32) -> u32
    recommends
        s < 32,
{
    if s == 0 {
        a
    } else if a >= 0x8000_0000 {
        (a >> s) | (0xffff_ffffu32 << ((32 - s) as u32))
    } else {
        a >> s
    }
}

/// Shift right arithmetically over the low 32 bits.
pub fn sra32_exec(a: u32, s: u32) -> (r: u32)
    requires
        s < 32,
    ensures
        r == sra32(a, s),
{
    if s == 0 {
        a
    } else if a >= 0x8000_0000 {
        (a >> s) | (0xffff_ffffu32 << (32 - s))
    } else {
        a >> s
    }
}

} // verus!
