//! R-format execution: the register ALU operations and their 32-bit
//! variants. Register shifts mask the shift amount to the operand width.

use vstd::prelude::*;

verus! {

use crate::alu::{
    low32, low32_exec, sext32_to_64, sext32_to_64_exec, as_signed64, signed_lt, sra64, sra64_exec,
    sra32, sra32_exec, lemma_u64_mask_bounds,
};
use crate::cpu::Cpu;
use crate::execute::Outcome;
use crate::instruction::Register;

/// Two's-complement addition, wrapping.
pub fn execute_add(rd: Register, rs1: Register, rs2: Register, cpu: &mut Cpu) -> (r: Outcome)
    requires
        old(cpu).wf(),
        rd.is_gpr(),
        rs1.is_gpr(),
        rs2.is_gpr(),
    ensures
        final(cpu).wf(),
        final(cpu)@ == old(cpu)@.with_reg(
            rd,
            old(cpu)@.reg(rs1).wrapping_add(old(cpu)@.reg(rs2)),
        ),
        r == Outcome::Continue,
{
    let value = cpu.read_register(rs1).wrapping_add(cpu.read_register(rs2));
    cpu.write_register(rd, value);
    Outcome::Continue
}

/// Two's-complement subtraction, wrapping.
pub fn execute_sub(rd: Register, rs1: Register, rs2: Register, cpu: &mut Cpu) -> (r: Outcome)
    requires
        old(cpu).wf(),
        rd.is_gpr(),
        rs1.is_gpr(),
        rs2.is_gpr(),
    ensures
        final(cpu).wf(),
        final(cpu)@ == old(cpu)@.with_reg(
            rd,
            old(cpu)@.reg(rs1).wrapping_sub(old(cpu)@.reg(rs2)),
        ),
        r == Outcome::Continue,
{
    let value = cpu.read_register(rs1).wrapping_sub(cpu.read_register(rs2));
    cpu.write_register(rd, value);
    Outcome::Continue
}

/// Shift left logical; the amount is the low 6 bits of rs2.
pub fn execute_sll(rd: Register, rs1: Register, rs2: Register, cpu: &mut Cpu) -> (r: Outcome)
    requires
        old(cpu).wf(),
        rd.is_gpr(),
        rs1.is_gpr(),
        rs2.is_gpr(),
    ensures
        final(cpu).wf(),
        final(cpu)@ == old(cpu)@.with_reg(
            rd,
            old(cpu)@.reg(rs1) << (old(cpu)@.reg(rs2) & 0x3f),
        ),
        r == Outcome::Continue,
{
    let s = cpu.read_register(rs2) & 0x3f;
    proof {
        lemma_u64_mask_bounds(old(cpu)@.reg(rs2));
    }
    let value = cpu.read_register(rs1) << s;
    cpu.write_register(rd, value);
    Outcome::Continue
}

/// Set if less than, signed.
pub fn execute_slt(rd: Register, rs1: Register, rs2: Register, cpu: &mut Cpu) -> (r: Outcome)
    requires
        old(cpu).wf(),
        rd.is_gpr(),
        rs1.is_gpr(),
        rs2.is_gpr(),
    ensures
        final(cpu).wf(),
        final(cpu)@ == old(cpu)@.with_reg(
            rd,
            if as_signed64(old(cpu)@.reg(rs1)) < as_signed64(old(cpu)@.reg(rs2)) {
                1u64
            } else {
                0u64
            },
        ),
        r == Outcome::Continue,
{
    let value: u64 = if signed_lt(cpu.read_register(rs1), cpu.read_register(rs2)) {
        1
    } else {
        0
    };
    cpu.write_register(rd, value);
    Outcome::Continue
}

/// Set if less than, unsigned.
pub fn execute_sltu(rd: Register, rs1: Register, rs2: Register, cpu: &mut Cpu) -> (r: Outcome)
    requires
        old(cpu).wf(),
        rd.is_gpr(),
        rs1.is_gpr(),
        rs2.is_gpr(),
    ensures
        final(cpu).wf(),
        final(cpu)@ == old(cpu)@.with_reg(
            rd,
            if old(cpu)@.reg(rs1) < old(cpu)@.reg(rs2) {
                1u64
            } else {
                0u64
            },
        ),
        r == Outcome::Continue,
{
    let value: u64 = if cpu.read_register(rs1) < cpu.read_register(rs2) {
        1
    } else {
        0
    };
    cpu.write_register(rd, value);
    Outcome::Continue
}

/// Bitwise exclusive-or.
pub fn execute_xor(rd: Register, rs1: Register, rs2: Register, cpu: &mut Cpu) -> (r: Outcome)
    requires
        old(cpu).wf(),
        rd.is_gpr(),
        rs1.is_gpr(),
        rs2.is_gpr(),
    ensures
        final(cpu).wf(),
        final(cpu)@ == old(cpu)@.with_reg(rd, old(cpu)@.reg(rs1) ^ old(cpu)@.reg(rs2)),
        r == Outcome::Continue,
{
    let value = cpu.read_register(rs1) ^ cpu.read_register(rs2);
    cpu.write_register(rd, value);
    Outcome::Continue
}

/// Shift right logical; the amount is the low 6 bits of rs2.
pub fn execute_srl(rd: Register, rs1: Register, rs2: Register, cpu: &mut Cpu) -> (r: Outcome)
    requires
        old(cpu).wf(),
        rd.is_gpr(),
        rs1.is_gpr(),
        rs2.is_gpr(),
    ensures
        final(cpu).wf(),
        final(cpu)@ == old(cpu)@.with_reg(
            rd,
            old(cpu)@.reg(rs1) >> (old(cpu)@.reg(rs2) & 0x3f),
        ),
        r == Outcome::Continue,
{
    let s = cpu.read_register(rs2) & 0x3f;
    proof {
        lemma_u64_mask_bounds(old(cpu)@.reg(rs2));
    }
    let value = cpu.read_register(rs1) >> s;
    cpu.write_register(rd, value);
    Outcome::Continue
}

/// Shift right arithmetic; the amount is the low 6 bits of rs2.
pub fn execute_sra(rd: Register, rs1: Register, rs2: Register, cpu: &mut Cpu) -> (r: Outcome)
    requires
        old(cpu).wf(),
        rd.is_gpr(),
        rs1.is_gpr(),
        rs2.is_gpr(),
    ensures
        final(cpu).wf(),
        final(cpu)@ == old(cpu)@.with_reg(
            rd,
            sra64(old(cpu)@.reg(rs1), old(cpu)@.reg(rs2) & 0x3f),
        ),
        r == Outcome::Continue,
{
    let s = cpu.read_register(rs2) & 0x3f;
    proof {
        lemma_u64_mask_bounds(old(cpu)@.reg(rs2));
    }
    let value = sra64_exec(cpu.read_register(rs1), s);
    cpu.write_register(rd, value);
    Outcome::Continue
}

/// Bitwise or.
pub fn execute_or(rd: Register, rs1: Register, rs2: Register, cpu: &mut Cpu) -> (r: Outcome)
    requires
        old(cpu).wf(),
        rd.is_gpr(),
        rs1.is_gpr(),
        rs2.is_gpr(),
    ensures
        final(cpu).wf(),
        final(cpu)@ == old(cpu)@.with_reg(rd, old(cpu)@.reg(rs1) | old(cpu)@.reg(rs2)),
        r == Outcome::Continue,
{
    let value = cpu.read_register(rs1) | cpu.read_register(rs2);
    cpu.write_register(rd, value);
    Outcome::Continue
}

/// Bitwise and.
pub fn execute_and(rd: Register, rs1: Register, rs2: Register, cpu: &mut Cpu) -> (r: Outcome)
    requires
        old(cpu).wf(),
        rd.is_gpr(),
        rs1.is_gpr(),
        rs2.is_gpr(),
    ensures
        final(cpu).wf(),
        final(cpu)@ == old(cpu)@.with_reg(rd, old(cpu)@.reg(rs1) & old(cpu)@.reg(rs2)),
        r == Outcome::Continue,
{
    let value = cpu.read_register(rs1) & cpu.read_register(rs2);
    cpu.write_register(rd, value);
    Outcome::Continue
}

/// 32-bit addition, sign-extended to 64 bits.
pub fn execute_addw(rd: Register, rs1: Register, rs2: Register, cpu: &mut Cpu) -> (r: Outcome)
    requires
        old(cpu).wf(),
        rd.is_gpr(),
        rs1.is_gpr(),
        rs2.is_gpr(),
    ensures
        final(cpu).wf(),
        final(cpu)@ == old(cpu)@.with_reg(
            rd,
            sext32_to_64(low32(old(cpu)@.reg(rs1)).wrapping_add(low32(old(cpu)@.reg(rs2)))),
        ),
        r == Outcome::Continue,
{
    let sum = low32_exec(cpu.read_register(rs1)).wrapping_add(low32_exec(cpu.read_register(rs2)));
    let value = sext32_to_64_exec(sum);
    cpu.write_register(rd, value);
    Outcome::Continue
}

/// 32-bit subtraction, sign-extended to 64 bits.
pub fn execute_subw(rd: Register, rs1: Register, rs2: Register, cpu: &mut Cpu) -> (r: Outcome)
    requires
        old(cpu).wf(),
        rd.is_gpr(),
        rs1.is_gpr(),
        rs2.is_gpr(),
    ensures
        final(cpu).wf(),
        final(cpu)@ == old(cpu)@.with_reg(
            rd,
            sext32_to_64(low32(old(cpu)@.reg(rs1)).wrapping_sub(low32(old(cpu)@.reg(rs2)))),
        ),
        r == Outcome::Continue,
{
    let diff = low32_exec(cpu.read_register(rs1)).wrapping_sub(low32_exec(cpu.read_register(rs2)));
    let value = sext32_to_64_exec(diff);
    cpu.write_register(rd, value);
    Outcome::Continue
}

/// 32-bit shift left logical; the amount is the low 5 bits of rs2.
pub fn execute_sllw(rd: Register, rs1: Register, rs2: Register, cpu: &mut Cpu) -> (r: Outcome)
    requires
        old(cpu).wf(),
        rd.is_gpr(),
        rs1.is_gpr(),
        rs2.is_gpr(),
    ensures
        final(cpu).wf(),
        final(cpu)@ == old(cpu)@.with_reg(
            rd,
            sext32_to_64(low32(old(cpu)@.reg(rs1)) << ((old(cpu)@.reg(rs2) & 0x1f) as u32)),
        ),
        r == Outcome::Continue,
{
    let s = (cpu.read_register(rs2) & 0x1f) as u32;
    proof {
        lemma_u64_mask_bounds(old(cpu)@.reg(rs2));
    }
    let value = sext32_to_64_exec(low32_exec(cpu.read_register(rs1)) << s);
    cpu.write_register(rd, value);
    Outcome::Continue
}

/// 32-bit shift right logical; the amount is the low 5 bits of rs2.
pub fn execute_srlw(rd: Register, rs1: Register, rs2: Register, cpu: &mut Cpu) -> (r: Outcome)
    requires
        old(cpu).wf(),
        rd.is_gpr(),
        rs1.is_gpr(),
        rs2.is_gpr(),
    ensures
        final(cpu).wf(),
        final(cpu)@ == old(cpu)@.with_reg(
            rd,
            sext32_to_64(low32(old(cpu)@.reg(rs1)) >> ((old(cpu)@.reg(rs2) & 0x1f) as u32)),
        ),
        r == Outcome::Continue,
{
    let s = (cpu.read_register(rs2) & 0x1f) as u32;
    proof {
        lemma_u64_mask_bounds(old(cpu)@.reg(rs2));
    }
    let value = sext32_to_64_exec(low32_exec(cpu.read_register(rs1)) >> s);
    cpu.write_register(rd, value);
    Outcome::Continue
}

/// 32-bit shift right arithmetic; the amount is the low 5 bits of rs2.
pub fn execute_sraw(rd: Register, rs1: Register, rs2: Register, cpu: &mut Cpu) -> (r: Outcome)
    requires
        old(cpu).wf(),
        rd.is_gpr(),
        rs1.is_gpr(),
        rs2.is_gpr(),
    ensures
        final(cpu).wf(),
        final(cpu)@ == old(cpu)@.with_reg(
            rd,
            sext32_to_64(sra32(low32(old(cpu)@.reg(rs1)), (old(cpu)@.reg(rs2) & 0x1f) as u32)),
        ),
        r == Outcome::Continue,
{
    let s = (cpu.read_register(rs2) & 0x1f) as u32;
    proof {
        lemma_u64_mask_bounds(old(cpu)@.reg(rs2));
    }
    let value = sext32_to_64_exec(sra32_exec(low32_exec(cpu.read_register(rs1)), s));
    cpu.write_register(rd, value);
    Outcome::Continue
}

} // verus!
