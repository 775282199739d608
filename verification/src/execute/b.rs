//! B-format execution: the six conditional branches. A branch never
//! writes the state; a taken branch reports the redirected program
//! counter, an untaken one falls through.

use vstd::prelude::*;

verus! {

use crate::alu::{imm_as_u64_exec, signed_lt, as_signed64};
use crate::cpu::Cpu;
use crate::execute::{Outcome, jump_target};
use crate::instruction::Register;

/// Branch if the two registers are equal.
pub fn execute_beq(rs1: Register, rs2: Register, imm: i32, cpu: &mut Cpu) -> (r: Outcome)
    requires
        old(cpu).wf(),
        rs1.is_gpr(),
        rs2.is_gpr(),
    ensures
        final(cpu)@ == old(cpu)@,
        final(cpu).wf(),
        r == if old(cpu)@.reg(rs1) == old(cpu)@.reg(rs2) {
            Outcome::Jump(jump_target(old(cpu)@.pc, imm))
        } else {
            Outcome::Continue
        },
{
    if cpu.read_register(rs1) == cpu.read_register(rs2) {
        Outcome::Jump(cpu.pc.wrapping_add(imm_as_u64_exec(imm)))
    } else {
        Outcome::Continue
    }
}

/// Branch if the two registers differ.
pub fn execute_bne(rs1: Register, rs2: Register, imm: i32, cpu: &mut Cpu) -> (r: Outcome)
    requires
        old(cpu).wf(),
        rs1.is_gpr(),
        rs2.is_gpr(),
    ensures
        final(cpu)@ == old(cpu)@,
        final(cpu).wf(),
        r == if old(cpu)@.reg(rs1) != old(cpu)@.reg(rs2) {
            Outcome::Jump(jump_target(old(cpu)@.pc, imm))
        } else {
            Outcome::Continue
        },
{
    if cpu.read_register(rs1) != cpu.read_register(rs2) {
        Outcome::Jump(cpu.pc.wrapping_add(imm_as_u64_exec(imm)))
    } else {
        Outcome::Continue
    }
}

/// Branch on signed less-than.
pub fn execute_blt(rs1: Register, rs2: Register, imm: i32, cpu: &mut Cpu) -> (r: Outcome)
    requires
        old(cpu).wf(),
        rs1.is_gpr(),
        rs2.is_gpr(),
    ensures
        final(cpu)@ == old(cpu)@,
        final(cpu).wf(),
        r == if as_signed64(old(cpu)@.reg(rs1)) < as_signed64(old(cpu)@.reg(rs2)) {
            Outcome::Jump(jump_target(old(cpu)@.pc, imm))
        } else {
            Outcome::Continue
        },
{
    if signed_lt(cpu.read_register(rs1), cpu.read_register(rs2)) {
        Outcome::Jump(cpu.pc.wrapping_add(imm_as_u64_exec(imm)))
    } else {
        Outcome::Continue
    }
}

/// Branch on signed greater-or-equal.
pub fn execute_bge(rs1: Register, rs2: Register, imm: i32, cpu: &mut Cpu) -> (r: Outcome)
    requires
        old(cpu).wf(),
        rs1.is_gpr(),
        rs2.is_gpr(),
    ensures
        final(cpu)@ == old(cpu)@,
        final(cpu).wf(),
        r == if as_signed64(old(cpu)@.reg(rs1)) >= as_signed64(old(cpu)@.reg(rs2)) {
            Outcome::Jump(jump_target(old(cpu)@.pc, imm))
        } else {
            Outcome::Continue
        },
{
    if !signed_lt(cpu.read_register(rs1), cpu.read_register(rs2)) {
        Outcome::Jump(cpu.pc.wrapping_add(imm_as_u64_exec(imm)))
    } else {
        Outcome::Continue
    }
}

/// Branch on unsigned less-than.
pub fn execute_bltu(rs1: Register, rs2: Register, imm: i32, cpu: &mut Cpu) -> (r: Outcome)
    requires
        old(cpu).wf(),
        rs1.is_gpr(),
        rs2.is_gpr(),
    ensures
        final(cpu)@ == old(cpu)@,
        final(cpu).wf(),
        r == if old(cpu)@.reg(rs1) < old(cpu)@.reg(rs2) {
            Outcome::Jump(jump_target(old(cpu)@.pc, imm))
        } else {
            Outcome::Continue
        },
{
    if cpu.read_register(rs1) < cpu.read_register(rs2) {
        Outcome::Jump(cpu.pc.wrapping_add(imm_as_u64_exec(imm)))
    } else {
        Outcome::Continue
    }
}

/// Branch on unsigned greater-or-equal.
pub fn execute_bgeu(rs1: Register, rs2: Register, imm: i32, cpu: &mut Cpu) -> (r: Outcome)
    requires
        old(cpu).wf(),
        rs1.is_gpr(),
        rs2.is_gpr(),
    ensures
        final(cpu)@ == old(cpu)@,
        final(cpu).wf(),
        r == if old(cpu)@.reg(rs1) >= old(cpu)@.reg(rs2) {
            Outcome::Jump(jump_target(old(cpu)@.pc, imm))
        } else {
            Outcome::Continue
        },
{
    if cpu.read_register(rs1) >= cpu.read_register(rs2) {
        Outcome::Jump(cpu.pc.wrapping_add(imm_as_u64_exec(imm)))
    } else {
        Outcome::Continue
    }
}

} // verus!
