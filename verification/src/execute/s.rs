//! S-format execution: the four stores. A store truncates the source
//! register to the access width; an access outside the image is a memory
//! fault and changes nothing.

use vstd::prelude::*;

verus! {

use crate::cpu::{Cpu, store8_at, store16_at, store32_at, store64_at, ea_of, mem_ok};
use crate::execute::{Outcome, TrapKind};
use crate::instruction::Register;

/// Store the low byte of rs2.
pub fn execute_sb(rs2: Register, rs1: Register, imm: i32, cpu: &mut Cpu) -> (r: Outcome)
    requires
        old(cpu).wf(),
        rs1.is_gpr(),
        rs2.is_gpr(),
    ensures
        final(cpu).wf(),
        mem_ok(old(cpu)@, rs1, imm, 1) ==> final(cpu)@ == old(cpu)@.with_mem(
            store8_at(old(cpu)@.mem, ea_of(old(cpu)@, rs1, imm), old(cpu)@.reg(rs2)),
        ) && r == Outcome::Continue,
        !mem_ok(old(cpu)@, rs1, imm, 1) ==> final(cpu)@ == old(cpu)@ && r == Outcome::Trap(
            TrapKind::MemoryFault,
        ),
{
    match cpu.effective_address(rs1, imm, 1) {
        None => Outcome::Trap(TrapKind::MemoryFault),
        Some(a) => {
            let value = cpu.read_register(rs2);
            cpu.store_u8(a, value);
            Outcome::Continue
        },
    }
}

/// Store the low 2 bytes of rs2.
pub fn execute_sh(rs2: Register, rs1: Register, imm: i32, cpu: &mut Cpu) -> (r: Outcome)
    requires
        old(cpu).wf(),
        rs1.is_gpr(),
        rs2.is_gpr(),
    ensures
        final(cpu).wf(),
        mem_ok(old(cpu)@, rs1, imm, 2) ==> final(cpu)@ == old(cpu)@.with_mem(
            store16_at(old(cpu)@.mem, ea_of(old(cpu)@, rs1, imm), old(cpu)@.reg(rs2)),
        ) && r == Outcome::Continue,
        !mem_ok(old(cpu)@, rs1, imm, 2) ==> final(cpu)@ == old(cpu)@ && r == Outcome::Trap(
            TrapKind::MemoryFault,
        ),
{
    match cpu.effective_address(rs1, imm, 2) {
        None => Outcome::Trap(TrapKind::MemoryFault),
        Some(a) => {
            let value = cpu.read_register(rs2);
            cpu.store_u16(a, value);
            Outcome::Continue
        },
    }
}

/// Store the low 4 bytes of rs2.
pub fn execute_sw(rs2: Register, rs1: Register, imm: i32, cpu: &mut Cpu) -> (r: Outcome)
    requires
        old(cpu).wf(),
        rs1.is_gpr(),
        rs2.is_gpr(),
    ensures
        final(cpu).wf(),
        mem_ok(old(cpu)@, rs1, imm, 4) ==> final(cpu)@ == old(cpu)@.with_mem(
            store32_at(old(cpu)@.mem, ea_of(old(cpu)@, rs1, imm), old(cpu)@.reg(rs2)),
        ) && r == Outcome::Continue,
        !mem_ok(old(cpu)@, rs1, imm, 4) ==> final(cpu)@ == old(cpu)@ && r == Outcome::Trap(
            TrapKind::MemoryFault,
        ),
{
    match cpu.effective_address(rs1, imm, 4) {
        None => Outcome::Trap(TrapKind::MemoryFault),
        Some(a) => {
            let value = cpu.read_register(rs2);
            cpu.store_u32(a, value);
            Outcome::Continue
        },
    }
}

/// Store all 8 bytes of rs2.
pub fn execute_sd(rs2: Register, rs1: Register, imm: i32, cpu: &mut Cpu) -> (r: Outcome)
    requires
        old(cpu).wf(),
        rs1.is_gpr(),
        rs2.is_gpr(),
    ensures
        final(cpu).wf(),
        mem_ok(old(cpu)@, rs1, imm, 8) ==> final(cpu)@ == old(cpu)@.with_mem(
            store64_at(old(cpu)@.mem, ea_of(old(cpu)@, rs1, imm), old(cpu)@.reg(rs2)),
        ) && r == Outcome::Continue,
        !mem_ok(old(cpu)@, rs1, imm, 8) ==> final(cpu)@ == old(cpu)@ && r == Outcome::Trap(
            TrapKind::MemoryFault,
        ),
{
    match cpu.effective_address(rs1, imm, 8) {
        None => Outcome::Trap(TrapKind::MemoryFault),
        Some(a) => {
            let value = cpu.read_register(rs2);
            cpu.store_u64(a, value);
            Outcome::Continue
        },
    }
}

} // verus!
