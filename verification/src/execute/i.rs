//! I-format execution: loads, fence, the immediate ALU operations and
//! their 32-bit variants, jalr, and the environment pair.

use vstd::prelude::*;

verus! {

use crate::alu::{
    low32, low32_exec, sext8_to_64, sext8_to_64_exec, sext16_to_64, sext16_to_64_exec,
    sext32_to_64, sext32_to_64_exec, imm_as_u64, imm_as_u64_exec, as_signed64, signed_lt, sra64,
    sra64_exec, sra32, sra32_exec,
};
use crate::cpu::{Cpu, le16_at, le32_at, le64_at, ea_of, mem_ok};
use crate::execute::{Outcome, TrapKind};
use crate::instruction::Register;

/// Load a byte and sign-extend it to 64 bits.
pub fn execute_lb(rd: Register, rs1: Register, imm: i32, cpu: &mut Cpu) -> (r: Outcome)
    requires
        old(cpu).wf(),
        rd.is_gpr(),
        rs1.is_gpr(),
    ensures
        final(cpu).wf(),
        mem_ok(old(cpu)@, rs1, imm, 1) ==> final(cpu)@ == old(cpu)@.with_reg(
            rd,
            sext8_to_64(old(cpu)@.mem[ea_of(old(cpu)@, rs1, imm)]),
        ) && r == Outcome::Continue,
        !mem_ok(old(cpu)@, rs1, imm, 1) ==> final(cpu)@ == old(cpu)@ && r == Outcome::Trap(
            TrapKind::MemoryFault,
        ),
{
    match cpu.effective_address(rs1, imm, 1) {
        None => Outcome::Trap(TrapKind::MemoryFault),
        Some(a) => {
            let value = sext8_to_64_exec(cpu.load_u8(a));
            cpu.write_register(rd, value);
            Outcome::Continue
        },
    }
}

/// Load a halfword and sign-extend it to 64 bits.
pub fn execute_lh(rd: Register, rs1: Register, imm: i32, cpu: &mut Cpu) -> (r: Outcome)
    requires
        old(cpu).wf(),
        rd.is_gpr(),
        rs1.is_gpr(),
    ensures
        final(cpu).wf(),
        mem_ok(old(cpu)@, rs1, imm, 2) ==> final(cpu)@ == old(cpu)@.with_reg(
            rd,
            sext16_to_64(le16_at(old(cpu)@.mem, ea_of(old(cpu)@, rs1, imm))),
        ) && r == Outcome::Continue,
        !mem_ok(old(cpu)@, rs1, imm, 2) ==> final(cpu)@ == old(cpu)@ && r == Outcome::Trap(
            TrapKind::MemoryFault,
        ),
{
    match cpu.effective_address(rs1, imm, 2) {
        None => Outcome::Trap(TrapKind::MemoryFault),
        Some(a) => {
            let value = sext16_to_64_exec(cpu.load_u16(a));
            cpu.write_register(rd, value);
            Outcome::Continue
        },
    }
}

/// Load a 32-bit word and sign-extend it to 64 bits.
pub fn execute_lw(rd: Register, rs1: Register, imm: i32, cpu: &mut Cpu) -> (r: Outcome)
    requires
        old(cpu).wf(),
        rd.is_gpr(),
        rs1.is_gpr(),
    ensures
        final(cpu).wf(),
        mem_ok(old(cpu)@, rs1, imm, 4) ==> final(cpu)@ == old(cpu)@.with_reg(
            rd,
            sext32_to_64(le32_at(old(cpu)@.mem, ea_of(old(cpu)@, rs1, imm))),
        ) && r == Outcome::Continue,
        !mem_ok(old(cpu)@, rs1, imm, 4) ==> final(cpu)@ == old(cpu)@ && r == Outcome::Trap(
            TrapKind::MemoryFault,
        ),
{
    match cpu.effective_address(rs1, imm, 4) {
        None => Outcome::Trap(TrapKind::MemoryFault),
        Some(a) => {
            let value = sext32_to_64_exec(cpu.load_u32(a));
            cpu.write_register(rd, value);
            Outcome::Continue
        },
    }
}

/// Load a byte and zero-extend it to 64 bits.
pub fn execute_lbu(rd: Register, rs1: Register, imm: i32, cpu: &mut Cpu) -> (r: Outcome)
    requires
        old(cpu).wf(),
        rd.is_gpr(),
        rs1.is_gpr(),
    ensures
        final(cpu).wf(),
        mem_ok(old(cpu)@, rs1, imm, 1) ==> final(cpu)@ == old(cpu)@.with_reg(
            rd,
            old(cpu)@.mem[ea_of(old(cpu)@, rs1, imm)] as u64,
        ) && r == Outcome::Continue,
        !mem_ok(old(cpu)@, rs1, imm, 1) ==> final(cpu)@ == old(cpu)@ && r == Outcome::Trap(
            TrapKind::MemoryFault,
        ),
{
    match cpu.effective_address(rs1, imm, 1) {
        None => Outcome::Trap(TrapKind::MemoryFault),
        Some(a) => {
            let value = cpu.load_u8(a) as u64;
            cpu.write_register(rd, value);
            Outcome::Continue
        },
    }
}

/// Load a halfword and zero-extend it to 64 bits.
pub fn execute_lhu(rd: Register, rs1: Register, imm: i32, cpu: &mut Cpu) -> (r: Outcome)
    requires
        old(cpu).wf(),
        rd.is_gpr(),
        rs1.is_gpr(),
    ensures
        final(cpu).wf(),
        mem_ok(old(cpu)@, rs1, imm, 2) ==> final(cpu)@ == old(cpu)@.with_reg(
            rd,
            le16_at(old(cpu)@.mem, ea_of(old(cpu)@, rs1, imm)) as u64,
        ) && r == Outcome::Continue,
        !mem_ok(old(cpu)@, rs1, imm, 2) ==> final(cpu)@ == old(cpu)@ && r == Outcome::Trap(
            TrapKind::MemoryFault,
        ),
{
    match cpu.effective_address(rs1, imm, 2) {
        None => Outcome::Trap(TrapKind::MemoryFault),
        Some(a) => {
            let value = cpu.load_u16(a) as u64;
            cpu.write_register(rd, value);
            Outcome::Continue
        },
    }
}

/// Load a 32-bit word and zero-extend it to 64 bits.
pub fn execute_lwu(rd: Register, rs1: Register, imm: i32, cpu: &mut Cpu) -> (r: Outcome)
    requires
        old(cpu).wf(),
        rd.is_gpr(),
        rs1.is_gpr(),
    ensures
        final(cpu).wf(),
        mem_ok(old(cpu)@, rs1, imm, 4) ==> final(cpu)@ == old(cpu)@.with_reg(
            rd,
            le32_at(old(cpu)@.mem, ea_of(old(cpu)@, rs1, imm)) as u64,
        ) && r == Outcome::Continue,
        !mem_ok(old(cpu)@, rs1, imm, 4) ==> final(cpu)@ == old(cpu)@ && r == Outcome::Trap(
            TrapKind::MemoryFault,
        ),
{
    match cpu.effective_address(rs1, imm, 4) {
        None => Outcome::Trap(TrapKind::MemoryFault),
        Some(a) => {
            let value = cpu.load_u32(a) as u64;
            cpu.write_register(rd, value);
            Outcome::Continue
        },
    }
}

/// Load a full 64-bit doubleword.
pub fn execute_ld(rd: Register, rs1: Register, imm: i32, cpu: &mut Cpu) -> (r: Outcome)
    requires
        old(cpu).wf(),
        rd.is_gpr(),
        rs1.is_gpr(),
    ensures
        final(cpu).wf(),
        mem_ok(old(cpu)@, rs1, imm, 8) ==> final(cpu)@ == old(cpu)@.with_reg(
            rd,
            le64_at(old(cpu)@.mem, ea_of(old(cpu)@, rs1, imm)),
        ) && r == Outcome::Continue,
        !mem_ok(old(cpu)@, rs1, imm, 8) ==> final(cpu)@ == old(cpu)@ && r == Outcome::Trap(
            TrapKind::MemoryFault,
        ),
{
    match cpu.effective_address(rs1, imm, 8) {
        None => Outcome::Trap(TrapKind::MemoryFault),
        Some(a) => {
            let value = cpu.load_u64(a);
            cpu.write_register(rd, value);
            Outcome::Continue
        },
    }
}

/// Fence: inert in a single-threaded, single-core model; the set fields
/// are accepted but order nothing.
pub fn execute_fence(rd: Register, rs1: Register, succ: u32, pred: u32, fm: u32, cpu: &mut Cpu) -> (r:
    Outcome)
    requires
        old(cpu).wf(),
    ensures
        final(cpu)@ == old(cpu)@,
        final(cpu).wf(),
        r == Outcome::Continue,
{
    Outcome::Continue
}

/// Add the sign-extended immediate.
pub fn execute_addi(rd: Register, rs1: Register, imm: i32, cpu: &mut Cpu) -> (r: Outcome)
    requires
        old(cpu).wf(),
        rd.is_gpr(),
        rs1.is_gpr(),
    ensures
        final(cpu).wf(),
        final(cpu)@ == old(cpu)@.with_reg(rd, old(cpu)@.reg(rs1).wrapping_add(imm_as_u64(imm))),
        r == Outcome::Continue,
{
    let value = cpu.read_register(rs1).wrapping_add(imm_as_u64_exec(imm));
    cpu.write_register(rd, value);
    Outcome::Continue
}

/// Set if less than the immediate, signed.
pub fn execute_slti(rd: Register, rs1: Register, imm: i32, cpu: &mut Cpu) -> (r: Outcome)
    requires
        old(cpu).wf(),
        rd.is_gpr(),
        rs1.is_gpr(),
    ensures
        final(cpu).wf(),
        final(cpu)@ == old(cpu)@.with_reg(
            rd,
            if as_signed64(old(cpu)@.reg(rs1)) < imm {
                1u64
            } else {
                0u64
            },
        ),
        r == Outcome::Continue,
{
    let value: u64 = if signed_lt(cpu.read_register(rs1), imm_as_u64_exec(imm)) {
        1
    } else {
        0
    };
    cpu.write_register(rd, value);
    Outcome::Continue
}

/// Set if less than the sign-extended immediate, compared unsigned.
pub fn execute_sltiu(rd: Register, rs1: Register, imm: i32, cpu: &mut Cpu) -> (r: Outcome)
    requires
        old(cpu).wf(),
        rd.is_gpr(),
        rs1.is_gpr(),
    ensures
        final(cpu).wf(),
        final(cpu)@ == old(cpu)@.with_reg(
            rd,
            if old(cpu)@.reg(rs1) < imm_as_u64(imm) {
                1u64
            } else {
                0u64
            },
        ),
        r == Outcome::Continue,
{
    let value: u64 = if cpu.read_register(rs1) < imm_as_u64_exec(imm) {
        1
    } else {
        0
    };
    cpu.write_register(rd, value);
    Outcome::Continue
}

/// Exclusive-or with the sign-extended immediate.
pub fn execute_xori(rd: Register, rs1: Register, imm: i32, cpu: &mut Cpu) -> (r: Outcome)
    requires
        old(cpu).wf(),
        rd.is_gpr(),
        rs1.is_gpr(),
    ensures
        final(cpu).wf(),
        final(cpu)@ == old(cpu)@.with_reg(rd, old(cpu)@.reg(rs1) ^ imm_as_u64(imm)),
        r == Outcome::Continue,
{
    let value = cpu.read_register(rs1) ^ imm_as_u64_exec(imm);
    cpu.write_register(rd, value);
    Outcome::Continue
}

/// Or with the sign-extended immediate.
pub fn execute_ori(rd: Register, rs1: Register, imm: i32, cpu: &mut Cpu) -> (r: Outcome)
    requires
        old(cpu).wf(),
        rd.is_gpr(),
        rs1.is_gpr(),
    ensures
        final(cpu).wf(),
        final(cpu)@ == old(cpu)@.with_reg(rd, old(cpu)@.reg(rs1) | imm_as_u64(imm)),
        r == Outcome::Continue,
{
    let value = cpu.read_register(rs1) | imm_as_u64_exec(imm);
    cpu.write_register(rd, value);
    Outcome::Continue
}

/// And with the sign-extended immediate.
pub fn execute_andi(rd: Register, rs1: Register, imm: i32, cpu: &mut Cpu) -> (r: Outcome)
    requires
        old(cpu).wf(),
        rd.is_gpr(),
        rs1.is_gpr(),
    ensures
        final(cpu).wf(),
        final(cpu)@ == old(cpu)@.with_reg(rd, old(cpu)@.reg(rs1) & imm_as_u64(imm)),
        r == Outcome::Continue,
{
    let value = cpu.read_register(rs1) & imm_as_u64_exec(imm);
    cpu.write_register(rd, value);
    Outcome::Continue
}

/// Shift left logical by an immediate amount.
pub fn execute_slli(rd: Register, rs1: Register, shamt: u32, cpu: &mut Cpu) -> (r: Outcome)
    requires
        old(cpu).wf(),
        rd.is_gpr(),
        rs1.is_gpr(),
        shamt < 64,
    ensures
        final(cpu).wf(),
        final(cpu)@ == old(cpu)@.with_reg(rd, old(cpu)@.reg(rs1) << (shamt as u64)),
        r == Outcome::Continue,
{
    let value = cpu.read_register(rs1) << (shamt as u64);
    cpu.write_register(rd, value);
    Outcome::Continue
}

/// Shift right logical by an immediate amount.
pub fn execute_srli(rd: Register, rs1: Register, shamt: u32, cpu: &mut Cpu) -> (r: Outcome)
    requires
        old(cpu).wf(),
        rd.is_gpr(),
        rs1.is_gpr(),
        shamt < 64,
    ensures
        final(cpu).wf(),
        final(cpu)@ == old(cpu)@.with_reg(rd, old(cpu)@.reg(rs1) >> (shamt as u64)),
        r == Outcome::Continue,
{
    let value = cpu.read_register(rs1) >> (shamt as u64);
    cpu.write_register(rd, value);
    Outcome::Continue
}

/// Shift right arithmetic by an immediate amount.
pub fn execute_srai(rd: Register, rs1: Register, shamt: u32, cpu: &mut Cpu) -> (r: Outcome)
    requires
        old(cpu).wf(),
        rd.is_gpr(),
        rs1.is_gpr(),
        shamt < 64,
    ensures
        final(cpu).wf(),
        final(cpu)@ == old(cpu)@.with_reg(rd, sra64(old(cpu)@.reg(rs1), shamt as u64)),
        r == Outcome::Continue,
{
    let value = sra64_exec(cpu.read_register(rs1), shamt as u64);
    cpu.write_register(rd, value);
    Outcome::Continue
}

/// Add the immediate over the low 32 bits and sign-extend the result.
pub fn execute_addiw(rd: Register, rs1: Register, imm: i32, cpu: &mut Cpu) -> (r: Outcome)
    requires
        old(cpu).wf(),
        rd.is_gpr(),
        rs1.is_gpr(),
    ensures
        final(cpu).wf(),
        final(cpu)@ == old(cpu)@.with_reg(
            rd,
            sext32_to_64(low32(old(cpu)@.reg(rs1)).wrapping_add(low32(imm_as_u64(imm)))),
        ),
        r == Outcome::Continue,
{
    let sum = low32_exec(cpu.read_register(rs1)).wrapping_add(low32_exec(imm_as_u64_exec(imm)));
    let value = sext32_to_64_exec(sum);
    cpu.write_register(rd, value);
    Outcome::Continue
}

/// Shift the low 32 bits left and sign-extend the result.
pub fn execute_slliw(rd: Register, rs1: Register, shamt: u32, cpu: &mut Cpu) -> (r: Outcome)
    requires
        old(cpu).wf(),
        rd.is_gpr(),
        rs1.is_gpr(),
        shamt < 32,
    ensures
        final(cpu).wf(),
        final(cpu)@ == old(cpu)@.with_reg(rd, sext32_to_64(low32(old(cpu)@.reg(rs1)) << shamt)),
        r == Outcome::Continue,
{
    let value = sext32_to_64_exec(low32_exec(cpu.read_register(rs1)) << shamt);
    cpu.write_register(rd, value);
    Outcome::Continue
}

/// Shift the low 32 bits right logically and sign-extend the result.
pub fn execute_srliw(rd: Register, rs1: Register, shamt: u32, cpu: &mut Cpu) -> (r: Outcome)
    requires
        old(cpu).wf(),
        rd.is_gpr(),
        rs1.is_gpr(),
        shamt < 32,
    ensures
        final(cpu).wf(),
        final(cpu)@ == old(cpu)@.with_reg(rd, sext32_to_64(low32(old(cpu)@.reg(rs1)) >> shamt)),
        r == Outcome::Continue,
{
    let value = sext32_to_64_exec(low32_exec(cpu.read_register(rs1)) >> shamt);
    cpu.write_register(rd, value);
    Outcome::Continue
}

/// Shift the low 32 bits right arithmetically and sign-extend the result.
pub fn execute_sraiw(rd: Register, rs1: Register, shamt: u32, cpu: &mut Cpu) -> (r: Outcome)
    requires
        old(cpu).wf(),
        rd.is_gpr(),
        rs1.is_gpr(),
        shamt < 32,
    ensures
        final(cpu).wf(),
        final(cpu)@ == old(cpu)@.with_reg(
            rd,
            sext32_to_64(sra32(low32(old(cpu)@.reg(rs1)), shamt)),
        ),
        r == Outcome::Continue,
{
    let value = sext32_to_64_exec(sra32_exec(low32_exec(cpu.read_register(rs1)), shamt));
    cpu.write_register(rd, value);
    Outcome::Continue
}

/// Jump to rs1 plus the offset with bit 0 cleared, linking the next
/// sequential word into rd.
pub fn execute_jalr(rd: Register, rs1: Register, imm: i32, cpu: &mut Cpu) -> (r: Outcome)
    requires
        old(cpu).wf(),
        rd.is_gpr(),
        rs1.is_gpr(),
    ensures
        final(cpu).wf(),
        final(cpu)@ == old(cpu)@.with_reg(rd, old(cpu)@.pc.wrapping_add(4)),
        r == Outcome::Jump(
            old(cpu)@.reg(rs1).wrapping_add(imm_as_u64(imm)) & 0xffff_ffff_ffff_fffe,
        ),
{
    let target = cpu.read_register(rs1).wrapping_add(imm_as_u64_exec(imm))
        & 0xffff_ffff_ffff_fffe;
    let link = cpu.pc.wrapping_add(4);
    cpu.write_register(rd, link);
    Outcome::Jump(target)
}

/// Breakpoint: trap to the caller, touching nothing.
pub fn execute_ebreak(cpu: &mut Cpu) -> (r: Outcome)
    requires
        old(cpu).wf(),
    ensures
        final(cpu)@ == old(cpu)@,
        final(cpu).wf(),
        r == Outcome::Trap(TrapKind::Breakpoint),
{
    Outcome::Trap(TrapKind::Breakpoint)
}

/// Environment call: trap to the caller, touching nothing.
pub fn execute_ecall(cpu: &mut Cpu) -> (r: Outcome)
    requires
        old(cpu).wf(),
    ensures
        final(cpu)@ == old(cpu)@,
        final(cpu).wf(),
        r == Outcome::Trap(TrapKind::EnvironmentCall),
{
    Outcome::Trap(TrapKind::EnvironmentCall)
}

} // verus!
