//! Execution engine: per-instruction RV64I semantics over the
//! architectural state, a single spec-level transition function, and the
//! dispatcher that performs exactly one instruction's effect.

pub mod b;
pub mod i;
pub mod j;
pub mod r;
pub mod s;
pub mod u;

use vstd::prelude::*;

verus! {

use crate::alu::{
    low32, sext8_to_64, sext16_to_64, sext32_to_64, imm_as_u64, as_signed64, sra64, sra32,
};
use crate::cpu::{
    Cpu, CpuView, le16_at, le32_at, le64_at, store8_at, store16_at, store32_at, store64_at, ea_of,
    mem_ok,
};
use crate::instruction::Instruction;

/// The cause of a trap: executing an unrecognized word, a load or store
/// outside the memory image, or the two environment instructions, whose
/// interpretation belongs to the caller.
#[derive(Debug, PartialEq, Eq, Structural, Clone, Copy)]
pub enum TrapKind {
    IllegalInstruction,
    MemoryFault,
    EnvironmentCall,
    Breakpoint,
}

/// What one executed instruction asks of the surrounding loop: fall
/// through to the next sequential word, redirect the program counter,
/// hand a trap to the caller, or stop the run.
#[derive(Debug, PartialEq, Eq, Structural, Clone, Copy)]
pub enum Outcome {
    Continue,
    Jump(u64),
    Trap(TrapKind),
    Halt,
}

/// A control-transfer target: the program counter plus the sign-extended
/// byte offset, wrapping over the 64-bit address space.
pub open spec fn jump_target(pc: u64, imm: i32) -> u64 {
    pc.wrapping_add(imm_as_u64(imm))
}

/// The one-instruction transition of the execution engine: the state
/// after the instruction's architectural effect, and the outcome handed
/// to the loop. Traps leave the state unchanged; the program counter is
/// never written here, the loop moves it by the outcome.
pub open spec fn spec_exec(instruction: Instruction, v: CpuView) -> (CpuView, Outcome)
    recommends
        v.wf(),
        instruction.wf(),
{
    match instruction {
        Instruction::Undefined => (v, Outcome::Trap(TrapKind::IllegalInstruction)),
        // Branches: compare, then either redirect or fall through.
        Instruction::Beq { rs1, rs2, imm } => (
            v,
            if v.reg(rs1) == v.reg(rs2) {
                Outcome::Jump(jump_target(v.pc, imm))
            } else {
                Outcome::Continue
            },
        ),
        Instruction::Bne { rs1, rs2, imm } => (
            v,
            if v.reg(rs1) != v.reg(rs2) {
                Outcome::Jump(jump_target(v.pc, imm))
            } else {
                Outcome::Continue
            },
        ),
        Instruction::Blt { rs1, rs2, imm } => (
            v,
            if as_signed64(v.reg(rs1)) < as_signed64(v.reg(rs2)) {
                Outcome::Jump(jump_target(v.pc, imm))
            } else {
                Outcome::Continue
            },
        ),
        Instruction::Bge { rs1, rs2, imm } => (
            v,
            if as_signed64(v.reg(rs1)) >= as_signed64(v.reg(rs2)) {
                Outcome::Jump(jump_target(v.pc, imm))
            } else {
                Outcome::Continue
            },
        ),
        Instruction::Bltu { rs1, rs2, imm } => (
            v,
            if v.reg(rs1) < v.reg(rs2) {
                Outcome::Jump(jump_target(v.pc, imm))
            } else {
                Outcome::Continue
            },
        ),
        Instruction::Bgeu { rs1, rs2, imm } => (
            v,
            if v.reg(rs1) >= v.reg(rs2) {
                Outcome::Jump(jump_target(v.pc, imm))
            } else {
                Outcome::Continue
            },
        ),
        // Loads: sign- or zero-extend per variant; an access outside the
        // image is a memory fault and changes nothing.
        Instruction::Lb { rd, rs1, imm } => if mem_ok(v, rs1, imm, 1) {
            (v.with_reg(rd, sext8_to_64(v.mem[ea_of(v, rs1, imm)])), Outcome::Continue)
        } else {
            (v, Outcome::Trap(TrapKind::MemoryFault))
        },
        Instruction::Lh { rd, rs1, imm } => if mem_ok(v, rs1, imm, 2) {
            (v.with_reg(rd, sext16_to_64(le16_at(v.mem, ea_of(v, rs1, imm)))), Outcome::Continue)
        } else {
            (v, Outcome::Trap(TrapKind::MemoryFault))
        },
        Instruction::Lw { rd, rs1, imm } => if mem_ok(v, rs1, imm, 4) {
            (v.with_reg(rd, sext32_to_64(le32_at(v.mem, ea_of(v, rs1, imm)))), Outcome::Continue)
        } else {
            (v, Outcome::Trap(TrapKind::MemoryFault))
        },
        Instruction::Lbu { rd, rs1, imm } => if mem_ok(v, rs1, imm, 1) {
            (v.with_reg(rd, v.mem[ea_of(v, rs1, imm)] as u64), Outcome::Continue)
        } else {
            (v, Outcome::Trap(TrapKind::MemoryFault))
        },
        Instruction::Lhu { rd, rs1, imm } => if mem_ok(v, rs1, imm, 2) {
            (v.with_reg(rd, le16_at(v.mem, ea_of(v, rs1, imm)) as u64), Outcome::Continue)
        } else {
            (v, Outcome::Trap(TrapKind::MemoryFault))
        },
        Instruction::Lwu { rd, rs1, imm } => if mem_ok(v, rs1, imm, 4) {
            (v.with_reg(rd, le32_at(v.mem, ea_of(v, rs1, imm)) as u64), Outcome::Continue)
        } else {
            (v, Outcome::Trap(TrapKind::MemoryFault))
        },
        Instruction::Ld { rd, rs1, imm } => if mem_ok(v, rs1, imm, 8) {
            (v.with_reg(rd, le64_at(v.mem, ea_of(v, rs1, imm))), Outcome::Continue)
        } else {
            (v, Outcome::Trap(TrapKind::MemoryFault))
        },
        // Fence orders nothing in a single-threaded model.
        Instruction::Fence { rd, rs1, succ, pred, fm } => (v, Outcome::Continue),
        // Immediate ALU operations.
        Instruction::Addi { rd, rs1, imm } => (
            v.with_reg(rd, v.reg(rs1).wrapping_add(imm_as_u64(imm))),
            Outcome::Continue,
        ),
        Instruction::Slti { rd, rs1, imm } => (
            v.with_reg(
                rd,
                if as_signed64(v.reg(rs1)) < imm {
                    1u64
                } else {
                    0u64
                },
            ),
            Outcome::Continue,
        ),
        Instruction::Sltiu { rd, rs1, imm } => (
            v.with_reg(
                rd,
                if v.reg(rs1) < imm_as_u64(imm) {
                    1u64
                } else {
                    0u64
                },
            ),
            Outcome::Continue,
        ),
        Instruction::Xori { rd, rs1, imm } => (
            v.with_reg(rd, v.reg(rs1) ^ imm_as_u64(imm)),
            Outcome::Continue,
        ),
        Instruction::Ori { rd, rs1, imm } => (
            v.with_reg(rd, v.reg(rs1) | imm_as_u64(imm)),
            Outcome::Continue,
        ),
        Instruction::Andi { rd, rs1, imm } => (
            v.with_reg(rd, v.reg(rs1) & imm_as_u64(imm)),
            Outcome::Continue,
        ),
        Instruction::Slli { rd, rs1, shamt } => (
            v.with_reg(rd, v.reg(rs1) << (shamt as u64)),
            Outcome::Continue,
        ),
        Instruction::Srli { rd, rs1, shamt } => (
            v.with_reg(rd, v.reg(rs1) >> (shamt as u64)),
            Outcome::Continue,
        ),
        Instruction::Srai { rd, rs1, shamt } => (
            v.with_reg(rd, sra64(v.reg(rs1), shamt as u64)),
            Outcome::Continue,
        ),
        // 32-bit immediate ALU operations: operate on the low 32 bits and
        // sign-extend the 32-bit result.
        Instruction::Addiw { rd, rs1, imm } => (
            v.with_reg(rd, sext32_to_64(low32(v.reg(rs1)).wrapping_add(low32(imm_as_u64(imm))))),
            Outcome::Continue,
        ),
        Instruction::Slliw { rd, rs1, shamt } => (
            v.with_reg(rd, sext32_to_64(low32(v.reg(rs1)) << shamt)),
            Outcome::Continue,
        ),
        Instruction::Srliw { rd, rs1, shamt } => (
            v.with_reg(rd, sext32_to_64(low32(v.reg(rs1)) >> shamt)),
            Outcome::Continue,
        ),
        Instruction::Sraiw { rd, rs1, shamt } => (
            v.with_reg(rd, sext32_to_64(sra32(low32(v.reg(rs1)), shamt))),
            Outcome::Continue,
        ),
        // jalr: link to the next sequential word, jump to rs1 plus offset
        // with bit 0 cleared.
        Instruction::Jalr { rd, rs1, imm } => (
            v.with_reg(rd, v.pc.wrapping_add(4)),
            Outcome::Jump(v.reg(rs1).wrapping_add(imm_as_u64(imm)) & 0xffff_ffff_ffff_fffe),
        ),
        // The environment pair traps; interpreting the trap is the
        // caller's business.
        Instruction::Ebreak => (v, Outcome::Trap(TrapKind::Breakpoint)),
        Instruction::Ecall => (v, Outcome::Trap(TrapKind::EnvironmentCall)),
        Instruction::Jal { rd, imm } => (
            v.with_reg(rd, v.pc.wrapping_add(4)),
            Outcome::Jump(jump_target(v.pc, imm)),
        ),
        // Register ALU operations; shift amounts come from the low bits
        // of rs2, masked to the operand width.
        Instruction::Add { rd, rs1, rs2 } => (
            v.with_reg(rd, v.reg(rs1).wrapping_add(v.reg(rs2))),
            Outcome::Continue,
        ),
        Instruction::Sub { rd, rs1, rs2 } => (
            v.with_reg(rd, v.reg(rs1).wrapping_sub(v.reg(rs2))),
            Outcome::Continue,
        ),
        Instruction::Sll { rd, rs1, rs2 } => (
            v.with_reg(rd, v.reg(rs1) << (v.reg(rs2) & 0x3f)),
            Outcome::Continue,
        ),
        Instruction::Slt { rd, rs1, rs2 } => (
            v.with_reg(
                rd,
                if as_signed64(v.reg(rs1)) < as_signed64(v.reg(rs2)) {
                    1u64
                } else {
                    0u64
                },
            ),
            Outcome::Continue,
        ),
        Instruction::Sltu { rd, rs1, rs2 } => (
            v.with_reg(
                rd,
                if v.reg(rs1) < v.reg(rs2) {
                    1u64
                } else {
                    0u64
                },
            ),
            Outcome::Continue,
        ),
        Instruction::Xor { rd, rs1, rs2 } => (
            v.with_reg(rd, v.reg(rs1) ^ v.reg(rs2)),
            Outcome::Continue,
        ),
        Instruction::Srl { rd, rs1, rs2 } => (
            v.with_reg(rd, v.reg(rs1) >> (v.reg(rs2) & 0x3f)),
            Outcome::Continue,
        ),
        Instruction::Sra { rd, rs1, rs2 } => (
            v.with_reg(rd, sra64(v.reg(rs1), v.reg(rs2) & 0x3f)),
            Outcome::Continue,
        ),
        Instruction::Or { rd, rs1, rs2 } => (
            v.with_reg(rd, v.reg(rs1) | v.reg(rs2)),
            Outcome::Continue,
        ),
        Instruction::And { rd, rs1, rs2 } => (
            v.with_reg(rd, v.reg(rs1) & v.reg(rs2)),
            Outcome::Continue,
        ),
        // 32-bit register ALU operations.
        Instruction::Addw { rd, rs1, rs2 } => (
            v.with_reg(rd, sext32_to_64(low32(v.reg(rs1)).wrapping_add(low32(v.reg(rs2))))),
            Outcome::Continue,
        ),
        Instruction::Subw { rd, rs1, rs2 } => (
            v.with_reg(rd, sext32_to_64(low32(v.reg(rs1)).wrapping_sub(low32(v.reg(rs2))))),
            Outcome::Continue,
        ),
        Instruction::Sllw { rd, rs1, rs2 } => (
            v.with_reg(rd, sext32_to_64(low32(v.reg(rs1)) << ((v.reg(rs2) & 0x1f) as u32))),
            Outcome::Continue,
        ),
        Instruction::Srlw { rd, rs1, rs2 } => (
            v.with_reg(rd, sext32_to_64(low32(v.reg(rs1)) >> ((v.reg(rs2) & 0x1f) as u32))),
            Outcome::Continue,
        ),
        Instruction::Sraw { rd, rs1, rs2 } => (
            v.with_reg(rd, sext32_to_64(sra32(low32(v.reg(rs1)), (v.reg(rs2) & 0x1f) as u32))),
            Outcome::Continue,
        ),
        // Stores: truncate the source register to the access width; an
        // access outside the image is a memory fault and changes nothing.
        Instruction::Sb { rs2, rs1, imm } => if mem_ok(v, rs1, imm, 1) {
            (v.with_mem(store8_at(v.mem, ea_of(v, rs1, imm), v.reg(rs2))), Outcome::Continue)
        } else {
            (v, Outcome::Trap(TrapKind::MemoryFault))
        },
        Instruction::Sh { rs2, rs1, imm } => if mem_ok(v, rs1, imm, 2) {
            (v.with_mem(store16_at(v.mem, ea_of(v, rs1, imm), v.reg(rs2))), Outcome::Continue)
        } else {
            (v, Outcome::Trap(TrapKind::MemoryFault))
        },
        Instruction::Sw { rs2, rs1, imm } => if mem_ok(v, rs1, imm, 4) {
            (v.with_mem(store32_at(v.mem, ea_of(v, rs1, imm), v.reg(rs2))), Outcome::Continue)
        } else {
            (v, Outcome::Trap(TrapKind::MemoryFault))
        },
        Instruction::Sd { rs2, rs1, imm } => if mem_ok(v, rs1, imm, 8) {
            (v.with_mem(store64_at(v.mem, ea_of(v, rs1, imm), v.reg(rs2))), Outcome::Continue)
        } else {
            (v, Outcome::Trap(TrapKind::MemoryFault))
        },
        // Upper-immediate operations.
        Instruction::Auipc { rd, imm } => (
            v.with_reg(rd, v.pc.wrapping_add(imm_as_u64(imm))),
            Outcome::Continue,
        ),
        Instruction::Lui { rd, imm } => (v.with_reg(rd, imm_as_u64(imm)), Outcome::Continue),
    }
}

/// The x0 invariant and frame of one instruction: execution keeps the
/// state well-formed, so reading register 0 still yields 0 afterwards,
/// whatever the instruction and wherever it writes; and it never moves
/// the program counter or resizes the memory image.
pub proof fn lemma_exec_preserves_invariants(instruction: Instruction, v: CpuView)
    requires
        v.wf(),
        instruction.wf(),
    ensures
        spec_exec(instruction, v).0.wf(),
        spec_exec(instruction, v).0.regs[0] == 0,
        spec_exec(instruction, v).0.pc == v.pc,
        spec_exec(instruction, v).0.mem.len() == v.mem.len(),
{
}

/// A trap changes nothing: whenever execution reports a trap, the state
/// it returns is the state it was given. And no instruction asks the
/// loop to halt; only running off the end of the image does that.
pub proof fn lemma_exec_outcome(instruction: Instruction, v: CpuView)
    requires
        v.wf(),
        instruction.wf(),
    ensures
        spec_exec(instruction, v).1 is Trap ==> spec_exec(instruction, v).0 == v,
        !(spec_exec(instruction, v).1 is Halt),
{
}

/// One family of the dispatcher: the conditional branches.
#[verifier::rlimit(60)]
#[verifier::spinoff_prover]
fn dispatch_branch(instruction: Instruction, cpu: &mut Cpu) -> (r: Outcome)
    requires
        old(cpu).wf(),
        instruction.wf(),
        (instruction matches Instruction::Beq { .. }) || (instruction
            matches Instruction::Bne { .. }) || (instruction matches Instruction::Blt { .. }) || (
        instruction matches Instruction::Bge { .. }) || (instruction
            matches Instruction::Bltu { .. }) || (instruction matches Instruction::Bgeu { .. }),
    ensures
        final(cpu).wf(),
        (final(cpu)@, r) == spec_exec(instruction, old(cpu)@),
{
    match instruction {
        Instruction::Beq { rs1, rs2, imm } => b::execute_beq(rs1, rs2, imm, cpu),
        Instruction::Bne { rs1, rs2, imm } => b::execute_bne(rs1, rs2, imm, cpu),
        Instruction::Blt { rs1, rs2, imm } => b::execute_blt(rs1, rs2, imm, cpu),
        Instruction::Bge { rs1, rs2, imm } => b::execute_bge(rs1, rs2, imm, cpu),
        Instruction::Bltu { rs1, rs2, imm } => b::execute_bltu(rs1, rs2, imm, cpu),
        Instruction::Bgeu { rs1, rs2, imm } => b::execute_bgeu(rs1, rs2, imm, cpu),
        _ => {
            proof {
                assert(false);
            }
            Outcome::Halt
        },
    }
}

/// One family of the dispatcher: the loads.
#[verifier::rlimit(60)]
#[verifier::spinoff_prover]
fn dispatch_load(instruction: Instruction, cpu: &mut Cpu) -> (r: Outcome)
    requires
        old(cpu).wf(),
        instruction.wf(),
        (instruction matches Instruction::Lb { .. }) || (instruction
            matches Instruction::Lh { .. }) || (instruction matches Instruction::Lw { .. }) || (
        instruction matches Instruction::Lbu { .. }) || (instruction
            matches Instruction::Lhu { .. }) || (instruction matches Instruction::Lwu { .. }) || (
        instruction matches Instruction::Ld { .. }),
    ensures
        final(cpu).wf(),
        (final(cpu)@, r) == spec_exec(instruction, old(cpu)@),
{
    match instruction {
        Instruction::Lb { rd, rs1, imm } => i::execute_lb(rd, rs1, imm, cpu),
        Instruction::Lh { rd, rs1, imm } => i::execute_lh(rd, rs1, imm, cpu),
        Instruction::Lw { rd, rs1, imm } => i::execute_lw(rd, rs1, imm, cpu),
        Instruction::Lbu { rd, rs1, imm } => i::execute_lbu(rd, rs1, imm, cpu),
        Instruction::Lhu { rd, rs1, imm } => i::execute_lhu(rd, rs1, imm, cpu),
        Instruction::Lwu { rd, rs1, imm } => i::execute_lwu(rd, rs1, imm, cpu),
        Instruction::Ld { rd, rs1, imm } => i::execute_ld(rd, rs1, imm, cpu),
        _ => {
            proof {
                assert(false);
            }
            Outcome::Halt
        },
    }
}

/// One family of the dispatcher: the immediate ALU operations and their
/// 32-bit variants.
#[verifier::rlimit(80)]
#[verifier::spinoff_prover]
fn dispatch_alu_imm(instruction: Instruction, cpu: &mut Cpu) -> (r: Outcome)
    requires
        old(cpu).wf(),
        instruction.wf(),
        (instruction matches Instruction::Addi { .. }) || (instruction
            matches Instruction::Slti { .. }) || (instruction matches Instruction::Sltiu { .. })
            || (instruction matches Instruction::Xori { .. }) || (instruction
            matches Instruction::Ori { .. }) || (instruction matches Instruction::Andi { .. })
            || (instruction matches Instruction::Slli { .. }) || (instruction
            matches Instruction::Srli { .. }) || (instruction matches Instruction::Srai { .. })
            || (instruction matches Instruction::Addiw { .. }) || (instruction
            matches Instruction::Slliw { .. }) || (instruction matches Instruction::Srliw { .. })
            || (instruction matches Instruction::Sraiw { .. }),
    ensures
        final(cpu).wf(),
        (final(cpu)@, r) == spec_exec(instruction, old(cpu)@),
{
    match instruction {
        Instruction::Addi { rd, rs1, imm } => i::execute_addi(rd, rs1, imm, cpu),
        Instruction::Slti { rd, rs1, imm } => i::execute_slti(rd, rs1, imm, cpu),
        Instruction::Sltiu { rd, rs1, imm } => i::execute_sltiu(rd, rs1, imm, cpu),
        Instruction::Xori { rd, rs1, imm } => i::execute_xori(rd, rs1, imm, cpu),
        Instruction::Ori { rd, rs1, imm } => i::execute_ori(rd, rs1, imm, cpu),
        Instruction::Andi { rd, rs1, imm } => i::execute_andi(rd, rs1, imm, cpu),
        Instruction::Slli { rd, rs1, shamt } => i::execute_slli(rd, rs1, shamt, cpu),
        Instruction::Srli { rd, rs1, shamt } => i::execute_srli(rd, rs1, shamt, cpu),
        Instruction::Srai { rd, rs1, shamt } => i::execute_srai(rd, rs1, shamt, cpu),
        Instruction::Addiw { rd, rs1, imm } => i::execute_addiw(rd, rs1, imm, cpu),
        Instruction::Slliw { rd, rs1, shamt } => i::execute_slliw(rd, rs1, shamt, cpu),
        Instruction::Srliw { rd, rs1, shamt } => i::execute_srliw(rd, rs1, shamt, cpu),
        Instruction::Sraiw { rd, rs1, shamt } => i::execute_sraiw(rd, rs1, shamt, cpu),
        _ => {
            proof {
                assert(false);
            }
            Outcome::Halt
        },
    }
}

/// One family of the dispatcher: the register ALU operations and their
/// 32-bit variants.
#[verifier::rlimit(80)]
#[verifier::spinoff_prover]
fn dispatch_alu_reg(instruction: Instruction, cpu: &mut Cpu) -> (r: Outcome)
    requires
        old(cpu).wf(),
        instruction.wf(),
        (instruction matches Instruction::Add { .. }) || (instruction
            matches Instruction::Sub { .. }) || (instruction matches Instruction::Sll { .. }) || (
        instruction matches Instruction::Slt { .. }) || (instruction
            matches Instruction::Sltu { .. }) || (instruction matches Instruction::Xor { .. })
            || (instruction matches Instruction::Srl { .. }) || (instruction
            matches Instruction::Sra { .. }) || (instruction matches Instruction::Or { .. }) || (
        instruction matches Instruction::And { .. }) || (instruction
            matches Instruction::Addw { .. }) || (instruction matches Instruction::Subw { .. })
            || (instruction matches Instruction::Sllw { .. }) || (instruction
            matches Instruction::Srlw { .. }) || (instruction matches Instruction::Sraw { .. }),
    ensures
        final(cpu).wf(),
        (final(cpu)@, r) == spec_exec(instruction, old(cpu)@),
{
    match instruction {
        Instruction::Add { rd, rs1, rs2 } => r::execute_add(rd, rs1, rs2, cpu),
        Instruction::Sub { rd, rs1, rs2 } => r::execute_sub(rd, rs1, rs2, cpu),
        Instruction::Sll { rd, rs1, rs2 } => r::execute_sll(rd, rs1, rs2, cpu),
        Instruction::Slt { rd, rs1, rs2 } => r::execute_slt(rd, rs1, rs2, cpu),
        Instruction::Sltu { rd, rs1, rs2 } => r::execute_sltu(rd, rs1, rs2, cpu),
        Instruction::Xor { rd, rs1, rs2 } => r::execute_xor(rd, rs1, rs2, cpu),
        Instruction::Srl { rd, rs1, rs2 } => r::execute_srl(rd, rs1, rs2, cpu),
        Instruction::Sra { rd, rs1, rs2 } => r::execute_sra(rd, rs1, rs2, cpu),
        Instruction::Or { rd, rs1, rs2 } => r::execute_or(rd, rs1, rs2, cpu),
        Instruction::And { rd, rs1, rs2 } => r::execute_and(rd, rs1, rs2, cpu),
        Instruction::Addw { rd, rs1, rs2 } => r::execute_addw(rd, rs1, rs2, cpu),
        Instruction::Subw { rd, rs1, rs2 } => r::execute_subw(rd, rs1, rs2, cpu),
        Instruction::Sllw { rd, rs1, rs2 } => r::execute_sllw(rd, rs1, rs2, cpu),
        Instruction::Srlw { rd, rs1, rs2 } => r::execute_srlw(rd, rs1, rs2, cpu),
        Instruction::Sraw { rd, rs1, rs2 } => r::execute_sraw(rd, rs1, rs2, cpu),
        _ => {
            proof {
                assert(false);
            }
            Outcome::Halt
        },
    }
}

/// One family of the dispatcher: the stores.
#[verifier::rlimit(60)]
#[verifier::spinoff_prover]
fn dispatch_store(instruction: Instruction, cpu: &mut Cpu) -> (r: Outcome)
    requires
        old(cpu).wf(),
        instruction.wf(),
        (instruction matches Instruction::Sb { .. }) || (instruction
            matches Instruction::Sh { .. }) || (instruction matches Instruction::Sw { .. }) || (
        instruction matches Instruction::Sd { .. }),
    ensures
        final(cpu).wf(),
        (final(cpu)@, r) == spec_exec(instruction, old(cpu)@),
{
    match instruction {
        Instruction::Sb { rs2, rs1, imm } => s::execute_sb(rs2, rs1, imm, cpu),
        Instruction::Sh { rs2, rs1, imm } => s::execute_sh(rs2, rs1, imm, cpu),
        Instruction::Sw { rs2, rs1, imm } => s::execute_sw(rs2, rs1, imm, cpu),
        Instruction::Sd { rs2, rs1, imm } => s::execute_sd(rs2, rs1, imm, cpu),
        _ => {
            proof {
                assert(false);
            }
            Outcome::Halt
        },
    }
}

/// One family of the dispatcher: fence, the jumps, the upper-immediate
/// operations, the environment pair, and the undefined word.
#[verifier::rlimit(60)]
#[verifier::spinoff_prover]
fn dispatch_misc(instruction: Instruction, cpu: &mut Cpu) -> (r: Outcome)
    requires
        old(cpu).wf(),
        instruction.wf(),
        (instruction matches Instruction::Fence { .. }) || (instruction
            matches Instruction::Jalr { .. }) || (instruction matches Instruction::Jal { .. })
            || (instruction matches Instruction::Auipc { .. }) || (instruction
            matches Instruction::Lui { .. }) || (instruction matches Instruction::Ecall) || (
        instruction matches Instruction::Ebreak) || (instruction
            matches Instruction::Undefined),
    ensures
        final(cpu).wf(),
        (final(cpu)@, r) == spec_exec(instruction, old(cpu)@),
{
    match instruction {
        Instruction::Fence { rd, rs1, succ, pred, fm } => i::execute_fence(
            rd,
            rs1,
            succ,
            pred,
            fm,
            cpu,
        ),
        Instruction::Jalr { rd, rs1, imm } => i::execute_jalr(rd, rs1, imm, cpu),
        Instruction::Jal { rd, imm } => j::execute_jal(rd, imm, cpu),
        Instruction::Auipc { rd, imm } => u::execute_auipc(rd, imm, cpu),
        Instruction::Lui { rd, imm } => u::execute_lui(rd, imm, cpu),
        Instruction::Ecall => i::execute_ecall(cpu),
        Instruction::Ebreak => i::execute_ebreak(cpu),
        Instruction::Undefined => Outcome::Trap(TrapKind::IllegalInstruction),
        _ => {
            proof {
                assert(false);
            }
            Outcome::Halt
        },
    }
}

/// Perform exactly one instruction's architectural effect against the
/// state and report the outcome: the dispatcher of the execution engine.
/// The result and the state change are exactly what `spec_exec` gives.
pub fn execute_instruction(instruction: Instruction, cpu: &mut Cpu) -> (r: Outcome)
    requires
        old(cpu).wf(),
        instruction.wf(),
    ensures
        final(cpu).wf(),
        (final(cpu)@, r) == spec_exec(instruction, old(cpu)@),
{
    match instruction {
        Instruction::Beq { .. } | Instruction::Bne { .. } | Instruction::Blt { .. }
        | Instruction::Bge { .. } | Instruction::Bltu { .. } | Instruction::Bgeu { .. } => {
            dispatch_branch(instruction, cpu)
        },
        Instruction::Lb { .. } | Instruction::Lh { .. } | Instruction::Lw { .. }
        | Instruction::Lbu { .. } | Instruction::Lhu { .. } | Instruction::Lwu { .. }
        | Instruction::Ld { .. } => dispatch_load(instruction, cpu),
        Instruction::Addi { .. } | Instruction::Slti { .. } | Instruction::Sltiu { .. }
        | Instruction::Xori { .. } | Instruction::Ori { .. } | Instruction::Andi { .. }
        | Instruction::Slli { .. } | Instruction::Srli { .. } | Instruction::Srai { .. }
        | Instruction::Addiw { .. } | Instruction::Slliw { .. } | Instruction::Srliw { .. }
        | Instruction::Sraiw { .. } => dispatch_alu_imm(instruction, cpu),
        Instruction::Add { .. } | Instruction::Sub { .. } | Instruction::Sll { .. }
        | Instruction::Slt { .. } | Instruction::Sltu { .. } | Instruction::Xor { .. }
        | Instruction::Srl { .. } | Instruction::Sra { .. } | Instruction::Or { .. }
        | Instruction::And { .. } | Instruction::Addw { .. } | Instruction::Subw { .. }
        | Instruction::Sllw { .. } | Instruction::Srlw { .. } | Instruction::Sraw { .. } => {
            dispatch_alu_reg(instruction, cpu)
        },
        Instruction::Sb { .. } | Instruction::Sh { .. } | Instruction::Sw { .. }
        | Instruction::Sd { .. } => dispatch_store(instruction, cpu),
        Instruction::Fence { .. } | Instruction::Jalr { .. } | Instruction::Jal { .. }
        | Instruction::Auipc { .. } | Instruction::Lui { .. } | Instruction::Ecall
        | Instruction::Ebreak | Instruction::Undefined => dispatch_misc(instruction, cpu),
    }
}

impl Cpu {
    /// Perform one decoded instruction against this state; the execution
    /// engine's boundary.
    pub fn execute(&mut self, instruction: Instruction) -> (r: Outcome)
        requires
            old(self).wf(),
            instruction.wf(),
        ensures
            final(self).wf(),
            (final(self)@, r) == spec_exec(instruction, old(self)@),
    {
        execute_instruction(instruction, self)
    }
}

} // verus!
