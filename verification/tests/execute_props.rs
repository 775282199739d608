//! Execution-engine tests: per-instruction semantics against concrete
//! architectural states.

use rv64_emulator::cpu::Cpu;
use rv64_emulator::execute::{execute_instruction, Outcome, TrapKind};
use rv64_emulator::instruction::{Instruction, Register};

fn zeroed_cpu(mem: Vec<u8>) -> Cpu {
    Cpu::new(mem)
}

/// Writes targeting x0 are discarded: register 0 still reads 0 after any
/// instruction that names it as destination.
#[test]
fn x0_writes_are_discarded() {
    let mut cpu = zeroed_cpu(vec![0; 16]);
    cpu.registers[1] = 7;
    let outcome = execute_instruction(
        Instruction::Addi { rd: Register::X0, rs1: Register::X1, imm: 35 },
        &mut cpu,
    );
    assert_eq!(outcome, Outcome::Continue);
    assert_eq!(cpu.registers[0], 0);
    assert_eq!(cpu.read_register(Register::X0), 0);

    let outcome = execute_instruction(Instruction::Jal { rd: Register::X0, imm: 8 }, &mut cpu);
    assert_eq!(outcome, Outcome::Jump(8));
    assert_eq!(cpu.registers[0], 0);

    let outcome = execute_instruction(
        Instruction::Lui { rd: Register::X0, imm: 0x1000 },
        &mut cpu,
    );
    assert_eq!(outcome, Outcome::Continue);
    assert_eq!(cpu.registers[0], 0);
}

/// jalr with an odd base address and immediate 0 jumps to the address
/// with bit 0 cleared, and links the next sequential word.
#[test]
fn jalr_clears_low_bit() {
    let mut cpu = zeroed_cpu(vec![0; 16]);
    cpu.pc = 4;
    cpu.registers[1] = 5;
    let outcome = execute_instruction(
        Instruction::Jalr { rd: Register::X2, rs1: Register::X1, imm: 0 },
        &mut cpu,
    );
    assert_eq!(outcome, Outcome::Jump(4));
    assert_eq!(cpu.registers[2], 8);
}

/// Two's-complement addition and subtraction wrap at 64 bits.
#[test]
fn add_sub_wrap() {
    let mut cpu = zeroed_cpu(vec![]);
    cpu.registers[1] = u64::MAX;
    cpu.registers[2] = 1;
    execute_instruction(
        Instruction::Add { rd: Register::X3, rs1: Register::X1, rs2: Register::X2 },
        &mut cpu,
    );
    assert_eq!(cpu.registers[3], 0);
    execute_instruction(
        Instruction::Sub { rd: Register::X4, rs1: Register::X3, rs2: Register::X2 },
        &mut cpu,
    );
    assert_eq!(cpu.registers[4], u64::MAX);
}

/// Signed and unsigned comparisons disagree exactly on sign-bit values.
#[test]
fn slt_signed_vs_unsigned() {
    let mut cpu = zeroed_cpu(vec![]);
    cpu.registers[1] = u64::MAX;  // -1 signed
    cpu.registers[2] = 1;
    execute_instruction(
        Instruction::Slt { rd: Register::X3, rs1: Register::X1, rs2: Register::X2 },
        &mut cpu,
    );
    execute_instruction(
        Instruction::Sltu { rd: Register::X4, rs1: Register::X1, rs2: Register::X2 },
        &mut cpu,
    );
    assert_eq!(cpu.registers[3], 1);
    assert_eq!(cpu.registers[4], 0);
}

/// Arithmetic right shift preserves the sign, logical does not, and the
/// register shift amount is masked to 6 bits.
#[test]
fn shift_semantics() {
    let mut cpu = zeroed_cpu(vec![]);
    cpu.registers[1] = 0x8000_0000_0000_0000;
    cpu.registers[2] = 68;  // masked to 4
    execute_instruction(
        Instruction::Sra { rd: Register::X3, rs1: Register::X1, rs2: Register::X2 },
        &mut cpu,
    );
    execute_instruction(
        Instruction::Srl { rd: Register::X4, rs1: Register::X1, rs2: Register::X2 },
        &mut cpu,
    );
    assert_eq!(cpu.registers[3], 0xf800_0000_0000_0000);
    assert_eq!(cpu.registers[4], 0x0800_0000_0000_0000);
    execute_instruction(
        Instruction::Srai { rd: Register::X5, rs1: Register::X1, shamt: 63 },
        &mut cpu,
    );
    assert_eq!(cpu.registers[5], u64::MAX);
    execute_instruction(
        Instruction::Slli { rd: Register::X6, rs1: Register::X2, shamt: 60 },
        &mut cpu,
    );
    assert_eq!(cpu.registers[6], 0x4000_0000_0000_0000);
}

/// The w-suffixed operations work on the low 32 bits and sign-extend the
/// 32-bit result to 64 bits.
#[test]
fn word_ops_sign_extend() {
    let mut cpu = zeroed_cpu(vec![]);
    cpu.registers[1] = 0x7fff_ffff;
    cpu.registers[2] = 1;
    execute_instruction(
        Instruction::Addw { rd: Register::X3, rs1: Register::X1, rs2: Register::X2 },
        &mut cpu,
    );
    assert_eq!(cpu.registers[3], 0xffff_ffff_8000_0000);
    execute_instruction(
        Instruction::Addiw { rd: Register::X4, rs1: Register::X1, imm: 1 },
        &mut cpu,
    );
    assert_eq!(cpu.registers[4], 0xffff_ffff_8000_0000);
    execute_instruction(
        Instruction::Subw { rd: Register::X5, rs1: Register::X2, rs2: Register::X1 },
        &mut cpu,
    );
    assert_eq!(cpu.registers[5], 0xffff_ffff_8000_0002);
    execute_instruction(
        Instruction::Sraiw { rd: Register::X6, rs1: Register::X3, shamt: 31 },
        &mut cpu,
    );
    assert_eq!(cpu.registers[6], u64::MAX);
    execute_instruction(
        Instruction::Srliw { rd: Register::X7, rs1: Register::X3, shamt: 31 },
        &mut cpu,
    );
    assert_eq!(cpu.registers[7], 1);
    execute_instruction(
        Instruction::Sllw { rd: Register::X8, rs1: Register::X2, rs2: Register::X1 },
        &mut cpu,
    );
    // shift amount is the low 5 bits of rs2: 0x7fffffff & 0x1f == 31
    assert_eq!(cpu.registers[8], 0xffff_ffff_8000_0000);
}

/// The bitwise operations over registers and immediates.
#[test]
fn bitwise_ops() {
    let mut cpu = zeroed_cpu(vec![]);
    cpu.registers[1] = 0xff00;
    cpu.registers[2] = 0x0ff0;
    execute_instruction(
        Instruction::Xor { rd: Register::X3, rs1: Register::X1, rs2: Register::X2 },
        &mut cpu,
    );
    execute_instruction(
        Instruction::Or { rd: Register::X4, rs1: Register::X1, rs2: Register::X2 },
        &mut cpu,
    );
    execute_instruction(
        Instruction::And { rd: Register::X5, rs1: Register::X1, rs2: Register::X2 },
        &mut cpu,
    );
    assert_eq!(cpu.registers[3], 0xf0f0);
    assert_eq!(cpu.registers[4], 0xfff0);
    assert_eq!(cpu.registers[5], 0x0f00);
    // andi with -1 keeps the value; xori with -1 complements it.
    execute_instruction(
        Instruction::Andi { rd: Register::X6, rs1: Register::X1, imm: -1 },
        &mut cpu,
    );
    execute_instruction(
        Instruction::Xori { rd: Register::X7, rs1: Register::X1, imm: -1 },
        &mut cpu,
    );
    assert_eq!(cpu.registers[6], 0xff00);
    assert_eq!(cpu.registers[7], !0xff00u64);
}

/// Stores truncate to the access width; loads extend per variant.
#[test]
fn store_load_round_trip() {
    let mut cpu = zeroed_cpu(vec![0; 32]);
    cpu.registers[1] = 0x1122_3344_5566_ff80;
    cpu.registers[2] = 8;
    // sb then lb (sign-extends 0x80) and lbu (zero-extends).
    execute_instruction(
        Instruction::Sb { rs2: Register::X1, rs1: Register::X2, imm: 0 },
        &mut cpu,
    );
    execute_instruction(
        Instruction::Lb { rd: Register::X3, rs1: Register::X2, imm: 0 },
        &mut cpu,
    );
    execute_instruction(
        Instruction::Lbu { rd: Register::X4, rs1: Register::X2, imm: 0 },
        &mut cpu,
    );
    assert_eq!(cpu.registers[3], 0xffff_ffff_ffff_ff80);
    assert_eq!(cpu.registers[4], 0x80);
    // sh/lh/lhu.
    execute_instruction(
        Instruction::Sh { rs2: Register::X1, rs1: Register::X2, imm: 2 },
        &mut cpu,
    );
    execute_instruction(
        Instruction::Lh { rd: Register::X5, rs1: Register::X2, imm: 2 },
        &mut cpu,
    );
    execute_instruction(
        Instruction::Lhu { rd: Register::X6, rs1: Register::X2, imm: 2 },
        &mut cpu,
    );
    assert_eq!(cpu.registers[5], 0xffff_ffff_ffff_ff80);
    assert_eq!(cpu.registers[6], 0xff80);
    // sw/lw/lwu.
    execute_instruction(
        Instruction::Sw { rs2: Register::X1, rs1: Register::X2, imm: 4 },
        &mut cpu,
    );
    execute_instruction(
        Instruction::Lw { rd: Register::X7, rs1: Register::X2, imm: 4 },
        &mut cpu,
    );
    execute_instruction(
        Instruction::Lwu { rd: Register::X8, rs1: Register::X2, imm: 4 },
        &mut cpu,
    );
    assert_eq!(cpu.registers[7], 0x5566_ff80);
    assert_eq!(cpu.registers[8], 0x5566_ff80);
    // sd/ld keep all 64 bits, through a negative offset.
    execute_instruction(
        Instruction::Sd { rs2: Register::X1, rs1: Register::X2, imm: 8 },
        &mut cpu,
    );
    execute_instruction(
        Instruction::Ld { rd: Register::X9, rs1: Register::X2, imm: 8 },
        &mut cpu,
    );
    assert_eq!(cpu.registers[9], 0x1122_3344_5566_ff80);
    // little-endian byte order in the image.
    assert_eq!(cpu.encoded_instructions[16], 0x80);
    assert_eq!(cpu.encoded_instructions[17], 0xff);
}

/// An access past the end of the image, or below address 0, is a memory
/// fault that changes nothing.
#[test]
fn memory_fault_on_out_of_range() {
    let mut cpu = zeroed_cpu(vec![0xaa; 8]);
    cpu.registers[1] = 5;
    let outcome = execute_instruction(
        Instruction::Ld { rd: Register::X2, rs1: Register::X1, imm: 1 },
        &mut cpu,
    );
    assert_eq!(outcome, Outcome::Trap(TrapKind::MemoryFault));
    assert_eq!(cpu.registers[2], 0);
    let outcome = execute_instruction(
        Instruction::Sb { rs2: Register::X1, rs1: Register::X1, imm: -6 },
        &mut cpu,
    );
    assert_eq!(outcome, Outcome::Trap(TrapKind::MemoryFault));
    assert_eq!(cpu.encoded_instructions, vec![0xaa; 8]);
    let outcome = execute_instruction(
        Instruction::Sw { rs2: Register::X1, rs1: Register::X1, imm: 0 },
        &mut cpu,
    );
    assert_eq!(outcome, Outcome::Trap(TrapKind::MemoryFault));
    assert_eq!(cpu.encoded_instructions, vec![0xaa; 8]);
}

/// Branches fall through or redirect by the signed offset from the
/// current program counter.
#[test]
fn branch_outcomes() {
    let mut cpu = zeroed_cpu(vec![0; 16]);
    cpu.pc = 8;
    cpu.registers[1] = 3;
    cpu.registers[2] = 3;
    let taken = execute_instruction(
        Instruction::Beq { rs1: Register::X1, rs2: Register::X2, imm: -8 },
        &mut cpu,
    );
    assert_eq!(taken, Outcome::Jump(0));
    let untaken = execute_instruction(
        Instruction::Bne { rs1: Register::X1, rs2: Register::X2, imm: -8 },
        &mut cpu,
    );
    assert_eq!(untaken, Outcome::Continue);
    cpu.registers[3] = u64::MAX;  // -1 signed
    let signed_taken = execute_instruction(
        Instruction::Blt { rs1: Register::X3, rs2: Register::X1, imm: 12 },
        &mut cpu,
    );
    assert_eq!(signed_taken, Outcome::Jump(20));
    let unsigned_untaken = execute_instruction(
        Instruction::Bltu { rs1: Register::X3, rs2: Register::X1, imm: 12 },
        &mut cpu,
    );
    assert_eq!(unsigned_untaken, Outcome::Continue);
    let bge_taken = execute_instruction(
        Instruction::Bge { rs1: Register::X1, rs2: Register::X3, imm: 4 },
        &mut cpu,
    );
    assert_eq!(bge_taken, Outcome::Jump(12));
    let bgeu_taken = execute_instruction(
        Instruction::Bgeu { rs1: Register::X3, rs2: Register::X1, imm: 4 },
        &mut cpu,
    );
    assert_eq!(bgeu_taken, Outcome::Jump(12));
}

/// The environment pair and the undefined word trap without touching the
/// state; fence does nothing at all.
#[test]
fn traps_and_fence() {
    let mut cpu = zeroed_cpu(vec![1, 2, 3, 4]);
    cpu.registers[1] = 9;
    assert_eq!(
        execute_instruction(Instruction::Ecall, &mut cpu),
        Outcome::Trap(TrapKind::EnvironmentCall)
    );
    assert_eq!(
        execute_instruction(Instruction::Ebreak, &mut cpu),
        Outcome::Trap(TrapKind::Breakpoint)
    );
    assert_eq!(
        execute_instruction(Instruction::Undefined, &mut cpu),
        Outcome::Trap(TrapKind::IllegalInstruction)
    );
    assert_eq!(
        execute_instruction(
            Instruction::Fence { rd: Register::X0, rs1: Register::X0, succ: 3, pred: 3, fm: 0 },
            &mut cpu,
        ),
        Outcome::Continue
    );
    assert_eq!(cpu.registers[1], 9);
    assert_eq!(cpu.pc, 0);
    assert_eq!(cpu.encoded_instructions, vec![1, 2, 3, 4]);
}

/// auipc adds the upper immediate to the program counter; lui writes it
/// directly; slti/sltiu compare against the sign-extended immediate.
#[test]
fn upper_and_compare_immediates() {
    let mut cpu = zeroed_cpu(vec![]);
    cpu.pc = 0x100;
    execute_instruction(Instruction::Auipc { rd: Register::X1, imm: 0x1000 }, &mut cpu);
    assert_eq!(cpu.registers[1], 0x1100);
    execute_instruction(Instruction::Auipc { rd: Register::X2, imm: -4096 }, &mut cpu);
    assert_eq!(cpu.registers[2], 0xffff_ffff_ffff_f100);
    execute_instruction(Instruction::Lui { rd: Register::X3, imm: -4096 }, &mut cpu);
    assert_eq!(cpu.registers[3], 0xffff_ffff_ffff_f000);
    execute_instruction(
        Instruction::Slti { rd: Register::X4, rs1: Register::X3, imm: 0 },
        &mut cpu,
    );
    assert_eq!(cpu.registers[4], 1);
    execute_instruction(
        Instruction::Sltiu { rd: Register::X5, rs1: Register::X3, imm: 0 },
        &mut cpu,
    );
    assert_eq!(cpu.registers[5], 0);
}
