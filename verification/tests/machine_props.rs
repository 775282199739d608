//! End-to-end runs of the fetch-decode-execute loop over little-endian
//! program images.

use rv64_emulator::encode::encode;
use rv64_emulator::execute::TrapKind;
use rv64_emulator::instruction::{Instruction, Register};
use rv64_emulator::machine::{emulate, step, StopReason};
use rv64_emulator::cpu::Cpu;

fn image(words: &[u32]) -> Vec<u8> {
    let mut bytes = Vec::new();
    for w in words {
        bytes.push((w & 0xff) as u8);
        bytes.push(((w >> 8) & 0xff) as u8);
        bytes.push(((w >> 16) & 0xff) as u8);
        bytes.push(((w >> 24) & 0xff) as u8);
    }
    bytes
}

/// A single lui against a zeroed state sets a0 to the shifted upper
/// immediate, advances the program counter by 4, and the run then halts
/// cleanly at the end of the image.
#[test]
fn lui_end_to_end() {
    let result = emulate(image(&[0x00010537]), 16);
    assert_eq!(result.stop, Some(StopReason::Halted));
    assert_eq!(result.cpu.pc, 4);
    assert_eq!(result.cpu.registers[10], 0x10000);
}

/// A single ecall traps with the current program counter and mutates no
/// register and no memory.
#[test]
fn ecall_end_to_end() {
    let result = emulate(image(&[0x00000073]), 16);
    assert_eq!(
        result.stop,
        Some(StopReason::Trapped { word: 0x00000073, kind: TrapKind::EnvironmentCall })
    );
    assert_eq!(result.cpu.pc, 0);
    assert_eq!(result.cpu.registers, vec![0u64; 32]);
    assert_eq!(result.cpu.encoded_instructions, image(&[0x00000073]));
}

/// addi x5, x0, 5 then a beq back that is never taken: the addi runs
/// once, the branch falls through, and the run halts past both words.
#[test]
fn addi_beq_program() {
    let addi = encode(&Instruction::Addi { rd: Register::X5, rs1: Register::X0, imm: 5 });
    let beq = encode(&Instruction::Beq { rs1: Register::X5, rs2: Register::X0, imm: -4 });
    let result = emulate(image(&[addi, beq]), 16);
    assert_eq!(result.stop, Some(StopReason::Halted));
    assert_eq!(result.cpu.pc, 8);
    assert_eq!(result.cpu.registers[5], 5);
}

/// A taken backward branch loops; the step budget cuts the run off with
/// no stop reason.
#[test]
fn infinite_loop_exhausts_budget() {
    // beq x0, x0, 0 branches to itself forever.
    let beq = encode(&Instruction::Beq { rs1: Register::X0, rs2: Register::X0, imm: 0 });
    let result = emulate(image(&[beq]), 100);
    assert_eq!(result.stop, None);
    assert_eq!(result.cpu.pc, 0);
}

/// A jump to an address not divisible by 4 stops the run before its
/// bytes are treated as an instruction.
#[test]
fn misaligned_fetch_stops() {
    // jalr x0, x0, 2 targets address 2 (bit 0 of 3 would be cleared).
    let jalr = encode(&Instruction::Jalr { rd: Register::X0, rs1: Register::X0, imm: 3 });
    let result = emulate(image(&[jalr, 0]), 16);
    assert_eq!(result.stop, Some(StopReason::MisalignedFetch));
    assert_eq!(result.cpu.pc, 2);
}

/// Executing a word that matches no encoding traps as an illegal
/// instruction and reports the raw word.
#[test]
fn illegal_instruction_end_to_end() {
    let result = emulate(image(&[0xffff_ffff]), 16);
    assert_eq!(
        result.stop,
        Some(StopReason::Trapped { word: 0xffff_ffff, kind: TrapKind::IllegalInstruction })
    );
    assert_eq!(result.cpu.pc, 0);
}

/// A load that runs off the image traps as a memory fault and reports
/// the offending word; the state keeps the program counter of the fault.
#[test]
fn memory_fault_end_to_end() {
    // ld x1, 0x100(x0) in an image of two words.
    let ld = encode(&Instruction::Ld { rd: Register::X1, rs1: Register::X0, imm: 0x100 });
    let result = emulate(image(&[ld, 0]), 16);
    assert_eq!(
        result.stop,
        Some(StopReason::Trapped { word: ld, kind: TrapKind::MemoryFault })
    );
    assert_eq!(result.cpu.pc, 0);
    assert_eq!(result.cpu.registers[1], 0);
}

/// A partial trailing word halts the run cleanly instead of being
/// fetched.
#[test]
fn partial_word_halts() {
    let addi = encode(&Instruction::Addi { rd: Register::X1, rs1: Register::X0, imm: 1 });
    let mut bytes = image(&[addi]);
    bytes.push(0x13);
    bytes.push(0x00);
    let result = emulate(bytes, 16);
    assert_eq!(result.stop, Some(StopReason::Halted));
    assert_eq!(result.cpu.pc, 4);
    assert_eq!(result.cpu.registers[1], 1);
}

/// Driving the machine one step at a time agrees with the loop: the
/// store lands in memory, the jump redirects, and the stopped state is a
/// fixed point for `step`.
#[test]
fn stepping_matches_loop() {
    // addi x1, x0, 0x7f; sb x1, 12(x0); jal x0, -8
    let addi = encode(&Instruction::Addi { rd: Register::X1, rs1: Register::X0, imm: 0x7f });
    let sb = encode(&Instruction::Sb { rs2: Register::X1, rs1: Register::X0, imm: 12 });
    let jal = encode(&Instruction::Jal { rd: Register::X0, imm: -8 });
    let mut cpu = Cpu::new(image(&[addi, sb, jal, 0]));
    assert_eq!(step(&mut cpu), None);
    assert_eq!(cpu.pc, 4);
    assert_eq!(cpu.registers[1], 0x7f);
    assert_eq!(step(&mut cpu), None);
    assert_eq!(cpu.pc, 8);
    assert_eq!(cpu.encoded_instructions[12], 0x7f);
    assert_eq!(step(&mut cpu), None);
    assert_eq!(cpu.pc, 0);
    // The loop over the same image runs until the budget is gone.
    let looped = emulate(image(&[addi, sb, jal, 0]), 50);
    assert_eq!(looped.stop, None);
    // A state that traps is left untouched by step.
    let mut trapped = Cpu::new(image(&[0x00000073]));
    assert_eq!(
        step(&mut trapped),
        Some(StopReason::Trapped { word: 0x73, kind: TrapKind::EnvironmentCall })
    );
    assert_eq!(trapped.pc, 0);
    assert_eq!(step(&mut trapped), Some(StopReason::Trapped { word: 0x73, kind: TrapKind::EnvironmentCall }));
}
