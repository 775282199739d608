//! U-format execution: auipc and lui. The upper immediate arrives from
//! the decoder already shifted into bits 31:12 and sign-extends to 64
//! bits at use.

use vstd::prelude::*;

verus! {

use crate::alu::{imm_as_u64, imm_as_u64_exec};
use crate::cpu::Cpu;
use crate::execute::Outcome;
use crate::instruction::Register;

/// Add the upper immediate to the program counter and write the sum.
pub fn execute_auipc(rd: Register, imm: i32, cpu: &mut Cpu) -> (r: Outcome)
    requires
        old(cpu).wf(),
        rd.is_gpr(),
    ensures
        final(cpu).wf(),
        final(cpu)@ == old(cpu)@.with_reg(rd, old(cpu)@.pc.wrapping_add(imm_as_u64(imm))),
        r == Outcome::Continue,
{
    let value = cpu.pc.wrapping_add(imm_as_u64_exec(imm));
    cpu.write_register(rd, value);
    Outcome::Continue
}

/// Write the sign-extended upper immediate.
pub fn execute_lui(rd: Register, imm: i32, cpu: &mut Cpu) -> (r: Outcome)
    requires
        old(cpu).wf(),
        rd.is_gpr(),
    ensures
        final(cpu).wf(),
        final(cpu)@ == old(cpu)@.with_reg(rd, imm_as_u64(imm)),
        r == Outcome::Continue,
{
    let value = imm_as_u64_exec(imm);
    cpu.write_register(rd, value);
    Outcome::Continue
}

} // verus!
