//! J-format execution: jal.

use vstd::prelude::*;

verus! {

use crate::alu::imm_as_u64_exec;
use crate::cpu::Cpu;
use crate::execute::{Outcome, jump_target};
use crate::instruction::Register;

/// Jump and link: write the next sequential word into rd (discarded for
/// `x0`) and redirect to the program counter plus the offset.
pub fn execute_jal(rd: Register, imm: i32, cpu: &mut Cpu) -> (r: Outcome)
    requires
        old(cpu).wf(),
        rd.is_gpr(),
    ensures
        final(cpu).wf(),
        final(cpu)@ == old(cpu)@.with_reg(rd, old(cpu)@.pc.wrapping_add(4)),
        r == Outcome::Jump(jump_target(old(cpu)@.pc, imm)),
{
    let target = cpu.pc.wrapping_add(imm_as_u64_exec(imm));
    let link = cpu.pc.wrapping_add(4);
    cpu.write_register(rd, link);
    Outcome::Jump(target)
}

} // verus!
