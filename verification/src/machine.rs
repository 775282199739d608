//! The fetch-decode-execute loop: drive the decoder and the execution
//! engine over an architectural state until the run stops, and report why
//! it stopped.

use vstd::prelude::*;

verus! {

use crate::cpu::{Cpu, CpuView, init_view, le32_at};
use crate::execute::{
    Outcome, TrapKind, spec_exec, lemma_exec_preserves_invariants, lemma_exec_outcome,
};
use crate::instruction::{decode, spec_decode};

/// Why a run ended: the program counter ran off the end of the image (a
/// clean end of program), the program counter lost 4-byte alignment, or
/// an instruction trapped. A trapped stop carries the raw word; the
/// offending program counter is the final state's.
#[derive(Debug, PartialEq, Eq, Structural, Clone, Copy)]
pub enum StopReason {
    Halted,
    MisalignedFetch,
    Trapped { word: u32, kind: TrapKind },
}

/// A finished run: the final architectural state, and why it stopped;
/// `None` when the step budget ran out before the machine stopped.
pub struct RunResult {
    pub cpu: Cpu,
    pub stop: Option<StopReason>,
}

/// What stops the machine in a given state: a misaligned program
/// counter, too few bytes left for a word, or a word whose execution
/// traps. `None` means the machine steps on from here.
pub open spec fn stop_of(v: CpuView) -> Option<StopReason>
    recommends
        v.wf(),
{
    if v.pc % 4 != 0 {
        Some(StopReason::MisalignedFetch)
    } else if v.pc + 4 > v.mem.len() {
        Some(StopReason::Halted)
    } else {
        let w = le32_at(v.mem, v.pc as int);
        match spec_exec(spec_decode(w), v).1 {
            Outcome::Continue => None,
            Outcome::Jump(t) => None,
            Outcome::Trap(k) => Some(StopReason::Trapped { word: w, kind: k }),
            Outcome::Halt => Some(StopReason::Halted),
        }
    }
}

/// The machine's one-step transition: fetch the word at the program
/// counter, decode it, execute it, and move the program counter by the
/// outcome. A stopped state is a fixed point.
pub open spec fn step_view(v: CpuView) -> CpuView
    recommends
        v.wf(),
{
    if stop_of(v) is Some {
        v
    } else {
        let w = le32_at(v.mem, v.pc as int);
        let (v2, o) = spec_exec(spec_decode(w), v);
        match o {
            Outcome::Continue => v2.with_pc((v.pc + 4) as u64),
            Outcome::Jump(t) => v2.with_pc(t),
            Outcome::Trap(k) => v2,
            Outcome::Halt => v2,
        }
    }
}

/// The machine after `n` steps from `v`.
pub open spec fn run_steps(v: CpuView, n: nat) -> CpuView
    decreases n,
{
    if n == 0 {
        v
    } else {
        step_view(run_steps(v, (n - 1) as nat))
    }
}

/// Advance the machine by one cycle: fetch the word at the program
/// counter, decode it, execute it, and move the program counter by the
/// outcome. `None` means the machine stepped; `Some` reports why it
/// stopped instead, leaving the state untouched.
pub fn step(cpu: &mut Cpu) -> (r: Option<StopReason>)
    requires
        old(cpu).wf(),
    ensures
        final(cpu).wf(),
        r is Some ==> final(cpu)@ == old(cpu)@ && stop_of(old(cpu)@) == r,
        r is None ==> final(cpu)@ == step_view(old(cpu)@) && stop_of(old(cpu)@) is None,
{
    if cpu.pc % 4 != 0 {
        return Some(StopReason::MisalignedFetch);
    }
    let len = cpu.encoded_instructions.len();
    if (len as u64) < 4 || cpu.pc > (len as u64) - 4 {
        return Some(StopReason::Halted);
    }
    let word = cpu.fetch();
    let instruction = decode(word);
    let ghost pre = cpu@;
    proof {
        lemma_exec_preserves_invariants(instruction, pre);
        lemma_exec_outcome(instruction, pre);
    }
    let outcome = cpu.execute(instruction);
    match outcome {
        Outcome::Continue => {
            cpu.pc = cpu.pc + 4;
            proof {
                assert(cpu@ == step_view(pre));
            }
            None
        },
        Outcome::Jump(target) => {
            cpu.pc = target;
            proof {
                assert(cpu@ == step_view(pre));
            }
            None
        },
        Outcome::Trap(kind) => Some(StopReason::Trapped { word, kind }),
        Outcome::Halt => {
            proof {
                assert(false);
            }
            Some(StopReason::Halted)
        },
    }
}

/// Run a program image from a fresh state (program counter 0, all
/// registers 0) until the machine stops or the step budget runs out, and
/// report the final state and, when it stopped, the reason. The result is
/// exactly the state the step function reaches from the initial state; a
/// `None` stop means the budget ran out first. A caller that wants the
/// unbounded run of the machine drives `step` itself.
pub fn emulate(encoded_instructions: Vec<u8>, max_steps: u64) -> (r: RunResult)
    ensures
        r.cpu.wf(),
        exists|n: nat| r.cpu@ == run_steps(init_view(encoded_instructions@), n),
        r.stop is Some ==> stop_of(r.cpu@) == r.stop,
        r.stop is None ==> r.cpu@ == run_steps(init_view(encoded_instructions@), max_steps as nat),
{
    let ghost init = init_view(encoded_instructions@);
    let mut cpu = Cpu::new(encoded_instructions);
    let mut i: u64 = 0;
    proof {
        assert(cpu@ == run_steps(init, 0));
    }
    while i < max_steps
        invariant
            i <= max_steps,
            cpu.wf(),
            init == init_view(encoded_instructions@),
            cpu@ == run_steps(init, i as nat),
        decreases max_steps - i,
    {
        match step(&mut cpu) {
            Some(stop) => {
                proof {
                    assert(cpu@ == run_steps(init_view(encoded_instructions@), i as nat));
                }
                return RunResult { cpu, stop: Some(stop) };
            },
            None => {
                proof {
                    assert(cpu@ == run_steps(init, (i + 1) as nat));
                }
                i = i + 1;
            },
        }
    }
    RunResult { cpu, stop: None }
}

} // verus!
