//! Architectural state: the register file, the program counter, and the
//! flat memory image, with the register and little-endian memory access
//! primitives the execution engine is built on.

use vstd::prelude::*;

verus! {

use crate::instruction::Register;

/// The mathematical view of the architectural state: a 32-slot register
/// file, the program counter, and the byte image.
pub struct CpuView {
    pub regs: Seq<u64>,
    pub pc: u64,
    pub mem: Seq<u8>,
}

impl CpuView {
    /// The state's invariant: exactly 32 register slots, and slot 0, the
    /// hardwired zero register, holds 0.
    pub open spec fn wf(self) -> bool {
        &&& self.regs.len() == 32
        &&& self.regs[0] == 0
    }

    /// The value a register read yields; reading `x0` yields 0 by the
    /// invariant.
    pub open spec fn reg(self, r: Register) -> u64
        recommends
            self.wf(),
            r.is_gpr(),
    {
        self.regs[r.index_spec()]
    }

    /// The state after a register write: writes to `x0` are discarded,
    /// every other write replaces one slot.
    pub open spec fn with_reg(self, rd: Register, v: u64) -> CpuView
        recommends
            rd.is_gpr(),
    {
        if rd.index_spec() == 0 {
            self
        } else {
            CpuView { regs: self.regs.update(rd.index_spec(), v), ..self }
        }
    }

    /// The state after replacing the memory image.
    pub open spec fn with_mem(self, mem: Seq<u8>) -> CpuView {
        CpuView { mem, ..self }
    }

    /// The state after redirecting the program counter.
    pub open spec fn with_pc(self, pc: u64) -> CpuView {
        CpuView { pc, ..self }
    }
}

/// The little-endian 16-bit value at offset `a`.
pub open spec fn le16_at(mem: Seq<u8>, a: int) -> u16
    recommends
        0 <= a,
        a + 2 <= mem.len(),
{
    (mem[a] as u16) | ((mem[a + 1] as u16) << 8)
}

/// The little-endian 32-bit value at offset `a`.
pub open spec fn le32_at(mem: Seq<u8>, a: int) -> u32
    recommends
        0 <= a,
        a + 4 <= mem.len(),
{
    (mem[a] as u32) | ((mem[a + 1] as u32) << 8) | ((mem[a + 2] as u32) << 16) | ((mem[a + 3]
        as u32) << 24)
}

/// The little-endian 64-bit value at offset `a`.
pub open spec fn le64_at(mem: Seq<u8>, a: int) -> u64
    recommends
        0 <= a,
        a + 8 <= mem.len(),
{
    (mem[a] as u64) | ((mem[a + 1] as u64) << 8) | ((mem[a + 2] as u64) << 16) | ((mem[a + 3]
        as u64) << 24) | ((mem[a + 4] as u64) << 32) | ((mem[a + 5] as u64) << 40) | ((mem[a + 6]
        as u64) << 48) | ((mem[a + 7] as u64) << 56)
}

/// The image after storing the low byte of `v` at offset `a`.
pub open spec fn store8_at(mem: Seq<u8>, a: int, v: u64) -> Seq<u8>
    recommends
        0 <= a,
        a + 1 <= mem.len(),
{
    mem.update(a, (v & 0xff) as u8)
}

/// The image after storing the low 2 bytes of `v` little-endian at `a`.
pub open spec fn store16_at(mem: Seq<u8>, a: int, v: u64) -> Seq<u8>
    recommends
        0 <= a,
        a + 2 <= mem.len(),
{
    mem.update(a, (v & 0xff) as u8).update(a + 1, ((v >> 8) & 0xff) as u8)
}

/// The image after storing the low 4 bytes of `v` little-endian at `a`.
pub open spec fn store32_at(mem: Seq<u8>, a: int, v: u64) -> Seq<u8>
    recommends
        0 <= a,
        a + 4 <= mem.len(),
{
    mem.update(a, (v & 0xff) as u8).update(a + 1, ((v >> 8) & 0xff) as u8).update(
        a + 2,
        (((v >> 16) & 0xff) as u8),
    ).update(a + 3, (((v >> 24) & 0xff) as u8))
}

/// The image after storing all 8 bytes of `v` little-endian at `a`.
pub open spec fn store64_at(mem: Seq<u8>, a: int, v: u64) -> Seq<u8>
    recommends
        0 <= a,
        a + 8 <= mem.len(),
{
    mem.update(a, (v & 0xff) as u8).update(a + 1, ((v >> 8) & 0xff) as u8).update(
        a + 2,
        (((v >> 16) & 0xff) as u8),
    ).update(a + 3, (((v >> 24) & 0xff) as u8)).update(a + 4, (((v >> 32) & 0xff) as u8)).update(
        a + 5,
        (((v >> 40) & 0xff) as u8),
    ).update(a + 6, (((v >> 48) & 0xff) as u8)).update(a + 7, (((v >> 56) & 0xff) as u8))
}

/// The signed effective address of a memory access: base register plus
/// sign-extended offset, as an unbounded integer.
pub open spec fn ea_of(v: CpuView, rs1: Register, imm: i32) -> int
    recommends
        v.wf(),
        rs1.is_gpr(),
{
    v.reg(rs1) + imm
}

/// Whether a `size`-byte access at the effective address lies inside the
/// memory image; anything else is a memory fault.
pub open spec fn mem_ok(v: CpuView, rs1: Register, imm: i32, size: int) -> bool
    recommends
        v.wf(),
        rs1.is_gpr(),
{
    &&& 0 <= ea_of(v, rs1, imm)
    &&& ea_of(v, rs1, imm) + size <= v.mem.len()
}

/// The architectural state: 32 general-purpose 64-bit registers (slot 0
/// hardwired to zero), the program counter, and the owned flat memory
/// image holding code and data.
pub struct Cpu {
    pub registers: Vec<u64>,
    pub pc: u64,
    pub encoded_instructions: Vec<u8>,
}

impl View for Cpu {
    type V = CpuView;

    open spec fn view(&self) -> CpuView {
        CpuView { regs: self.registers@, pc: self.pc, mem: self.encoded_instructions@ }
    }
}

/// The initial state of a run: all registers zero and the program counter
/// at the start of the image.
pub open spec fn init_view(mem: Seq<u8>) -> CpuView {
    CpuView { regs: Seq::new(32, |i: int| 0u64), pc: 0, mem }
}

impl Cpu {
    /// The state invariant, on the concrete representation.
    pub open spec fn wf(&self) -> bool {
        self@.wf()
    }

    /// A fresh state over the given memory image: program counter 0,
    /// every register 0.
    pub fn new(encoded_instructions: Vec<u8>) -> (r: Cpu)
        ensures
            r@ == init_view(encoded_instructions@),
            r.wf(),
    {
        let mut registers: Vec<u64> = Vec::new();
        let mut i: usize = 0;
        while i < 32
            invariant
                i <= 32,
                registers@.len() == i,
                forall|j: int| 0 <= j < i ==> registers@[j] == 0,
            decreases 32 - i,
        {
            registers.push(0);
            i = i + 1;
        }
        let r = Cpu { registers, pc: 0, encoded_instructions };
        proof {
            assert(r@.regs =~= init_view(r@.mem).regs);
        }
        r
    }

    /// Read the little-endian instruction word at the program counter.
    pub fn fetch(&self) -> (r: u32)
        requires
            self.pc + 4 <= self@.mem.len(),
        ensures
            r == le32_at(self@.mem, self.pc as int),
    {
        let n = self.encoded_instructions.len();
        let index = self.pc as usize;
        let encoded_instruction = (self.encoded_instructions[index] as u32) | ((
        self.encoded_instructions[index + 1] as u32) << 8) | ((self.encoded_instructions[index
            + 2] as u32) << 16) | ((self.encoded_instructions[index + 3] as u32) << 24);
        encoded_instruction
    }

    /// Read a general-purpose register; `x0` always reads 0.
    pub fn read_register(&self, r: Register) -> (v: u64)
        requires
            self.wf(),
            r.is_gpr(),
        ensures
            v == self@.reg(r),
    {
        self.registers[r.index()]
    }

    /// Write a general-purpose register; a write to `x0` is discarded.
    pub fn write_register(&mut self, r: Register, v: u64)
        requires
            old(self).wf(),
            r.is_gpr(),
        ensures
            final(self)@ == old(self)@.with_reg(r, v),
            final(self).wf(),
    {
        let i = r.index();
        if i != 0 {
            self.registers[i] = v;
        }
    }

    /// Resolve a load or store address: base register plus sign-extended
    /// offset, accepted only when the whole `size`-byte access lies
    /// inside the memory image.
    pub fn effective_address(&self, rs1: Register, imm: i32, size: u64) -> (r: Option<usize>)
        requires
            self.wf(),
            rs1.is_gpr(),
            1 <= size <= 8,
        ensures
            r is Some <==> mem_ok(self@, rs1, imm, size as int),
            r is Some ==> r.unwrap() == ea_of(self@, rs1, imm),
    {
        let base = self.read_register(rs1);
        let len = self.encoded_instructions.len();
        match base.checked_add_signed(imm as i64) {
            None => None,
            Some(a) => {
                if (len as u64) >= size && a <= (len as u64) - size {
                    Some(a as usize)
                } else {
                    None
                }
            },
        }
    }

    /// Load one byte.
    pub fn load_u8(&self, a: usize) -> (r: u8)
        requires
            a < self@.mem.len(),
        ensures
            r == self@.mem[a as int],
    {
        self.encoded_instructions[a]
    }

    /// Load a little-endian 16-bit value.
    pub fn load_u16(&self, a: usize) -> (r: u16)
        requires
            a + 2 <= self@.mem.len(),
        ensures
            r == le16_at(self@.mem, a as int),
    {
        let n = self.encoded_instructions.len();
        (self.encoded_instructions[a] as u16) | ((self.encoded_instructions[a + 1] as u16) << 8)
    }

    /// Load a little-endian 32-bit value.
    pub fn load_u32(&self, a: usize) -> (r: u32)
        requires
            a + 4 <= self@.mem.len(),
        ensures
            r == le32_at(self@.mem, a as int),
    {
        let n = self.encoded_instructions.len();
        (self.encoded_instructions[a] as u32) | ((self.encoded_instructions[a + 1] as u32) << 8)
            | ((self.encoded_instructions[a + 2] as u32) << 16) | ((self.encoded_instructions[a
            + 3] as u32) << 24)
    }

    /// Load a little-endian 64-bit value.
    pub fn load_u64(&self, a: usize) -> (r: u64)
        requires
            a + 8 <= self@.mem.len(),
        ensures
            r == le64_at(self@.mem, a as int),
    {
        let n = self.encoded_instructions.len();
        (self.encoded_instructions[a] as u64) | ((self.encoded_instructions[a + 1] as u64) << 8)
            | ((self.encoded_instructions[a + 2] as u64) << 16) | ((self.encoded_instructions[a
            + 3] as u64) << 24) | ((self.encoded_instructions[a + 4] as u64) << 32) | ((
        self.encoded_instructions[a + 5] as u64) << 40) | ((self.encoded_instructions[a + 6]
            as u64) << 48) | ((self.encoded_instructions[a + 7] as u64) << 56)
    }

    /// Store the low byte of `v`.
    pub fn store_u8(&mut self, a: usize, v: u64)
        requires
            a < old(self)@.mem.len(),
        ensures
            final(self)@ == old(self)@.with_mem(store8_at(old(self)@.mem, a as int, v)),
    {
        self.encoded_instructions[a] = (v & 0xff) as u8;
    }

    /// Store the low 2 bytes of `v` little-endian.
    pub fn store_u16(&mut self, a: usize, v: u64)
        requires
            a + 2 <= old(self)@.mem.len(),
        ensures
            final(self)@ == old(self)@.with_mem(store16_at(old(self)@.mem, a as int, v)),
    {
        let n = self.encoded_instructions.len();
        self.encoded_instructions[a] = (v & 0xff) as u8;
        self.encoded_instructions[a + 1] = ((v >> 8) & 0xff) as u8;
    }

    /// Store the low 4 bytes of `v` little-endian.
    pub fn store_u32(&mut self, a: usize, v: u64)
        requires
            a + 4 <= old(self)@.mem.len(),
        ensures
            final(self)@ == old(self)@.with_mem(store32_at(old(self)@.mem, a as int, v)),
    {
        let n = self.encoded_instructions.len();
        self.encoded_instructions[a] = (v & 0xff) as u8;
        self.encoded_instructions[a + 1] = ((v >> 8) & 0xff) as u8;
        self.encoded_instructions[a + 2] = ((v >> 16) & 0xff) as u8;
        self.encoded_instructions[a + 3] = ((v >> 24) & 0xff) as u8;
    }

    /// Store all 8 bytes of `v` little-endian.
    pub fn store_u64(&mut self, a: usize, v: u64)
        requires
            a + 8 <= old(self)@.mem.len(),
        ensures
            final(self)@ == old(self)@.with_mem(store64_at(old(self)@.mem, a as int, v)),
    {
        let n = self.encoded_instructions.len();
        self.encoded_instructions[a] = (v & 0xff) as u8;
        self.encoded_instructions[a + 1] = ((v >> 8) & 0xff) as u8;
        self.encoded_instructions[a + 2] = ((v >> 16) & 0xff) as u8;
        self.encoded_instructions[a + 3] = ((v >> 24) & 0xff) as u8;
        self.encoded_instructions[a + 4] = ((v >> 32) & 0xff) as u8;
        self.encoded_instructions[a + 5] = ((v >> 40) & 0xff) as u8;
        self.encoded_instructions[a + 6] = ((v >> 48) & 0xff) as u8;
        self.encoded_instructions[a + 7] = ((v >> 56) & 0xff) as u8;
    }
}

} // verus!
