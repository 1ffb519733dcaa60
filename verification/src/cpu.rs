//! The verified memory/register store, instruction-stream fetch, stack
//! primitives, and byte/word conversions, each proved against its model in
//! `state`.

use crate::state::{
    cpu_wf, fetch16_s, fetch8_s, hi_byte, lo_byte, pop16_s, pop8_s, ptr_next, ptr_wf,
    push16_s, push8_s, read16_s, read8_s, reg_ptr, sign_extend_s, sp_ptr, word_of, wrap16, wrap8,
    write16_s, write8_s, Cpu, Pointer, RegisterMemory, REG_WIDTH,
};
use vstd::prelude::*;

verus! {

/// How many bytes of a program image fit into the memory segment.
pub open spec fn loaded_len(program: Seq<u8>) -> int {
    if program.len() < 0x10000 {
        program.len() as int
    } else {
        0x10000
    }
}

/// 16-bit wraparound addition.
pub(crate) fn wadd16(a: u16, b: u16) -> (r: u16)
    ensures
        r == wrap16(a + b),
{
    ((a as u32 + b as u32) % 0x10000) as u16
}

/// 16-bit wraparound subtraction.
pub(crate) fn wsub16(a: u16, b: u16) -> (r: u16)
    ensures
        r == wrap16(a - b),
{
    proof {
        vstd::arithmetic::div_mod::lemma_mod_add_multiples_vanish(a - b, 0x10000);
    }
    ((0x10000 + a as u32 - b as u32) % 0x10000) as u16
}

/// 8-bit wraparound addition.
pub(crate) fn wadd8(a: u8, b: u8) -> (r: u8)
    ensures
        r == wrap8(a + b),
{
    ((a as u16 + b as u16) % 0x100) as u8
}

/// 8-bit wraparound subtraction.
pub(crate) fn wsub8(a: u8, b: u8) -> (r: u8)
    ensures
        r == wrap8(a - b),
{
    proof {
        vstd::arithmetic::div_mod::lemma_mod_add_multiples_vanish(a - b, 0x100);
    }
    ((0x100 + a as u16 - b as u16) % 0x100) as u8
}

/// The offset of the slot after a pointer, wrapping inside its own space.
fn next_offset(pointer: &Pointer) -> (n: usize)
    requires
        ptr_wf(*pointer),
    ensures
        n == ptr_next(*pointer).offset,
{
    let space: usize = match pointer.rm {
        RegisterMemory::Register => 16,
        RegisterMemory::Memory => 0x10000,
    };
    (pointer.offset + 1) % space
}

impl Cpu {
    /// A fresh processor: memory and registers zeroed, flags clear,
    /// instruction pointer zero, stack pointer register preset to 0x100.
    pub fn new() -> (c: Cpu)
        ensures
            cpu_wf(c@),
            c@.ip == 0,
            !c@.cf && !c@.zf && !c@.sf,
            forall|i: int| 0 <= i < 0x10000 ==> c@.memory[i] == 0,
            read16_s(c@, sp_ptr()) == 0x100,
            forall|i: int| 0 <= i < 16 && i != 8 && i != 9 ==> c@.regs[i] == 0,
    {
        let mut memory: Vec<u8> = Vec::new();
        let mut i: usize = 0;
        while i < 0x10000
            invariant
                memory@.len() == i,
                i <= 0x10000,
                forall|j: int| 0 <= j < i ==> memory@[j] == 0,
            decreases 0x10000 - i,
        {
            memory.push(0);
            i += 1;
        }
        let mut regs: Vec<u8> = Vec::new();
        let mut k: usize = 0;
        while k < 16
            invariant
                regs@.len() == k,
                k <= 16,
                forall|j: int| 0 <= j < k ==> regs@[j] == 0,
            decreases 16 - k,
        {
            regs.push(0);
            k += 1;
        }
        let mut cpu = Cpu { memory, ip: 0, regs, cf: false, zf: false, sf: false };
        cpu.write16(&Cpu::get_register(4), 0x100);
        cpu
    }

    /// Copy a program image into the start of memory, truncating to the
    /// segment size and leaving the tail of memory as it was.
    pub fn load_program(&mut self, program: &[u8])
        requires
            cpu_wf(old(self)@),
        ensures
            cpu_wf(final(self)@),
            forall|j: int| 0 <= j < loaded_len(program@) ==> final(self)@.memory[j] == program@[j],
            forall|j: int|
                loaded_len(program@) <= j < 0x10000 ==> final(self)@.memory[j] == old(self)@.memory[j],
            final(self)@.ip == old(self)@.ip,
            final(self)@.regs == old(self)@.regs,
            final(self)@.cf == old(self)@.cf,
            final(self)@.zf == old(self)@.zf,
            final(self)@.sf == old(self)@.sf,
    {
        let n: usize = if program.len() < 0x10000 {
            program.len()
        } else {
            0x10000
        };
        let mut i: usize = 0;
        while i < n
            invariant
                cpu_wf(self@),
                i <= n,
                n == loaded_len(program@),
                forall|j: int| 0 <= j < i ==> self@.memory[j] == program@[j],
                forall|j: int| i <= j < 0x10000 ==> self@.memory[j] == old(self)@.memory[j],
                self@.ip == old(self)@.ip,
                self@.regs == old(self)@.regs,
                self@.cf == old(self)@.cf,
                self@.zf == old(self)@.zf,
                self@.sf == old(self)@.sf,
            decreases n - i,
        {
            self.memory[i] = program[i];
            i += 1;
        }
    }

    /// The pointer to 16-bit register number `offset % 8`.
    pub fn get_register(offset: u8) -> (p: Pointer)
        ensures
            p == reg_ptr(offset),
            ptr_wf(p),
    {
        Pointer { rm: RegisterMemory::Register, offset: (offset % 8) as usize * REG_WIDTH }
    }

    /// Fetch the byte at the instruction pointer and advance past it.
    pub fn read_instr8(&mut self) -> (r: u8)
        requires
            cpu_wf(old(self)@),
        ensures
            cpu_wf(final(self)@),
            final(self)@ == fetch8_s(old(self)@).0,
            r == fetch8_s(old(self)@).1,
    {
        let read = self.memory[self.ip as usize];
        self.ip = wadd16(self.ip, 1);
        read
    }

    /// Fetch a little-endian word from the instruction stream.
    pub fn read_instr16(&mut self) -> (r: u16)
        requires
            cpu_wf(old(self)@),
        ensures
            cpu_wf(final(self)@),
            final(self)@ == fetch16_s(old(self)@).0,
            r == fetch16_s(old(self)@).1,
    {
        let a = self.read_instr8();
        let b = self.read_instr8();
        Cpu::to16(a, b)
    }

    /// Read the byte an operand pointer refers to.
    pub fn read8(&mut self, pointer: &Pointer) -> (r: u8)
        requires
            cpu_wf(old(self)@),
            ptr_wf(*pointer),
        ensures
            final(self)@ == old(self)@,
            r == read8_s(old(self)@, *pointer),
    {
        match pointer.rm {
            RegisterMemory::Register => self.regs[pointer.offset],
            RegisterMemory::Memory => self.memory[pointer.offset],
        }
    }

    /// Read the little-endian word an operand pointer refers to.
    pub fn read16(&mut self, pointer: &Pointer) -> (r: u16)
        requires
            cpu_wf(old(self)@),
            ptr_wf(*pointer),
        ensures
            final(self)@ == old(self)@,
            r == read16_s(old(self)@, *pointer),
    {
        let a = self.read8(pointer);
        let next = Pointer { rm: pointer.rm, offset: next_offset(pointer) };
        let b = self.read8(&next);
        Cpu::to16(a, b)
    }

    /// Write a byte to the slot an operand pointer refers to.
    pub fn write8(&mut self, pointer: &Pointer, value: u8)
        requires
            cpu_wf(old(self)@),
            ptr_wf(*pointer),
        ensures
            cpu_wf(final(self)@),
            final(self)@ == write8_s(old(self)@, *pointer, value),
    {
        match pointer.rm {
            RegisterMemory::Register => {
                self.regs[pointer.offset] = value;
            }
            RegisterMemory::Memory => {
                self.memory[pointer.offset] = value;
            }
        }
    }

    /// Write a little-endian word to the slot an operand pointer refers to.
    pub fn write16(&mut self, pointer: &Pointer, value: u16)
        requires
            cpu_wf(old(self)@),
            ptr_wf(*pointer),
        ensures
            cpu_wf(final(self)@),
            final(self)@ == write16_s(old(self)@, *pointer, value),
    {
        let (a, b) = Cpu::to8s(value);
        self.write8(pointer, a);
        let next = Pointer { rm: pointer.rm, offset: next_offset(pointer) };
        self.write8(&next, b);
    }

    /// Push one byte: store at the stack pointer, then move it down one.
    pub fn push8(&mut self, value: u8)
        requires
            cpu_wf(old(self)@),
        ensures
            cpu_wf(final(self)@),
            final(self)@ == push8_s(old(self)@, value),
    {
        let sp = self.read16(&Cpu::get_register(4));
        self.write8(&Pointer { rm: RegisterMemory::Memory, offset: sp as usize }, value);
        self.write16(&Cpu::get_register(4), wsub16(sp, 1));
    }

    /// Push a 16-bit value: high byte first, then low byte, so that the word
    /// lies little-endian in memory and pop reassembles it.
    pub fn push16(&mut self, value: u16)
        requires
            cpu_wf(old(self)@),
        ensures
            cpu_wf(final(self)@),
            final(self)@ == push16_s(old(self)@, value),
    {
        let (a, b) = Cpu::to8s(value);
        self.push8(b);
        self.push8(a);
    }

    /// Pop one byte: move the stack pointer up one and read the byte there.
    pub fn pop8(&mut self) -> (r: u8)
        requires
            cpu_wf(old(self)@),
        ensures
            cpu_wf(final(self)@),
            final(self)@ == pop8_s(old(self)@).0,
            r == pop8_s(old(self)@).1,
    {
        let sp_before = self.read16(&Cpu::get_register(4));
        let sp = wadd16(sp_before, 1);
        let value = self.read8(&Pointer { rm: RegisterMemory::Memory, offset: sp as usize });
        self.write16(&Cpu::get_register(4), sp);
        value
    }

    /// Pop a 16-bit value: low byte first, then high byte.
    pub fn pop16(&mut self) -> (r: u16)
        requires
            cpu_wf(old(self)@),
        ensures
            cpu_wf(final(self)@),
            final(self)@ == pop16_s(old(self)@).0,
            r == pop16_s(old(self)@).1,
    {
        let a = self.pop8();
        let b = self.pop8();
        Cpu::to16(a, b)
    }

    /// Assemble a 16-bit word from a low and a high byte, little-endian.
    pub fn to16(a: u8, b: u8) -> (r: u16)
        ensures
            r == word_of(a, b),
    {
        a as u16 + b as u16 * 0x100
    }

    /// Split a 16-bit word into its low and high bytes.
    pub fn to8s(value: u16) -> (r: (u8, u8))
        ensures
            r.0 == lo_byte(value),
            r.1 == hi_byte(value),
    {
        ((value % 0x100) as u8, (value / 0x100) as u8)
    }

    /// Widen an 8-bit value to 16 bits as two's complement.
    pub fn sign_extend(a: u8) -> (r: u16)
        ensures
            r == sign_extend_s(a),
    {
        if a >= 0x80 {
            a as u16 + 0xFF00
        } else {
            a as u16
        }
    }
}

} // verus!
