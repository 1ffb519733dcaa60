//! The processor state and its mathematical model.
//!
//! `Cpu` is the executable state: a 64KB memory segment, the instruction
//! pointer, the register file (8 logical 16-bit registers stored as 16
//! bytes), and the carry/zero/sign flags. `CpuV` is its view, and the spec
//! functions here model every primitive state transition: byte and word
//! load/store through an operand pointer, instruction-stream fetch, and the
//! stack push/pop primitives.

use vstd::prelude::*;

verus! {

/// Width of one register slot in bytes: 2 bytes = 16 bits.
pub const REG_WIDTH: usize = 2;

/// Whether an operand lives in the register file or in the memory segment.
#[derive(Clone, Copy, Debug, PartialEq, Eq, Structural)]
pub enum RegisterMemory {
    Register,
    Memory,
}

/// A resolved operand location: a byte offset into either the register file
/// or the memory segment. Transient, built per instruction by the decoder.
#[derive(Clone, Copy, Debug, PartialEq, Eq, Structural)]
pub struct Pointer {
    pub rm: RegisterMemory,
    pub offset: usize,
}

/// The processor state, mutated in place by every instruction.
pub struct Cpu {
    /// The single 64KB addressable segment; always 65536 bytes.
    pub memory: Vec<u8>,
    /// Instruction pointer: index of the next opcode byte.
    pub ip: u16,
    /// The register file: 8 registers of 2 bytes each; always 16 bytes.
    pub regs: Vec<u8>,
    /// Carry flag.
    pub cf: bool,
    /// Zero flag.
    pub zf: bool,
    /// Sign flag.
    pub sf: bool,
}

/// The mathematical model of the processor state.
#[verifier::ext_equal]
pub struct CpuV {
    pub memory: Seq<u8>,
    pub ip: u16,
    pub regs: Seq<u8>,
    pub cf: bool,
    pub zf: bool,
    pub sf: bool,
}

impl View for Cpu {
    type V = CpuV;

    open spec fn view(&self) -> CpuV {
        CpuV {
            memory: self.memory@,
            ip: self.ip,
            regs: self.regs@,
            cf: self.cf,
            zf: self.zf,
            sf: self.sf,
        }
    }
}

/// The state is well formed when both byte stores have their fixed sizes.
pub open spec fn cpu_wf(c: CpuV) -> bool {
    c.memory.len() == 0x10000 && c.regs.len() == 16
}

/// 16-bit wraparound reduction: the value modulo 2^16.
pub open spec fn wrap16(v: int) -> u16 {
    (v % 0x10000) as u16
}

/// 8-bit wraparound reduction: the value modulo 2^8.
pub open spec fn wrap8(v: int) -> u8 {
    (v % 0x100) as u8
}

/// The 16-bit word assembled little-endian from a low and a high byte.
pub open spec fn word_of(lo: u8, hi: u8) -> u16 {
    (lo + hi * 0x100) as u16
}

/// The low byte of a 16-bit word.
pub open spec fn lo_byte(v: u16) -> u8 {
    (v % 0x100) as u8
}

/// The high byte of a 16-bit word.
pub open spec fn hi_byte(v: u16) -> u8 {
    (v / 0x100) as u8
}

/// An 8-bit value interpreted as two's complement and widened to 16 bits.
pub open spec fn sign_extend_s(a: u8) -> u16 {
    if a >= 0x80 {
        (a + 0xFF00) as u16
    } else {
        a as u16
    }
}

/// The number of byte slots in the space a pointer addresses.
pub open spec fn space_len(rm: RegisterMemory) -> int {
    match rm {
        RegisterMemory::Register => 16,
        RegisterMemory::Memory => 0x10000,
    }
}

/// A pointer is valid when its offset lies inside its space.
pub open spec fn ptr_wf(p: Pointer) -> bool {
    p.offset < space_len(p.rm)
}

/// The slot after `p`: offset arithmetic wraps at the end of the space and
/// never crosses between the register file and memory.
pub open spec fn ptr_next(p: Pointer) -> Pointer {
    Pointer { rm: p.rm, offset: ((p.offset + 1) % space_len(p.rm)) as usize }
}

/// The pointer to 16-bit register number `n % 8`.
pub open spec fn reg_ptr(n: u8) -> Pointer {
    Pointer { rm: RegisterMemory::Register, offset: ((n % 8) * 2) as usize }
}

/// The pointer to memory address `a`.
pub open spec fn mem_ptr(a: u16) -> Pointer {
    Pointer { rm: RegisterMemory::Memory, offset: a as usize }
}

/// The accumulator register.
pub open spec fn ax_ptr() -> Pointer {
    reg_ptr(0)
}

/// The base register.
pub open spec fn bx_ptr() -> Pointer {
    reg_ptr(3)
}

/// The stack pointer register.
pub open spec fn sp_ptr() -> Pointer {
    reg_ptr(4)
}

/// The stack base pointer register.
pub open spec fn bp_ptr() -> Pointer {
    reg_ptr(5)
}

/// The destination index register.
pub open spec fn di_ptr() -> Pointer {
    reg_ptr(7)
}

/// The byte stored at `p`.
pub open spec fn read8_s(c: CpuV, p: Pointer) -> u8 {
    match p.rm {
        RegisterMemory::Register => c.regs[p.offset as int],
        RegisterMemory::Memory => c.memory[p.offset as int],
    }
}

/// The little-endian word stored at `p`: low byte at `p`, high byte at the
/// following slot.
pub open spec fn read16_s(c: CpuV, p: Pointer) -> u16 {
    word_of(read8_s(c, p), read8_s(c, ptr_next(p)))
}

/// The state with the byte at `p` replaced by `v`.
pub open spec fn write8_s(c: CpuV, p: Pointer, v: u8) -> CpuV {
    match p.rm {
        RegisterMemory::Register => CpuV { regs: c.regs.update(p.offset as int, v), ..c },
        RegisterMemory::Memory => CpuV { memory: c.memory.update(p.offset as int, v), ..c },
    }
}

/// The state with the little-endian word `v` stored at `p`.
pub open spec fn write16_s(c: CpuV, p: Pointer, v: u16) -> CpuV {
    write8_s(write8_s(c, p, lo_byte(v)), ptr_next(p), hi_byte(v))
}

/// One byte fetched from the instruction stream: the byte at the instruction
/// pointer, with the instruction pointer advanced by one (wrapping).
pub open spec fn fetch8_s(c: CpuV) -> (CpuV, u8) {
    (CpuV { ip: wrap16(c.ip + 1), ..c }, c.memory[c.ip as int])
}

/// A little-endian word fetched from the instruction stream.
pub open spec fn fetch16_s(c: CpuV) -> (CpuV, u16) {
    let (c1, a) = fetch8_s(c);
    let (c2, b) = fetch8_s(c1);
    (c2, word_of(a, b))
}

/// One byte pushed: stored at the stack pointer, which then moves down one
/// (the stack grows toward lower addresses).
pub open spec fn push8_s(c: CpuV, v: u8) -> CpuV {
    let sp = read16_s(c, sp_ptr());
    let c1 = write8_s(c, mem_ptr(sp), v);
    write16_s(c1, sp_ptr(), wrap16(sp - 1))
}

/// A 16-bit push: high byte first, then low byte, each by a single-byte
/// push, so the word lies little-endian in memory.
pub open spec fn push16_s(c: CpuV, v: u16) -> CpuV {
    push8_s(push8_s(c, hi_byte(v)), lo_byte(v))
}

/// One byte popped: the stack pointer moves up one and the byte there is
/// read.
pub open spec fn pop8_s(c: CpuV) -> (CpuV, u8) {
    let sp = wrap16(read16_s(c, sp_ptr()) + 1);
    (write16_s(c, sp_ptr(), sp), read8_s(c, mem_ptr(sp)))
}

/// A 16-bit pop: low byte first, then high byte, reversing the byte order of
/// the push.
pub open spec fn pop16_s(c: CpuV) -> (CpuV, u16) {
    let (c1, a) = pop8_s(c);
    let (c2, b) = pop8_s(c1);
    (c2, word_of(a, b))
}

/// The zero and sign flags recomputed from a 16-bit result.
pub open spec fn set_flags_s(c: CpuV, v: u16) -> CpuV {
    CpuV { zf: v == 0, sf: v >= 0x8000, ..c }
}

/// A value already below 2^16 is unchanged by 16-bit wraparound.
pub proof fn lemma_wrap16_small(v: int)
    requires
        0 <= v < 0x10000,
    ensures
        wrap16(v) == v,
{
    vstd::arithmetic::div_mod::lemma_small_mod(v as nat, 0x10000nat);
}

/// Wrapping an already-wrapped left summand does not change the sum's wrap.
pub proof fn lemma_wrap16_add_left(a: int, b: int)
    ensures
        wrap16(wrap16(a) + b) == wrap16(a + b),
{
    vstd::arithmetic::div_mod::lemma_add_mod_noop(a, b, 0x10000);
    vstd::arithmetic::div_mod::lemma_add_mod_noop_right(a % 0x10000, b, 0x10000);
}

/// A word is exactly its two little-endian bytes.
pub proof fn lemma_word_bytes(v: u16)
    ensures
        word_of(lo_byte(v), hi_byte(v)) == v,
{
    vstd::arithmetic::div_mod::lemma_fundamental_div_mod(v as int, 0x100);
}

/// Writing a word through a pointer and reading through the same pointer
/// returns the word just written.
pub proof fn lemma_read16_write16(c: CpuV, p: Pointer, v: u16)
    requires
        cpu_wf(c),
        ptr_wf(p),
    ensures
        read16_s(write16_s(c, p, v), p) == v,
{
    lemma_word_bytes(v);
}

} // verus!
