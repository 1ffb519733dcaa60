//! General laws of the instruction semantics, each proved once for all
//! inputs from the same spec functions the executable contracts use.

use crate::alu::{alu_flags_s, alu_out, operation_of, Operation};
use crate::decode::jump_short_s;
use crate::run::{binop_of, dec_reg_s, inc_reg_s};
use crate::state::{
    cpu_wf, hi_byte, lemma_read16_write16, lemma_word_bytes, lemma_wrap16_add_left,
    lemma_wrap16_small, lo_byte, mem_ptr, pop16_s, push16_s, push8_s, read16_s, reg_ptr,
    set_flags_s, sign_extend_s, sp_ptr, wrap16, write16_s, write8_s, CpuV,
};
use vstd::prelude::*;

verus! {

/// Adding zero to any 16-bit value returns the value unchanged, and the
/// zero and sign flags then reflect that value's own zero/sign.
pub proof fn lemma_add_zero_identity(c: CpuV, v: u16)
    ensures
        alu_out(Operation::Add, c.cf, v, 0) == v,
        alu_flags_s(c, Operation::Add, v, 0).zf == (v == 0),
        alu_flags_s(c, Operation::Add, v, 0).sf == (v >= 0x8000),
{
    lemma_wrap16_small(v as int);
}

/// The bitwise operations always clear the carry flag.
pub proof fn lemma_bitwise_clears_carry(c: CpuV, op: Operation, op1: u16, op2: u16)
    requires
        op == Operation::And || op == Operation::Or || op == Operation::Xor,
    ensures
        !alu_flags_s(c, op, op1, op2).cf,
{
}

/// Subtracting a value and then adding it back is the identity on 16-bit
/// values, modulo 2^16: the arithmetic round-trip.
pub proof fn lemma_sub_add_roundtrip(cf1: bool, cf2: bool, v1: u16, v2: u16)
    ensures
        alu_out(Operation::Add, cf2, alu_out(Operation::Sub, cf1, v1, v2), v2) == v1,
{
    lemma_wrap16_add_left(v1 - v2, v2 as int);
    lemma_wrap16_small(v1 as int);
}

/// Pushing a 16-bit value and immediately popping returns the same value
/// and leaves the stack pointer register as it was before the push.
pub proof fn lemma_push_pop(c: CpuV, x: u16)
    requires
        cpu_wf(c),
    ensures
        pop16_s(push16_s(c, x)).1 == x,
        read16_s(pop16_s(push16_s(c, x)).0, sp_ptr()) == read16_s(c, sp_ptr()),
{
    let sp0 = read16_s(c, sp_ptr());
    lemma_word_bytes(x);
    lemma_wrap16_small(sp0 as int);
    lemma_wrap16_add_left(sp0 - 1, 1);
    lemma_wrap16_add_left(sp0 - 1, -1);
    if sp0 == 0 {
        assert(wrap16(sp0 - 1) == 0xFFFF);
    } else {
        lemma_wrap16_small(sp0 - 1);
    }
    let c_hi = push8_s(c, hi_byte(x));
    lemma_read16_write16(write8_s(c, mem_ptr(sp0), hi_byte(x)), sp_ptr(), wrap16(sp0 - 1));
    let c_lo = push8_s(c_hi, lo_byte(x));
    lemma_read16_write16(
        write8_s(c_hi, mem_ptr(wrap16(sp0 - 1)), lo_byte(x)),
        sp_ptr(),
        wrap16(sp0 - 2),
    );
    lemma_wrap16_add_left(sp0 - 2, 1);
    lemma_read16_write16(c_lo, sp_ptr(), wrap16(sp0 - 1));
    lemma_read16_write16(write16_s(c_lo, sp_ptr(), wrap16(sp0 - 1)), sp_ptr(), sp0);
}

/// Incrementing and then decrementing any 16-bit register restores its
/// original value, including across the wraparound boundaries.
pub proof fn lemma_inc_dec(c: CpuV, n: u8)
    requires
        cpu_wf(c),
    ensures
        read16_s(dec_reg_s(inc_reg_s(c, n), n), reg_ptr(n)) == read16_s(c, reg_ptr(n)),
{
    let v0 = read16_s(c, reg_ptr(n));
    let v1 = wrap16(v0 + 1);
    lemma_read16_write16(set_flags_s(c, v1), reg_ptr(n), v1);
    let c1 = inc_reg_s(c, n);
    let v2 = wrap16(read16_s(c1, reg_ptr(n)) - 1);
    lemma_wrap16_add_left(v0 + 1, -1);
    lemma_wrap16_small(v0 as int);
    lemma_read16_write16(set_flags_s(c1, v2), reg_ptr(n), v2);
}

/// Every opcode of the 16-bit register-to-r/m arithmetic family selects its
/// operation by the hardware rule: the opcode's bits 3 to 5 are the
/// operation code.
pub proof fn lemma_binop_follows_opcode_bits(opcode: u8)
    requires
        opcode == 0x01 || opcode == 0x09 || opcode == 0x19 || opcode == 0x29 || opcode == 0x31
            || opcode == 0x39,
    ensures
        binop_of(opcode) == operation_of((opcode / 8) % 8),
{
}

/// A conditional jump always advances the instruction pointer past its
/// displacement byte, whether or not it is taken; only the branch offset
/// itself is conditional, and nothing but the instruction pointer changes.
pub proof fn lemma_jump_consumes_displacement(c: CpuV, condition: bool)
    ensures
        !condition ==> jump_short_s(c, condition).ip == wrap16(c.ip + 1),
        condition ==> jump_short_s(c, condition).ip == wrap16(
            c.ip + 1 + sign_extend_s(c.memory[c.ip as int]),
        ),
        jump_short_s(c, condition).memory == c.memory,
        jump_short_s(c, condition).regs == c.regs,
        jump_short_s(c, condition).cf == c.cf,
        jump_short_s(c, condition).zf == c.zf,
        jump_short_s(c, condition).sf == c.sf,
{
    if condition {
        lemma_wrap16_add_left(c.ip + 1, sign_extend_s(c.memory[c.ip as int]) as int);
    }
}

} // verus!
