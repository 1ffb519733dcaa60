//! The operand resolver: decodes an addressing-mode byte (2-bit mode, 3-bit
//! register/extension field, 3-bit register/memory field) into an operand
//! pointer, consuming any displacement bytes from the instruction stream.
//! Also the short-jump primitive shared by the conditional jumps.

use crate::cpu::wadd16;
use crate::state::{
    bp_ptr, bx_ptr, cpu_wf, di_ptr, fetch16_s, fetch8_s, mem_ptr, ptr_wf, read16_s, reg_ptr,
    sign_extend_s, wrap16, Cpu, CpuV, Pointer, RegisterMemory,
};
use vstd::prelude::*;

verus! {

/// The operand location and secondary 3-bit field decoded from the
/// addressing-mode byte at the instruction pointer. Exactly the mode/field
/// combinations of the addressing table resolve; every other combination is
/// a decode failure, reported as `None` with only the mode byte consumed.
pub open spec fn read_mod_rm_s(c: CpuV) -> (CpuV, Option<(Pointer, u8)>) {
    let (c1, b) = fetch8_s(c);
    let md = b / 64;
    let rg = (b / 8) % 8;
    let rm = b % 8;
    if md == 3 {
        (c1, Some((reg_ptr(rm), rg)))
    } else if md == 0 && rm == 1 {
        (c1, Some((mem_ptr(wrap16(read16_s(c1, bx_ptr()) + read16_s(c1, di_ptr()))), rg)))
    } else if md == 0 && rm == 6 {
        let (c2, w) = fetch16_s(c1);
        (c2, Some((mem_ptr(w), rg)))
    } else if md == 0 && rm == 7 {
        (c1, Some((mem_ptr(read16_s(c1, bx_ptr())), rg)))
    } else if md == 1 && rm == 3 {
        let (c2, d) = fetch8_s(c1);
        (
            c2,
            Some(
                (
                    mem_ptr(
                        wrap16(
                            read16_s(c1, bp_ptr()) + read16_s(c1, di_ptr()) + sign_extend_s(d),
                        ),
                    ),
                    rg,
                ),
            ),
        )
    } else if md == 2 && rm == 5 {
        let (c2, w) = fetch16_s(c1);
        (c2, Some((mem_ptr(wrap16(read16_s(c1, di_ptr()) + w)), rg)))
    } else if md == 2 && rm == 7 {
        let (c2, w) = fetch16_s(c1);
        (c2, Some((mem_ptr(wrap16(read16_s(c1, bx_ptr()) + w)), rg)))
    } else {
        (c1, None)
    }
}

/// A short jump: the displacement byte is always consumed; only when the
/// condition holds is the sign-extended displacement added to the
/// instruction pointer.
pub open spec fn jump_short_s(c: CpuV, condition: bool) -> CpuV {
    let (c1, d) = fetch8_s(c);
    if condition {
        CpuV { ip: wrap16(c1.ip + sign_extend_s(d)), ..c1 }
    } else {
        c1
    }
}

impl Cpu {
    /// Decode the addressing-mode byte at the instruction pointer into an
    /// operand pointer and the secondary 3-bit field, consuming any
    /// displacement bytes. An undefined mode/field combination returns
    /// `None`.
    pub fn read_mod_rm(&mut self) -> (r: Option<(Pointer, u8)>)
        requires
            cpu_wf(old(self)@),
        ensures
            cpu_wf(final(self)@),
            final(self)@ == read_mod_rm_s(old(self)@).0,
            r == read_mod_rm_s(old(self)@).1,
            r matches Some(p) ==> ptr_wf(p.0) && p.1 < 8,
    {
        let mod_rm = self.read_instr8();
        let md = mod_rm / 64;
        let rg_op = (mod_rm / 8) % 8;
        let rm = mod_rm % 8;
        if md == 3 {
            Some((Cpu::get_register(rm), rg_op))
        } else if md == 0 && rm == 1 {
            let bx = self.read16(&Cpu::get_register(3));
            let di = self.read16(&Cpu::get_register(7));
            let addr = wadd16(bx, di);
            Some((Pointer { rm: RegisterMemory::Memory, offset: addr as usize }, rg_op))
        } else if md == 0 && rm == 6 {
            let w = self.read_instr16();
            Some((Pointer { rm: RegisterMemory::Memory, offset: w as usize }, rg_op))
        } else if md == 0 && rm == 7 {
            let bx = self.read16(&Cpu::get_register(3));
            Some((Pointer { rm: RegisterMemory::Memory, offset: bx as usize }, rg_op))
        } else if md == 1 && rm == 3 {
            let bp = self.read16(&Cpu::get_register(5));
            let di = self.read16(&Cpu::get_register(7));
            let byte = self.read_instr8();
            let addr = wadd16(wadd16(bp, di), Cpu::sign_extend(byte));
            proof {
                crate::state::lemma_wrap16_add_left(
                    bp + di,
                    sign_extend_s(byte) as int,
                );
            }
            Some((Pointer { rm: RegisterMemory::Memory, offset: addr as usize }, rg_op))
        } else if md == 2 && rm == 5 {
            let di = self.read16(&Cpu::get_register(7));
            let word = self.read_instr16();
            let addr = wadd16(di, word);
            Some((Pointer { rm: RegisterMemory::Memory, offset: addr as usize }, rg_op))
        } else if md == 2 && rm == 7 {
            let bx = self.read16(&Cpu::get_register(3));
            let word = self.read_instr16();
            let addr = wadd16(bx, word);
            Some((Pointer { rm: RegisterMemory::Memory, offset: addr as usize }, rg_op))
        } else {
            None
        }
    }

    /// Consume the displacement byte at the instruction pointer; apply it to
    /// the instruction pointer (sign-extended, wrapping) only when the
    /// condition holds.
    pub fn jump_short(&mut self, condition: bool)
        requires
            cpu_wf(old(self)@),
        ensures
            cpu_wf(final(self)@),
            final(self)@ == jump_short_s(old(self)@, condition),
    {
        let offset = self.read_instr8();
        if condition {
            let target = wadd16(self.ip, Cpu::sign_extend(offset));
            self.ip = target;
        }
    }
}

} // verus!
