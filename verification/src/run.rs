//! The fetch-decode-execute loop body: one step fetches the opcode byte at
//! the instruction pointer, advances past it, and dispatches to the matching
//! instruction semantics. `step_s` is the specification of one whole step;
//! `Cpu::run` is proved to implement it exactly.

use crate::alu::{alu_flags_s, alu_out, operation_of, Operation};
use crate::cpu::{wadd16, wadd8, wsub16, wsub8};
use crate::decode::{jump_short_s, read_mod_rm_s};
use crate::state::{
    ax_ptr, cpu_wf, fetch16_s, fetch8_s, lo_byte, pop16_s, push16_s, read16_s, read8_s, reg_ptr,
    set_flags_s, sign_extend_s, wrap16, wrap8, write16_s, write8_s, Cpu, CpuV,
};
use vstd::prelude::*;

verus! {

/// What one execution step reports: continue fetching, the halt opcode, an
/// opcode outside the supported table (carrying the offending byte), or an
/// addressing-mode/field combination the decoder cannot resolve.
#[derive(Clone, Copy, Debug, PartialEq, Eq, Structural)]
pub enum Outcome {
    Running,
    Halted,
    UnsupportedOpcode(u8),
    InvalidAddressing,
}

/// The ALU operation selected by an opcode of the 16-bit register-to-r/m
/// arithmetic family: the operation code is the opcode's bits 3 to 5.
pub open spec fn binop_of(opcode: u8) -> Operation {
    if opcode == 0x01 {
        Operation::Add
    } else if opcode == 0x09 {
        Operation::Or
    } else if opcode == 0x19 {
        Operation::Sbb
    } else if opcode == 0x29 {
        Operation::Sub
    } else if opcode == 0x31 {
        Operation::Xor
    } else {
        Operation::Cmp
    }
}

/// 16-bit register-to-r/m arithmetic: both operands are words, the result is
/// stored back into the r/m operand, and the flags are updated.
pub open spec fn step_alu_rm16(c1: CpuV, op: Operation) -> (CpuV, Outcome) {
    let (c2, dec) = read_mod_rm_s(c1);
    match dec {
        Some((rm, rg)) => {
            let op1 = read16_s(c2, rm);
            let op2 = read16_s(c2, reg_ptr(rg));
            let c3 = alu_flags_s(c2, op, op1, op2);
            let r = alu_out(op, c2.cf, op1, op2);
            (write16_s(c3, rm, r), Outcome::Running)
        }
        None => (c2, Outcome::InvalidAddressing),
    }
}

/// 8-bit immediate arithmetic on the accumulator's low byte: both operands
/// sign-extended; compare stores nothing, the others store the low byte of
/// the result back.
pub open spec fn step_alu_al_imm8(c1: CpuV, op: Operation) -> (CpuV, Outcome) {
    let op1 = sign_extend_s(read8_s(c1, ax_ptr()));
    let (c2, b) = fetch8_s(c1);
    let op2 = sign_extend_s(b);
    let c3 = alu_flags_s(c2, op, op1, op2);
    let r = alu_out(op, c2.cf, op1, op2);
    if op == Operation::Cmp {
        (c3, Outcome::Running)
    } else {
        (write8_s(c3, ax_ptr(), lo_byte(r)), Outcome::Running)
    }
}

/// 8-bit register-to-r/m AND: operands sign-extended, low byte of the result
/// stored back into the r/m operand.
pub open spec fn step_and_rm8(c1: CpuV) -> (CpuV, Outcome) {
    let (c2, dec) = read_mod_rm_s(c1);
    match dec {
        Some((rm, rg)) => {
            let op1 = sign_extend_s(read8_s(c2, rm));
            let op2 = sign_extend_s(read8_s(c2, reg_ptr(rg)));
            let c3 = alu_flags_s(c2, Operation::And, op1, op2);
            let r = alu_out(Operation::And, c2.cf, op1, op2);
            (write8_s(c3, rm, lo_byte(r)), Outcome::Running)
        }
        None => (c2, Outcome::InvalidAddressing),
    }
}

/// Increment a 16-bit register (wrapping); the zero and sign flags are
/// recomputed, the carry flag is untouched.
pub open spec fn inc_reg_s(c1: CpuV, n: u8) -> CpuV {
    let rg = reg_ptr(n);
    let v = wrap16(read16_s(c1, rg) + 1);
    write16_s(set_flags_s(c1, v), rg, v)
}

/// Decrement a 16-bit register (wrapping); the zero and sign flags are
/// recomputed, the carry flag is untouched.
pub open spec fn dec_reg_s(c1: CpuV, n: u8) -> CpuV {
    let rg = reg_ptr(n);
    let v = wrap16(read16_s(c1, rg) - 1);
    write16_s(set_flags_s(c1, v), rg, v)
}

/// Immediate-to-r/m arithmetic, 8-bit form: r/m operand and immediate both
/// sign-extended, operation chosen by the secondary field, low byte stored.
pub open spec fn step_grp_imm8(c1: CpuV) -> (CpuV, Outcome) {
    let (c2, dec) = read_mod_rm_s(c1);
    match dec {
        Some((rm, g)) => {
            let op = operation_of(g);
            let op1 = sign_extend_s(read8_s(c2, rm));
            let (c3, b) = fetch8_s(c2);
            let op2 = sign_extend_s(b);
            let c4 = alu_flags_s(c3, op, op1, op2);
            let r = alu_out(op, c3.cf, op1, op2);
            (write8_s(c4, rm, lo_byte(r)), Outcome::Running)
        }
        None => (c2, Outcome::InvalidAddressing),
    }
}

/// Immediate-to-r/m arithmetic, 16-bit form.
pub open spec fn step_grp_imm16(c1: CpuV) -> (CpuV, Outcome) {
    let (c2, dec) = read_mod_rm_s(c1);
    match dec {
        Some((rm, g)) => {
            let op = operation_of(g);
            let op1 = read16_s(c2, rm);
            let (c3, w) = fetch16_s(c2);
            let c4 = alu_flags_s(c3, op, op1, w);
            let r = alu_out(op, c3.cf, op1, w);
            (write16_s(c4, rm, r), Outcome::Running)
        }
        None => (c2, Outcome::InvalidAddressing),
    }
}

/// Immediate-to-r/m arithmetic, 16-bit operand with a sign-extended 8-bit
/// immediate.
pub open spec fn step_grp_imm8s(c1: CpuV) -> (CpuV, Outcome) {
    let (c2, dec) = read_mod_rm_s(c1);
    match dec {
        Some((rm, g)) => {
            let op = operation_of(g);
            let op1 = read16_s(c2, rm);
            let (c3, b) = fetch8_s(c2);
            let op2 = sign_extend_s(b);
            let c4 = alu_flags_s(c3, op, op1, op2);
            let r = alu_out(op, c3.cf, op1, op2);
            (write16_s(c4, rm, r), Outcome::Running)
        }
        None => (c2, Outcome::InvalidAddressing),
    }
}

/// Exchange an 8-bit register with an 8-bit r/m operand.
pub open spec fn step_xchg_rm8(c1: CpuV) -> (CpuV, Outcome) {
    let (c2, dec) = read_mod_rm_s(c1);
    match dec {
        Some((rm, rg)) => {
            let a = read8_s(c2, rm);
            let b = read8_s(c2, reg_ptr(rg));
            (write8_s(write8_s(c2, rm, b), reg_ptr(rg), a), Outcome::Running)
        }
        None => (c2, Outcome::InvalidAddressing),
    }
}

/// The four move forms between a register and an r/m operand: 8- or 16-bit,
/// in either direction, selected by the two flags.
pub open spec fn step_mov_rm(c1: CpuV, wide: bool, to_reg: bool) -> (CpuV, Outcome) {
    let (c2, dec) = read_mod_rm_s(c1);
    match dec {
        Some((rm, rg)) => {
            let src = if to_reg { rm } else { reg_ptr(rg) };
            let dst = if to_reg { reg_ptr(rg) } else { rm };
            if wide {
                (write16_s(c2, dst, read16_s(c2, src)), Outcome::Running)
            } else {
                (write8_s(c2, dst, read8_s(c2, src)), Outcome::Running)
            }
        }
        None => (c2, Outcome::InvalidAddressing),
    }
}

/// Exchange a 16-bit register with the accumulator.
pub open spec fn step_xchg_ax(c1: CpuV, n: u8) -> CpuV {
    let a = read16_s(c1, ax_ptr());
    let b = read16_s(c1, reg_ptr(n));
    write16_s(write16_s(c1, ax_ptr(), b), reg_ptr(n), a)
}

/// Relative call: consume the 16-bit offset, push the return address, and
/// add the offset to the instruction pointer (wrapping).
pub open spec fn step_call(c1: CpuV) -> CpuV {
    let (c2, off) = fetch16_s(c1);
    let c3 = push16_s(c2, c2.ip);
    CpuV { ip: wrap16(c2.ip + off), ..c3 }
}

/// Increment or decrement an 8-bit r/m operand, selected by the secondary
/// field; any other field value is a decode failure.
pub open spec fn step_incdec_rm8(c1: CpuV) -> (CpuV, Outcome) {
    let (c2, dec) = read_mod_rm_s(c1);
    match dec {
        Some((rm, g)) => {
            if g == 0 {
                let v = wrap8(read8_s(c2, rm) + 1);
                (write8_s(set_flags_s(c2, sign_extend_s(v)), rm, v), Outcome::Running)
            } else if g == 1 {
                let v = wrap8(read8_s(c2, rm) - 1);
                (write8_s(set_flags_s(c2, sign_extend_s(v)), rm, v), Outcome::Running)
            } else {
                (c2, Outcome::InvalidAddressing)
            }
        }
        None => (c2, Outcome::InvalidAddressing),
    }
}

/// One whole execution step: fetch the opcode byte at the instruction
/// pointer, advance past it, and apply the matching instruction semantics.
/// The halt opcode and any opcode outside the supported table stop
/// execution; everything else reports `Running`.
pub open spec fn step_s(c: CpuV) -> (CpuV, Outcome) {
    let (c1, opcode) = fetch8_s(c);
    if opcode == 0x01 || opcode == 0x09 || opcode == 0x19 || opcode == 0x29 || opcode == 0x31
        || opcode == 0x39 {
        step_alu_rm16(c1, binop_of(opcode))
    } else if opcode == 0x04 {
        step_alu_al_imm8(c1, Operation::Add)
    } else if opcode == 0x20 {
        step_and_rm8(c1)
    } else if opcode == 0x3c {
        step_alu_al_imm8(c1, Operation::Cmp)
    } else if 0x40 <= opcode && opcode <= 0x47 {
        (inc_reg_s(c1, opcode), Outcome::Running)
    } else if 0x48 <= opcode && opcode <= 0x4f {
        (dec_reg_s(c1, opcode), Outcome::Running)
    } else if 0x50 <= opcode && opcode <= 0x57 {
        (push16_s(c1, read16_s(c1, reg_ptr(opcode))), Outcome::Running)
    } else if 0x58 <= opcode && opcode <= 0x5f {
        let (c2, v) = pop16_s(c1);
        (write16_s(c2, reg_ptr(opcode), v), Outcome::Running)
    } else if opcode == 0x72 {
        (jump_short_s(c1, c1.cf), Outcome::Running)
    } else if opcode == 0x74 {
        (jump_short_s(c1, c1.zf), Outcome::Running)
    } else if opcode == 0x75 {
        (jump_short_s(c1, !c1.zf), Outcome::Running)
    } else if opcode == 0x76 {
        (jump_short_s(c1, c1.cf || c1.zf), Outcome::Running)
    } else if opcode == 0x77 {
        (jump_short_s(c1, !c1.cf && !c1.zf), Outcome::Running)
    } else if opcode == 0x79 {
        (jump_short_s(c1, !c1.sf), Outcome::Running)
    } else if opcode == 0x80 {
        step_grp_imm8(c1)
    } else if opcode == 0x81 {
        step_grp_imm16(c1)
    } else if opcode == 0x83 {
        step_grp_imm8s(c1)
    } else if opcode == 0x86 {
        step_xchg_rm8(c1)
    } else if opcode == 0x88 {
        step_mov_rm(c1, false, false)
    } else if opcode == 0x89 {
        step_mov_rm(c1, true, false)
    } else if opcode == 0x8a {
        step_mov_rm(c1, false, true)
    } else if opcode == 0x8b {
        step_mov_rm(c1, true, true)
    } else if opcode == 0x90 {
        (c1, Outcome::Running)
    } else if 0x91 <= opcode && opcode <= 0x97 {
        (step_xchg_ax(c1, opcode), Outcome::Running)
    } else if 0xb0 <= opcode && opcode <= 0xb7 {
        let (c2, b) = fetch8_s(c1);
        (write8_s(c2, reg_ptr(opcode), b), Outcome::Running)
    } else if 0xb8 <= opcode && opcode <= 0xbf {
        let (c2, w) = fetch16_s(c1);
        (write16_s(c2, reg_ptr(opcode), w), Outcome::Running)
    } else if opcode == 0xc3 {
        let (c2, v) = pop16_s(c1);
        (CpuV { ip: v, ..c2 }, Outcome::Running)
    } else if opcode == 0xc7 {
        let (c2, dec) = read_mod_rm_s(c1);
        match dec {
            Some((rm, g)) => {
                let (c3, w) = fetch16_s(c2);
                (write16_s(c3, rm, w), Outcome::Running)
            }
            None => (c2, Outcome::InvalidAddressing),
        }
    } else if opcode == 0xe8 {
        (step_call(c1), Outcome::Running)
    } else if opcode == 0xeb {
        (jump_short_s(c1, true), Outcome::Running)
    } else if opcode == 0xf4 {
        (c1, Outcome::Halted)
    } else if opcode == 0xf9 {
        (CpuV { cf: true, ..c1 }, Outcome::Running)
    } else if opcode == 0xfe {
        step_incdec_rm8(c1)
    } else {
        (c1, Outcome::UnsupportedOpcode(opcode))
    }
}

/// The byte shown for one cell of the display window: a zero byte renders
/// as a space, any other byte as itself.
pub open spec fn window_byte(c: CpuV, i: int) -> u8 {
    if c.memory[0x8000 + i] == 0 {
        32u8
    } else {
        c.memory[0x8000 + i]
    }
}

impl Cpu {
    /// Execute one fetch-decode-execute step, exactly as `step_s` describes
    /// it: the returned outcome says whether to keep stepping, and why not.
    pub fn run(&mut self) -> (r: Outcome)
        requires
            cpu_wf(old(self)@),
        ensures
            cpu_wf(final(self)@),
            final(self)@ == step_s(old(self)@).0,
            r == step_s(old(self)@).1,
    {
        let opcode = self.read_instr8();
        match opcode {
            0x01 | 0x09 | 0x19 | 0x29 | 0x31 | 0x39 => {
                // 16-bit register to 16-bit r/m
                let operation = match opcode {
                    0x01 => Operation::Add,
                    0x09 => Operation::Or,
                    0x19 => Operation::Sbb,
                    0x29 => Operation::Sub,
                    0x31 => Operation::Xor,
                    _ => Operation::Cmp,
                };
                match self.read_mod_rm() {
                    Some((rm, rg)) => {
                        let rgp = Cpu::get_register(rg);
                        let op1 = self.read16(&rm);
                        let op2 = self.read16(&rgp);
                        let result = self.alu(operation, op1, op2);
                        self.write16(&rm, result);
                        Outcome::Running
                    }
                    None => Outcome::InvalidAddressing,
                }
            }
            0x04 => {
                // add 8-bit immediate to the accumulator's low byte
                let op1 = Cpu::sign_extend(self.read8(&Cpu::get_register(0)));
                let op2 = Cpu::sign_extend(self.read_instr8());
                let result = self.alu(Operation::Add, op1, op2);
                self.write8(&Cpu::get_register(0), (result % 0x100) as u8);
                Outcome::Running
            }
            0x20 => {
                // 8-bit register to 8-bit r/m AND
                match self.read_mod_rm() {
                    Some((rm, rg)) => {
                        let rgp = Cpu::get_register(rg);
                        let op1 = Cpu::sign_extend(self.read8(&rm));
                        let op2 = Cpu::sign_extend(self.read8(&rgp));
                        let result = self.alu(Operation::And, op1, op2);
                        self.write8(&rm, (result % 0x100) as u8);
                        Outcome::Running
                    }
                    None => Outcome::InvalidAddressing,
                }
            }
            0x3c => {
                // compare 8-bit immediate with the accumulator's low byte
                let op1 = Cpu::sign_extend(self.read8(&Cpu::get_register(0)));
                let op2 = Cpu::sign_extend(self.read_instr8());
                self.alu(Operation::Cmp, op1, op2);
                Outcome::Running
            }
            0x40..=0x47 => {
                // increment 16-bit register
                let rg = Cpu::get_register(opcode);
                let v = self.read16(&rg);
                let value = wadd16(v, 1);
                self.set_flags(&value);
                self.write16(&rg, value);
                Outcome::Running
            }
            0x48..=0x4f => {
                // decrement 16-bit register
                let rg = Cpu::get_register(opcode);
                let v = self.read16(&rg);
                let value = wsub16(v, 1);
                self.set_flags(&value);
                self.write16(&rg, value);
                Outcome::Running
            }
            0x50..=0x57 => {
                // push 16-bit register
                let rg = Cpu::get_register(opcode);
                let value = self.read16(&rg);
                self.push16(value);
                Outcome::Running
            }
            0x58..=0x5f => {
                // pop 16-bit register
                let rg = Cpu::get_register(opcode);
                let value = self.pop16();
                self.write16(&rg, value);
                Outcome::Running
            }
            0x72 => {
                // jump short if carry
                let cond = self.cf;
                self.jump_short(cond);
                Outcome::Running
            }
            0x74 => {
                // jump short if zero
                let cond = self.zf;
                self.jump_short(cond);
                Outcome::Running
            }
            0x75 => {
                // jump short if not zero
                let cond = !self.zf;
                self.jump_short(cond);
                Outcome::Running
            }
            0x76 => {
                // jump short if below or equal
                let cond = self.cf || self.zf;
                self.jump_short(cond);
                Outcome::Running
            }
            0x77 => {
                // jump short if not below or equal
                let cond = !self.cf && !self.zf;
                self.jump_short(cond);
                Outcome::Running
            }
            0x79 => {
                // jump short if not sign
                let cond = !self.sf;
                self.jump_short(cond);
                Outcome::Running
            }
            0x80 => {
                // 8-bit immediate arithmetic
                match self.read_mod_rm() {
                    Some((rm, operation)) => {
                        let op1 = Cpu::sign_extend(self.read8(&rm));
                        let op2 = Cpu::sign_extend(self.read_instr8());
                        let op = Operation::from_u8(operation).unwrap();
                        let result = self.alu(op, op1, op2);
                        self.write8(&rm, (result % 0x100) as u8);
                        Outcome::Running
                    }
                    None => Outcome::InvalidAddressing,
                }
            }
            0x81 => {
                // 16-bit immediate arithmetic
                match self.read_mod_rm() {
                    Some((rm, operation)) => {
                        let op1 = self.read16(&rm);
                        let op2 = self.read_instr16();
                        let op = Operation::from_u8(operation).unwrap();
                        let result = self.alu(op, op1, op2);
                        self.write16(&rm, result);
                        Outcome::Running
                    }
                    None => Outcome::InvalidAddressing,
                }
            }
            0x83 => {
                // 16-bit arithmetic with a sign-extended 8-bit immediate
                match self.read_mod_rm() {
                    Some((rm, operation)) => {
                        let op1 = self.read16(&rm);
                        let op2 = Cpu::sign_extend(self.read_instr8());
                        let op = Operation::from_u8(operation).unwrap();
                        let result = self.alu(op, op1, op2);
                        self.write16(&rm, result);
                        Outcome::Running
                    }
                    None => Outcome::InvalidAddressing,
                }
            }
            0x86 => {
                // exchange 8-bit register with 8-bit r/m
                match self.read_mod_rm() {
                    Some((rm, rg)) => {
                        let rgp = Cpu::get_register(rg);
                        let a = self.read8(&rm);
                        let b = self.read8(&rgp);
                        self.write8(&rm, b);
                        self.write8(&rgp, a);
                        Outcome::Running
                    }
                    None => Outcome::InvalidAddressing,
                }
            }
            0x88 => {
                // move 8-bit register to 8-bit r/m
                match self.read_mod_rm() {
                    Some((rm, rg)) => {
                        let rgp = Cpu::get_register(rg);
                        let value = self.read8(&rgp);
                        self.write8(&rm, value);
                        Outcome::Running
                    }
                    None => Outcome::InvalidAddressing,
                }
            }
            0x89 => {
                // move 16-bit register to 16-bit r/m
                match self.read_mod_rm() {
                    Some((rm, rg)) => {
                        let rgp = Cpu::get_register(rg);
                        let value = self.read16(&rgp);
                        self.write16(&rm, value);
                        Outcome::Running
                    }
                    None => Outcome::InvalidAddressing,
                }
            }
            0x8a => {
                // move 8-bit r/m to 8-bit register
                match self.read_mod_rm() {
                    Some((rm, rg)) => {
                        let rgp = Cpu::get_register(rg);
                        let value = self.read8(&rm);
                        self.write8(&rgp, value);
                        Outcome::Running
                    }
                    None => Outcome::InvalidAddressing,
                }
            }
            0x8b => {
                // move 16-bit r/m to 16-bit register
                match self.read_mod_rm() {
                    Some((rm, rg)) => {
                        let rgp = Cpu::get_register(rg);
                        let value = self.read16(&rm);
                        self.write16(&rgp, value);
                        Outcome::Running
                    }
                    None => Outcome::InvalidAddressing,
                }
            }
            0x90 => {
                // no-op
                Outcome::Running
            }
            0x91..=0x97 => {
                // exchange 16-bit register with the accumulator
                let rg = Cpu::get_register(opcode);
                let a = self.read16(&Cpu::get_register(0));
                let b = self.read16(&rg);
                self.write16(&Cpu::get_register(0), b);
                self.write16(&rg, a);
                Outcome::Running
            }
            0xb0..=0xb7 => {
                // move 8-bit immediate into a register's low byte
                let rg = Cpu::get_register(opcode);
                let value = self.read_instr8();
                self.write8(&rg, value);
                Outcome::Running
            }
            0xb8..=0xbf => {
                // move 16-bit immediate to 16-bit register
                let rg = Cpu::get_register(opcode);
                let value = self.read_instr16();
                self.write16(&rg, value);
                Outcome::Running
            }
            0xc3 => {
                // return near
                let value = self.pop16();
                self.ip = value;
                Outcome::Running
            }
            0xc7 => {
                // move 16-bit immediate to 16-bit r/m
                match self.read_mod_rm() {
                    Some((rm, _)) => {
                        let value = self.read_instr16();
                        self.write16(&rm, value);
                        Outcome::Running
                    }
                    None => Outcome::InvalidAddressing,
                }
            }
            0xe8 => {
                // call relative
                let offset = self.read_instr16();
                let ret = self.ip;
                self.push16(ret);
                self.ip = wadd16(ret, offset);
                Outcome::Running
            }
            0xeb => {
                // jump short relative
                self.jump_short(true);
                Outcome::Running
            }
            0xf4 => {
                // halt
                Outcome::Halted
            }
            0xf9 => {
                // set carry flag
                self.cf = true;
                Outcome::Running
            }
            0xfe => {
                // increment or decrement 8-bit r/m
                match self.read_mod_rm() {
                    Some((rm, md)) => {
                        if md == 0 {
                            let v = self.read8(&rm);
                            let value = wadd8(v, 1);
                            let ext = Cpu::sign_extend(value);
                            self.set_flags(&ext);
                            self.write8(&rm, value);
                            Outcome::Running
                        } else if md == 1 {
                            let v = self.read8(&rm);
                            let value = wsub8(v, 1);
                            let ext = Cpu::sign_extend(value);
                            self.set_flags(&ext);
                            self.write8(&rm, value);
                            Outcome::Running
                        } else {
                            Outcome::InvalidAddressing
                        }
                    }
                    None => Outcome::InvalidAddressing,
                }
            }
            _ => Outcome::UnsupportedOpcode(opcode),
        }
    }

    /// The fixed 80x25 display window at memory address 0x8000, row-major:
    /// 2000 bytes, one per cell, zero bytes rendered as spaces.
    pub fn render_window(&self) -> (r: Vec<u8>)
        requires
            cpu_wf(self@),
        ensures
            r@.len() == 2000,
            forall|i: int| 0 <= i < 2000 ==> r@[i] == window_byte(self@, i),
    {
        let mut out: Vec<u8> = Vec::new();
        let mut i: usize = 0;
        while i < 2000
            invariant
                cpu_wf(self@),
                out@.len() == i,
                i <= 2000,
                forall|j: int| 0 <= j < i ==> out@[j] == window_byte(self@, j),
            decreases 2000 - i,
        {
            let b = self.memory[0x8000 + i];
            if b == 0 {
                out.push(32);
            } else {
                out.push(b);
            }
            i += 1;
        }
        out
    }
}

} // verus!
