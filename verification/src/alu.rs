//! The arithmetic/logic unit: the eight operations, their 16-bit wraparound
//! results, and the carry/zero/sign flag effects.

use crate::state::{set_flags_s, wrap16, Cpu, CpuV};
use vstd::prelude::*;

verus! {

/// The eight arithmetic/logical operations, selected by a 3-bit code.
#[derive(Clone, Copy, Debug, PartialEq, Eq, Structural)]
pub enum Operation {
    Add,
    Or,
    Adc,
    Sbb,
    And,
    Sub,
    Xor,
    Cmp,
}

/// The operation a 3-bit code selects, in the fixed numeric order of the
/// instruction set.
pub open spec fn operation_of(v: u8) -> Operation {
    if v == 0 {
        Operation::Add
    } else if v == 1 {
        Operation::Or
    } else if v == 2 {
        Operation::Adc
    } else if v == 3 {
        Operation::Sbb
    } else if v == 4 {
        Operation::And
    } else if v == 5 {
        Operation::Sub
    } else if v == 6 {
        Operation::Xor
    } else {
        Operation::Cmp
    }
}

/// The operation named by a numeric code: exactly the codes 0 through 7
/// select an operation; every larger code is rejected.
pub open spec fn operation_from(v: u8) -> Option<Operation> {
    if v < 8 {
        Some(operation_of(v))
    } else {
        None
    }
}

/// The 16-bit result an operation computes: wraparound arithmetic, with the
/// incoming carry flag feeding the with-carry and with-borrow forms, and
/// plain bitwise results for the logical forms. Compare computes the same
/// subtraction as Sub; what it reports to callers is `alu_out`.
pub open spec fn alu_result(op: Operation, cf: bool, op1: u16, op2: u16) -> u16 {
    match op {
        Operation::Add => wrap16(op1 + op2),
        Operation::Adc => wrap16(op1 + op2 + if cf { 1int } else { 0int }),
        Operation::Or => op1 | op2,
        Operation::Sbb => wrap16(op1 - op2 - if cf { 1int } else { 0int }),
        Operation::And => op1 & op2,
        Operation::Sub => wrap16(op1 - op2),
        Operation::Xor => op1 ^ op2,
        Operation::Cmp => wrap16(op1 - op2),
    }
}

/// The carry flag after an operation: unsigned overflow detection on the add
/// forms (the wrapped result is numerically less than the first operand),
/// unsigned borrow detection on the subtract forms (the wrapped result is
/// numerically greater), and always clear on the bitwise forms.
pub open spec fn alu_cf(op: Operation, cf: bool, op1: u16, op2: u16) -> bool {
    match op {
        Operation::Add | Operation::Adc => alu_result(op, cf, op1, op2) < op1,
        Operation::Sub | Operation::Sbb | Operation::Cmp => alu_result(op, cf, op1, op2) > op1,
        Operation::And | Operation::Or | Operation::Xor => false,
    }
}

/// The value an operation hands back to its caller: the computed result,
/// except compare, which reports its first operand unchanged and keeps only
/// the flag effects of the subtraction.
pub open spec fn alu_out(op: Operation, cf: bool, op1: u16, op2: u16) -> u16 {
    if op == Operation::Cmp {
        op1
    } else {
        alu_result(op, cf, op1, op2)
    }
}

/// The full flag effect of one operation on the state: the carry flag from
/// the operation, and the zero and sign flags recomputed from its result.
pub open spec fn alu_flags_s(c: CpuV, op: Operation, op1: u16, op2: u16) -> CpuV {
    set_flags_s(
        CpuV { cf: alu_cf(op, c.cf, op1, op2), ..c },
        alu_result(op, c.cf, op1, op2),
    )
}

impl Operation {
    /// Numeric-to-variant conversion; fails predictably for codes 8 and up.
    pub fn from_u8(v: u8) -> (r: Option<Operation>)
        ensures
            r == operation_from(v),
    {
        match v {
            0 => Some(Operation::Add),
            1 => Some(Operation::Or),
            2 => Some(Operation::Adc),
            3 => Some(Operation::Sbb),
            4 => Some(Operation::And),
            5 => Some(Operation::Sub),
            6 => Some(Operation::Xor),
            7 => Some(Operation::Cmp),
            _ => None,
        }
    }
}

impl Cpu {
    /// Recompute the zero and sign flags from a 16-bit result; nothing else
    /// changes.
    pub fn set_flags(&mut self, value: &u16)
        ensures
            final(self)@ == set_flags_s(old(self)@, *value),
    {
        self.zf = *value == 0;
        self.sf = *value >= 0x8000;
    }

    /// The arithmetic/logic unit: compute one of the eight operations on
    /// 16-bit operands, update the three flags, and return the value the
    /// instruction should store.
    pub fn alu(&mut self, operation: Operation, op1: u16, op2: u16) -> (r: u16)
        ensures
            final(self)@ == alu_flags_s(old(self)@, operation, op1, op2),
            r == alu_out(operation, old(self)@.cf, op1, op2),
    {
        let result: u16 = match operation {
            Operation::Add | Operation::Adc => {
                let carry: u32 = if operation == Operation::Adc && self.cf {
                    1
                } else {
                    0
                };
                let res = ((op1 as u32 + op2 as u32 + carry) % 0x10000) as u16;
                self.cf = res < op1;
                res
            }
            Operation::Sub | Operation::Sbb | Operation::Cmp => {
                let borrow: u32 = if operation == Operation::Sbb && self.cf {
                    1
                } else {
                    0
                };
                proof {
                    vstd::arithmetic::div_mod::lemma_mod_add_multiples_vanish(
                        op1 - op2 - (if operation == Operation::Sbb && old(self)@.cf {
                            1int
                        } else {
                            0int
                        }),
                        0x10000,
                    );
                }
                let res = ((0x10000 + op1 as u32 - op2 as u32 - borrow) % 0x10000) as u16;
                self.cf = res > op1;
                res
            }
            Operation::And => {
                self.cf = false;
                op1 & op2
            }
            Operation::Or => {
                self.cf = false;
                op1 | op2
            }
            Operation::Xor => {
                self.cf = false;
                op1 ^ op2
            }
        };
        self.set_flags(&result);
        if operation == Operation::Cmp {
            op1
        } else {
            result
        }
    }
}

} // verus!
