//! SUB and SBC.
use vstd::prelude::*;

use super::cp::{sub8, sub_half_carry};
use crate::cpu::instructions::{codes, flag_from, flag_state, outcome, ConditionCodes, FlagState, InstructionResult};
use crate::cpu::registers::Register8Bit;
use crate::cpu::{CpuView, CPU};

verus! {

impl CpuView {
    /// A := A - value - carry (the carry only for SBC and only when the carry
    /// flag is set). The half carry compares bit 4 of A ^ value with the
    /// result (a borrow into bit 4); the carry is set when value + carry > A
    /// (a borrow out of bit 7).
    pub open spec fn op_sub(self, value: u8, cycles: u8, bytes: u8, add_carry: bool) -> (CpuView, InstructionResult) {
        let a = self.reg8(Register8Bit::A);
        let carry: u8 = if add_carry && self.carry_flag() { 1 } else { 0 };
        let result = sub8(sub8(a, value), carry);
        (
            self.set_reg8(Register8Bit::A, result),
            outcome(cycles, bytes, codes(
                flag_state(result == 0),
                FlagState::Raised,
                flag_state(sub_half_carry(a, value, result)),
                flag_state(value + carry > a),
            )),
        )
    }
}

impl CPU {
    /// SUB / SBC of `value` from A.
    pub fn sub_and_subc(&mut self, value: u8, cycles: u8, bytes: u8, add_carry: bool) -> (r: InstructionResult)
        ensures
            final(self)@ == old(self)@.op_sub(value, cycles, bytes, add_carry).0,
            r == old(self)@.op_sub(value, cycles, bytes, add_carry).1,
    {
        let a = self.get_8bit_register(Register8Bit::A);
        let carry: u8 = if add_carry && self.is_carry_flag_set() { 1 } else { 0 };
        let result = a.wrapping_sub(value).wrapping_sub(carry);
        self.set_8bit_register(Register8Bit::A, result);
        InstructionResult {
            cycles,
            bytes,
            condition_codes: ConditionCodes {
                zero: flag_from(result == 0),
                subtract: FlagState::Raised,
                half_carry: flag_from(((a ^ value) & 0x10) != (result & 0x10)),
                carry: flag_from(value as u16 + carry as u16 > a as u16),
            },
        }
    }
}

} // verus!
