//! XOR.
use vstd::prelude::*;

use crate::cpu::instructions::{codes, flag_from, flag_state, outcome, ConditionCodes, FlagState, InstructionResult};
use crate::cpu::registers::Register8Bit;
use crate::cpu::{CpuView, CPU};

verus! {

impl CpuView {
    /// A := A ^ value; Z from the result, N, H and C cleared.
    pub open spec fn op_xor(self, value: u8, cycles: u8, bytes: u8) -> (CpuView, InstructionResult) {
        let result = self.reg8(Register8Bit::A) ^ value;
        (
            self.set_reg8(Register8Bit::A, result),
            outcome(cycles, bytes, codes(flag_state(result == 0), FlagState::Unset, FlagState::Unset, FlagState::Unset)),
        )
    }
}

impl CPU {
    /// XOR A,value: bitwise XOR of `value` into A.
    pub fn xor(&mut self, value: u8, cycles: u8, bytes: u8) -> (r: InstructionResult)
        ensures
            final(self)@ == old(self)@.op_xor(value, cycles, bytes).0,
            r == old(self)@.op_xor(value, cycles, bytes).1,
    {
        let a = self.get_8bit_register(Register8Bit::A);
        let result = a ^ value;
        self.set_8bit_register(Register8Bit::A, result);
        InstructionResult {
            cycles,
            bytes,
            condition_codes: ConditionCodes {
                zero: flag_from(result == 0),
                subtract: FlagState::Unset,
                half_carry: FlagState::Unset,
                carry: FlagState::Unset,
            },
        }
    }
}

} // verus!
