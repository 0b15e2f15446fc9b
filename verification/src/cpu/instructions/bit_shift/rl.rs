//! RL, RLC, RLA and RLCA: rotations to the left.
use vstd::prelude::*;

use crate::cpu::instructions::{codes, flag_from, flag_state, outcome, ConditionCodes, FlagState, InstructionResult};
use crate::cpu::registers::{Register16Bit, Register8Bit};
use crate::cpu::{CpuView, CPU};
use crate::mmu::MemoryOperations;

verus! {

/// Rotate `value` left by one bit. Bit 7 goes to the carry; bit 0 receives
/// the old carry (`through_carry`) or bit 7 (otherwise). Z is set only when
/// `set_zero` holds and the result is 0.
pub open spec fn rotate_left(value: u8, carry: bool, through_carry: bool, set_zero: bool) -> (ConditionCodes, u8) {
    let new_carry = value & 0x80;
    let shift_into_result: u8 = if through_carry && carry || !through_carry && new_carry != 0 { 1 } else { 0 };
    let result = (value << 1u8) | shift_into_result;
    (
        codes(
            flag_state(set_zero && result == 0),
            FlagState::Unset,
            FlagState::Unset,
            flag_state(new_carry != 0),
        ),
        result,
    )
}

impl CpuView {
    /// Rotate an 8-bit register left.
    pub open spec fn rl_x_r8(self, target: Register8Bit, through_carry: bool, set_zero: bool) -> (CpuView, ConditionCodes) {
        let (cc, result) = rotate_left(self.reg8(target), self.carry_flag(), through_carry, set_zero);
        (self.set_reg8(target, result), cc)
    }

    /// Rotate the byte at [HL] left.
    pub open spec fn rl_x_hl(self, through_carry: bool, set_zero: bool) -> (CpuView, ConditionCodes) {
        let (cc, result) = rotate_left(self.read(self.hl()), self.carry_flag(), through_carry, set_zero);
        (self.write(self.hl(), result), cc)
    }

    /// RL r8 / RLC r8 (2 cycles, 2 bytes).
    pub open spec fn op_rl_r8(self, target: Register8Bit, through_carry: bool) -> (CpuView, InstructionResult) {
        let (s, cc) = self.rl_x_r8(target, through_carry, true);
        (s, outcome(2, 2, cc))
    }

    /// RL [HL] / RLC [HL] (4 cycles, 2 bytes).
    pub open spec fn op_rl_hl(self, through_carry: bool) -> (CpuView, InstructionResult) {
        let (s, cc) = self.rl_x_hl(through_carry, true);
        (s, outcome(4, 2, cc))
    }

    /// RLA / RLCA (1 cycle, 1 byte, Z cleared).
    pub open spec fn op_rl_a(self, through_carry: bool) -> (CpuView, InstructionResult) {
        let (s, cc) = self.rl_x_r8(Register8Bit::A, through_carry, false);
        (s, outcome(1, 1, cc))
    }
}

impl CPU {
    fn rl_u8(&mut self, value: u8, throug_carry: bool, set_zero: bool) -> (r: (ConditionCodes, u8))
        ensures
            final(self)@ == old(self)@,
            r == rotate_left(value, old(self)@.carry_flag(), throug_carry, set_zero),
    {
        let shift_into_carry_l: u8 = 0b1000_0000;
        let new_carry = value & shift_into_carry_l;
        let shift_into_result: u8 = if throug_carry && self.is_carry_flag_set() || !throug_carry && new_carry != 0 {
            1
        } else {
            0
        };
        let result = (value << 1u8) | shift_into_result;
        (
            ConditionCodes {
                zero: flag_from(set_zero && result == 0),
                subtract: FlagState::Unset,
                half_carry: FlagState::Unset,
                carry: flag_from(new_carry != 0),
            },
            result,
        )
    }

    fn rl_x_r8(&mut self, target: Register8Bit, through_carry: bool, set_zero: bool) -> (r: ConditionCodes)
        ensures
            final(self)@ == old(self)@.rl_x_r8(target, through_carry, set_zero).0,
            r == old(self)@.rl_x_r8(target, through_carry, set_zero).1,
    {
        let value = self.get_8bit_register(target);
        let (condition_codes_result, result) = self.rl_u8(value, through_carry, set_zero);
        self.set_8bit_register(target, result);
        condition_codes_result
    }

    fn rl_x_hl(&mut self, through_carry: bool, set_zero: bool) -> (r: ConditionCodes)
        ensures
            final(self)@ == old(self)@.rl_x_hl(through_carry, set_zero).0,
            r == old(self)@.rl_x_hl(through_carry, set_zero).1,
    {
        let mem_addr = self.get_16bit_register(Register16Bit::HL);
        let value = self.mmu.read_byte(mem_addr);
        let (condition_codes_result, result) = self.rl_u8(value, through_carry, set_zero);
        self.mmu.write_byte(mem_addr, result);
        condition_codes_result
    }

    /// RL r8: rotate an 8-bit register left through the carry.
    pub fn rl_r8(&mut self, target: Register8Bit) -> (r: InstructionResult)
        ensures
            final(self)@ == old(self)@.op_rl_r8(target, true).0,
            r == old(self)@.op_rl_r8(target, true).1,
    {
        InstructionResult { cycles: 2, bytes: 2, condition_codes: self.rl_x_r8(target, true, true) }
    }

    /// RL [HL]: rotate the byte at [HL] left through the carry.
    pub fn rl_hl(&mut self) -> (r: InstructionResult)
        ensures
            final(self)@ == old(self)@.op_rl_hl(true).0,
            r == old(self)@.op_rl_hl(true).1,
    {
        InstructionResult { cycles: 4, bytes: 2, condition_codes: self.rl_x_hl(true, true) }
    }

    /// RLA: rotate A left through the carry; Z is cleared.
    pub fn rl_a(&mut self) -> (r: InstructionResult)
        ensures
            final(self)@ == old(self)@.op_rl_a(true).0,
            r == old(self)@.op_rl_a(true).1,
    {
        InstructionResult { cycles: 1, bytes: 1, condition_codes: self.rl_x_r8(Register8Bit::A, true, false) }
    }

    /// RLC r8: rotate an 8-bit register left; bit 7 goes to bit 0 and the carry.
    pub fn rl_c_r8(&mut self, target: Register8Bit) -> (r: InstructionResult)
        ensures
            final(self)@ == old(self)@.op_rl_r8(target, false).0,
            r == old(self)@.op_rl_r8(target, false).1,
    {
        InstructionResult { cycles: 2, bytes: 2, condition_codes: self.rl_x_r8(target, false, true) }
    }

    /// RLC [HL]: rotate the byte at [HL] left; bit 7 goes to bit 0 and the carry.
    pub fn rl_c_hl(&mut self) -> (r: InstructionResult)
        ensures
            final(self)@ == old(self)@.op_rl_hl(false).0,
            r == old(self)@.op_rl_hl(false).1,
    {
        InstructionResult { cycles: 4, bytes: 2, condition_codes: self.rl_x_hl(false, true) }
    }

    /// RLCA: rotate A left; bit 7 goes to bit 0 and the carry; Z is cleared.
    pub fn rl_c_a(&mut self) -> (r: InstructionResult)
        ensures
            final(self)@ == old(self)@.op_rl_a(false).0,
            r == old(self)@.op_rl_a(false).1,
    {
        InstructionResult { cycles: 1, bytes: 1, condition_codes: self.rl_x_r8(Register8Bit::A, false, false) }
    }
}

} // verus!
