//! RR, RRC, RRA and RRCA: rotations to the right.
use vstd::prelude::*;

use crate::cpu::instructions::{codes, flag_from, flag_state, outcome, ConditionCodes, FlagState, InstructionResult};
use crate::cpu::registers::{Register16Bit, Register8Bit};
use crate::cpu::{CpuView, CPU};
use crate::mmu::MemoryOperations;

verus! {

/// Bitmask of the bit that is shifted into the carry.
pub const SHIFT_INTO_CARRY_R: u8 = 0b0000_0001;

/// Rotate `value` right by one bit. Bit 0 goes to the carry; bit 7 receives
/// the old carry (`through_carry`) or bit 0 (otherwise). Z is cleared only
/// when `set_zero` holds and the result is not 0; otherwise it is set.
pub open spec fn rotate_right(value: u8, carry: bool, through_carry: bool, set_zero: bool) -> (ConditionCodes, u8) {
    let new_carry = value & 1;
    let shift_into_result: u8 = if through_carry && carry || !through_carry && new_carry != 0 { 128 } else { 0 };
    let result = (value >> 1u8) | shift_into_result;
    (
        codes(
            flag_state(!(result != 0 && set_zero)),
            FlagState::Unset,
            FlagState::Unset,
            flag_state(new_carry != 0),
        ),
        result,
    )
}

impl CpuView {
    /// Rotate an 8-bit register right.
    pub open spec fn rr_x_r8(self, target: Register8Bit, through_carry: bool, set_zero: bool) -> (CpuView, ConditionCodes) {
        let (cc, result) = rotate_right(self.reg8(target), self.carry_flag(), through_carry, set_zero);
        (self.set_reg8(target, result), cc)
    }

    /// Rotate the byte addressed by a 16-bit register right.
    pub open spec fn rr_x_hl(self, target: Register16Bit, through_carry: bool, set_zero: bool) -> (CpuView, ConditionCodes) {
        let address = self.reg16(target);
        let (cc, result) = rotate_right(self.read(address), self.carry_flag(), through_carry, set_zero);
        (self.write(address, result), cc)
    }

    /// RR r8 / RRC r8 (2 cycles, 2 bytes).
    pub open spec fn op_rr_r8(self, target: Register8Bit, through_carry: bool) -> (CpuView, InstructionResult) {
        let (s, cc) = self.rr_x_r8(target, through_carry, true);
        (s, outcome(2, 2, cc))
    }

    /// RR [r16] / RRC [r16] (4 cycles, 2 bytes).
    pub open spec fn op_rr_hl(self, target: Register16Bit, through_carry: bool) -> (CpuView, InstructionResult) {
        let (s, cc) = self.rr_x_hl(target, through_carry, true);
        (s, outcome(4, 2, cc))
    }

    /// RRA / RRCA (1 cycle, 1 byte).
    pub open spec fn op_rr_a(self, through_carry: bool) -> (CpuView, InstructionResult) {
        let (s, cc) = self.rr_x_r8(Register8Bit::A, through_carry, false);
        (s, outcome(1, 1, cc))
    }
}

impl CPU {
    fn rr_u8(&mut self, value: u8, throug_carry: bool, set_zero: bool) -> (r: (ConditionCodes, u8))
        ensures
            final(self)@ == old(self)@,
            r == rotate_right(value, old(self)@.carry_flag(), throug_carry, set_zero),
    {
        let new_carry = value & SHIFT_INTO_CARRY_R;
        let shift_into_result: u8 = if throug_carry && self.is_carry_flag_set() || !throug_carry && new_carry != 0 {
            128
        } else {
            0
        };
        let result = (value >> 1u8) | shift_into_result;
        (
            ConditionCodes {
                zero: flag_from(!(result != 0 && set_zero)),
                subtract: FlagState::Unset,
                half_carry: FlagState::Unset,
                carry: flag_from(new_carry != 0),
            },
            result,
        )
    }

    fn rr_x_r8(&mut self, target: Register8Bit, through_carry: bool, set_zero: bool) -> (r: ConditionCodes)
        ensures
            final(self)@ == old(self)@.rr_x_r8(target, through_carry, set_zero).0,
            r == old(self)@.rr_x_r8(target, through_carry, set_zero).1,
    {
        let value = self.get_8bit_register(target);
        let (condition_codes_result, result) = self.rr_u8(value, through_carry, set_zero);
        self.set_8bit_register(target, result);
        condition_codes_result
    }

    fn rr_x_hl(&mut self, target: Register16Bit, through_carry: bool, set_zero: bool) -> (r: ConditionCodes)
        ensures
            final(self)@ == old(self)@.rr_x_hl(target, through_carry, set_zero).0,
            r == old(self)@.rr_x_hl(target, through_carry, set_zero).1,
    {
        let mem_addr = self.get_16bit_register(target);
        let value = self.mmu.read_byte(mem_addr);
        let (condition_codes_result, result) = self.rr_u8(value, through_carry, set_zero);
        self.mmu.write_byte(mem_addr, result);
        condition_codes_result
    }

    /// RR r8: rotate an 8-bit register right through the carry.
    pub fn rr_r8(&mut self, target: Register8Bit) -> (r: InstructionResult)
        ensures
            final(self)@ == old(self)@.op_rr_r8(target, true).0,
            r == old(self)@.op_rr_r8(target, true).1,
    {
        InstructionResult { cycles: 2, bytes: 2, condition_codes: self.rr_x_r8(target, true, true) }
    }

    /// RR [r16]: rotate the byte addressed by `target` right through the carry.
    pub fn rr_hl(&mut self, target: Register16Bit) -> (r: InstructionResult)
        ensures
            final(self)@ == old(self)@.op_rr_hl(target, true).0,
            r == old(self)@.op_rr_hl(target, true).1,
    {
        InstructionResult { cycles: 4, bytes: 2, condition_codes: self.rr_x_hl(target, true, true) }
    }

    /// RRA: rotate A right through the carry.
    pub fn rr_a(&mut self) -> (r: InstructionResult)
        ensures
            final(self)@ == old(self)@.op_rr_a(true).0,
            r == old(self)@.op_rr_a(true).1,
    {
        InstructionResult { cycles: 1, bytes: 1, condition_codes: self.rr_x_r8(Register8Bit::A, true, false) }
    }

    /// RRC r8: rotate an 8-bit register right; bit 0 goes to bit 7 and the carry.
    pub fn rr_c_r8(&mut self, target: Register8Bit) -> (r: InstructionResult)
        ensures
            final(self)@ == old(self)@.op_rr_r8(target, false).0,
            r == old(self)@.op_rr_r8(target, false).1,
    {
        InstructionResult { cycles: 2, bytes: 2, condition_codes: self.rr_x_r8(target, false, true) }
    }

    /// RRC [r16]: rotate the byte addressed by `target` right; bit 0 goes to bit 7 and the carry.
    pub fn rr_c_hl(&mut self, target: Register16Bit) -> (r: InstructionResult)
        ensures
            final(self)@ == old(self)@.op_rr_hl(target, false).0,
            r == old(self)@.op_rr_hl(target, false).1,
    {
        InstructionResult { cycles: 4, bytes: 2, condition_codes: self.rr_x_hl(target, false, true) }
    }

    /// RRCA: rotate A right; bit 0 goes to bit 7 and the carry.
    pub fn rr_c_a(&mut self) -> (r: InstructionResult)
        ensures
            final(self)@ == old(self)@.op_rr_a(false).0,
            r == old(self)@.op_rr_a(false).1,
    {
        InstructionResult { cycles: 1, bytes: 1, condition_codes: self.rr_x_r8(Register8Bit::A, false, false) }
    }
}

} // verus!
