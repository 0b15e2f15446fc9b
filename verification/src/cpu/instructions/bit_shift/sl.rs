//! SLA: arithmetic shift to the left.
use vstd::prelude::*;

use crate::cpu::instructions::{codes, flag_from, flag_state, outcome, ConditionCodes, FlagState, InstructionResult};
use crate::cpu::registers::{Register16Bit, Register8Bit};
use crate::cpu::{CpuView, CPU};
use crate::mmu::MemoryOperations;

verus! {

/// Shift `value` left by one bit: bit 7 goes to the carry, bit 0 becomes 0.
pub open spec fn shift_left(value: u8) -> (ConditionCodes, u8) {
    let new_carry = value & 0x80;
    let result = value << 1u8;
    (codes(flag_state(result == 0), FlagState::Unset, FlagState::Unset, flag_state(new_carry != 0)), result)
}

impl CpuView {
    /// SLA r8.
    pub open spec fn op_sla_r8(self, target: Register8Bit) -> (CpuView, InstructionResult) {
        let (cc, result) = shift_left(self.reg8(target));
        (self.set_reg8(target, result), outcome(2, 2, cc))
    }

    /// SLA [HL].
    pub open spec fn op_sla_hl(self) -> (CpuView, InstructionResult) {
        let (cc, result) = shift_left(self.read(self.hl()));
        (self.write(self.hl(), result), outcome(4, 2, cc))
    }
}

impl CPU {
    fn sl_u8(&mut self, value: u8) -> (r: (ConditionCodes, u8))
        ensures
            final(self)@ == old(self)@,
            r == shift_left(value),
    {
        let shift_into_carry_l: u8 = 0b1000_0000;
        let new_carry = value & shift_into_carry_l;
        let result = value << 1u8;
        (
            ConditionCodes {
                zero: flag_from(result == 0),
                subtract: FlagState::Unset,
                half_carry: FlagState::Unset,
                carry: flag_from(new_carry != 0),
            },
            result,
        )
    }

    /// SLA r8: shift an 8-bit register left.
    pub fn sla_r8(&mut self, target: Register8Bit) -> (r: InstructionResult)
        ensures
            final(self)@ == old(self)@.op_sla_r8(target).0,
            r == old(self)@.op_sla_r8(target).1,
    {
        let value = self.get_8bit_register(target);
        let (condition_codes_result, result) = self.sl_u8(value);
        self.set_8bit_register(target, result);
        InstructionResult { cycles: 2, bytes: 2, condition_codes: condition_codes_result }
    }

    /// SLA [HL]: shift the byte at [HL] left.
    pub fn sla_hl(&mut self) -> (r: InstructionResult)
        ensures
            final(self)@ == old(self)@.op_sla_hl().0,
            r == old(self)@.op_sla_hl().1,
    {
        let mem_addr = self.get_16bit_register(Register16Bit::HL);
        let value = self.mmu.read_byte(mem_addr);
        let (condition_codes_result, result) = self.sl_u8(value);
        self.mmu.write_byte(mem_addr, result);
        InstructionResult { cycles: 4, bytes: 2, condition_codes: condition_codes_result }
    }
}

} // verus!
