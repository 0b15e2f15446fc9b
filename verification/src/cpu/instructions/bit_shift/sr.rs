//! SRA and SRL: shifts to the right.
use vstd::prelude::*;

use crate::cpu::instructions::{codes, flag_from, flag_state, outcome, ConditionCodes, FlagState, InstructionResult};
use crate::cpu::registers::{Register16Bit, Register8Bit};
use crate::cpu::{CpuView, CPU};
use crate::mmu::MemoryOperations;

verus! {

/// Shift `value` right by one bit: bit 0 goes to the carry; bit 7 keeps its
/// value for an arithmetic shift and becomes 0 for a logical one.
pub open spec fn shift_right(value: u8, shift_arithmetic: bool) -> (ConditionCodes, u8) {
    let new_carry = value & 1;
    let shift_into_result: u8 = if shift_arithmetic && (value & 0x80) != 0 { 128 } else { 0 };
    let result = (value >> 1u8) | shift_into_result;
    (codes(flag_state(result == 0), FlagState::Unset, FlagState::Unset, flag_state(new_carry != 0)), result)
}

impl CpuView {
    /// SRA r8 / SRL r8.
    pub open spec fn op_sr_r8(self, target: Register8Bit, shift_arithmetic: bool) -> (CpuView, InstructionResult) {
        let (cc, result) = shift_right(self.reg8(target), shift_arithmetic);
        (self.set_reg8(target, result), outcome(2, 2, cc))
    }

    /// SRA [HL] / SRL [HL].
    pub open spec fn op_sr_hl(self, shift_arithmetic: bool) -> (CpuView, InstructionResult) {
        let (cc, result) = shift_right(self.read(self.hl()), shift_arithmetic);
        (self.write(self.hl(), result), outcome(4, 2, cc))
    }
}

impl CPU {
    fn sr_u8(&mut self, value: u8, shift_arithmetic: bool) -> (r: (ConditionCodes, u8))
        ensures
            final(self)@ == old(self)@,
            r == shift_right(value, shift_arithmetic),
    {
        let shift_into_carry_l: u8 = 0b0000_0001;
        let shift_into_result_l: u8 = 0b1000_0000;
        let new_carry = value & shift_into_carry_l;
        let shift_into_result: u8 = if shift_arithmetic && (value & shift_into_result_l) != 0 { 128 } else { 0 };
        let result = (value >> 1u8) | shift_into_result;
        (
            ConditionCodes {
                zero: flag_from(result == 0),
                subtract: FlagState::Unset,
                half_carry: FlagState::Unset,
                carry: flag_from(new_carry != 0),
            },
            result,
        )
    }

    /// SRA r8: arithmetic shift of an 8-bit register to the right.
    pub fn sra_r8(&mut self, target: Register8Bit) -> (r: InstructionResult)
        ensures
            final(self)@ == old(self)@.op_sr_r8(target, true).0,
            r == old(self)@.op_sr_r8(target, true).1,
    {
        let value = self.get_8bit_register(target);
        let (condition_codes_result, result) = self.sr_u8(value, true);
        self.set_8bit_register(target, result);
        InstructionResult { cycles: 2, bytes: 2, condition_codes: condition_codes_result }
    }

    /// SRA [HL]: arithmetic shift of the byte at [HL] to the right.
    pub fn sra_hl(&mut self) -> (r: InstructionResult)
        ensures
            final(self)@ == old(self)@.op_sr_hl(true).0,
            r == old(self)@.op_sr_hl(true).1,
    {
        let mem_addr = self.get_16bit_register(Register16Bit::HL);
        let value = self.mmu.read_byte(mem_addr);
        let (condition_codes_result, result) = self.sr_u8(value, true);
        self.mmu.write_byte(mem_addr, result);
        InstructionResult { cycles: 4, bytes: 2, condition_codes: condition_codes_result }
    }

    /// SRL r8: logical shift of an 8-bit register to the right.
    pub fn srl_r8(&mut self, target: Register8Bit) -> (r: InstructionResult)
        ensures
            final(self)@ == old(self)@.op_sr_r8(target, false).0,
            r == old(self)@.op_sr_r8(target, false).1,
    {
        let value = self.get_8bit_register(target);
        let (condition_codes_result, result) = self.sr_u8(value, false);
        self.set_8bit_register(target, result);
        InstructionResult { cycles: 2, bytes: 2, condition_codes: condition_codes_result }
    }

    /// SRL [HL]: logical shift of the byte at [HL] to the right.
    pub fn srl_hl(&mut self) -> (r: InstructionResult)
        ensures
            final(self)@ == old(self)@.op_sr_hl(false).0,
            r == old(self)@.op_sr_hl(false).1,
    {
        let mem_addr = self.get_16bit_register(Register16Bit::HL);
        let value = self.mmu.read_byte(mem_addr);
        let (condition_codes_result, result) = self.sr_u8(value, false);
        self.mmu.write_byte(mem_addr, result);
        InstructionResult { cycles: 4, bytes: 2, condition_codes: condition_codes_result }
    }
}

} // verus!
