//! AND.
use vstd::prelude::*;

use crate::cpu::instructions::{codes, flag_from, flag_state, outcome, ConditionCodes, FlagState, InstructionResult};
use crate::cpu::registers::{Register16Bit, Register8Bit};
use crate::cpu::{CpuView, CPU};
use crate::mmu::MemoryOperations;

verus! {

impl CpuView {
    /// A := A & value; Z from the result, H set, N and C cleared.
    pub open spec fn op_and(self, value: u8, cycles: u8, bytes: u8) -> (CpuView, InstructionResult) {
        let result = self.reg8(Register8Bit::A) & value;
        (
            self.set_reg8(Register8Bit::A, result),
            outcome(cycles, bytes, codes(flag_state(result == 0), FlagState::Unset, FlagState::Raised, FlagState::Unset)),
        )
    }
}

impl CPU {
    /// AND A,r8: bitwise AND between an 8-bit register and A.
    pub fn and_a_r8(&mut self, target: Register8Bit) -> (r: InstructionResult)
        ensures
            final(self)@ == old(self)@.op_and(old(self)@.reg8(target), 1, 1).0,
            r == old(self)@.op_and(old(self)@.reg8(target), 1, 1).1,
    {
        let value = self.get_8bit_register(target);
        let a = self.get_8bit_register(Register8Bit::A);
        let result = a & value;
        self.set_8bit_register(Register8Bit::A, result);
        InstructionResult {
            cycles: 1,
            bytes: 1,
            condition_codes: ConditionCodes {
                zero: flag_from(result == 0),
                subtract: FlagState::Unset,
                half_carry: FlagState::Raised,
                carry: FlagState::Unset,
            },
        }
    }

    /// AND A,[HL]: bitwise AND between the byte at [HL] and A.
    pub fn and_a_hl(&mut self) -> (r: InstructionResult)
        ensures
            final(self)@ == old(self)@.op_and(old(self)@.read(old(self)@.hl()), 2, 1).0,
            r == old(self)@.op_and(old(self)@.read(old(self)@.hl()), 2, 1).1,
    {
        let mem_addr = self.get_16bit_register(Register16Bit::HL);
        let value = self.mmu.read_byte(mem_addr);
        let a = self.get_8bit_register(Register8Bit::A);
        let result = a & value;
        self.set_8bit_register(Register8Bit::A, result);
        InstructionResult {
            cycles: 2,
            bytes: 1,
            condition_codes: ConditionCodes {
                zero: flag_from(result == 0),
                subtract: FlagState::Unset,
                half_carry: FlagState::Raised,
                carry: FlagState::Unset,
            },
        }
    }

    /// AND A,n8: bitwise AND between an 8-bit value and A.
    pub fn and_a_n8(&mut self, value: u8) -> (r: InstructionResult)
        ensures
            final(self)@ == old(self)@.op_and(value, 2, 2).0,
            r == old(self)@.op_and(value, 2, 2).1,
    {
        let a = self.get_8bit_register(Register8Bit::A);
        let result = a & value;
        self.set_8bit_register(Register8Bit::A, result);
        InstructionResult {
            cycles: 2,
            bytes: 2,
            condition_codes: ConditionCodes {
                zero: flag_from(result == 0),
                subtract: FlagState::Unset,
                half_carry: FlagState::Raised,
                carry: FlagState::Unset,
            },
        }
    }
}

} // verus!
