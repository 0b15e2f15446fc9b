//! DEC.
use vstd::prelude::*;

use crate::cpu::instructions::{codes, flag_from, flag_state, outcome, unaffected, unaffected_codes, ConditionCodes, FlagState, InstructionResult};
use crate::cpu::registers::{Register16Bit, Register8Bit};
use crate::bits::lemma_low_nibble;
use crate::cpu::{CpuView, CPU};
use crate::mmu::MemoryOperations;

verus! {

/// The flags of an 8-bit decrement of `value`: Z from the result, N set,
/// H when the lower nibble was 0, C untouched.
pub open spec fn dec_codes(value: u8) -> ConditionCodes {
    codes(
        flag_state((value + 255) % 256 == 0),
        FlagState::Raised,
        flag_state(value % 16 == 0),
        FlagState::NotAffected,
    )
}

impl CpuView {
    /// DEC r16 (wrapping, no flag affected).
    pub open spec fn op_dec_r16(self, register: Register16Bit) -> (CpuView, InstructionResult) {
        (self.set_reg16(register, ((self.reg16(register) + 65535) % 65536) as u16), outcome(2, 1, unaffected()))
    }

    /// DEC r8.
    pub open spec fn op_dec_r8(self, register: Register8Bit) -> (CpuView, InstructionResult) {
        let value = self.reg8(register);
        (self.set_reg8(register, ((value + 255) % 256) as u8), outcome(1, 1, dec_codes(value)))
    }

    /// DEC [HL].
    pub open spec fn op_dec_hl(self) -> (CpuView, InstructionResult) {
        let value = self.read(self.hl());
        (self.write(self.hl(), ((value + 255) % 256) as u8), outcome(3, 1, dec_codes(value)))
    }
}

impl CPU {
    /// DEC r16: decrement a 16-bit register, wrapping around.
    pub fn dec_r16(&mut self, register: Register16Bit) -> (r: InstructionResult)
        ensures
            final(self)@ == old(self)@.op_dec_r16(register).0,
            r == old(self)@.op_dec_r16(register).1,
    {
        let value = self.get_16bit_register(register).wrapping_sub(1);
        self.set_16bit_register(register, value);
        InstructionResult { cycles: 2, bytes: 1, condition_codes: unaffected_codes() }
    }

    /// DEC r8: decrement an 8-bit register.
    pub fn dec_r8(&mut self, register: Register8Bit) -> (r: InstructionResult)
        ensures
            final(self)@ == old(self)@.op_dec_r8(register).0,
            r == old(self)@.op_dec_r8(register).1,
    {
        let r8_value = self.get_8bit_register(register);
        let value = r8_value.wrapping_sub(1);
        let tail = r8_value & 0xF;
        self.set_8bit_register(register, value);
        proof {
            lemma_low_nibble(r8_value);
        }
        InstructionResult {
            cycles: 1,
            bytes: 1,
            condition_codes: ConditionCodes {
                zero: flag_from(value == 0),
                subtract: FlagState::Raised,
                half_carry: flag_from(tail == 0),
                carry: FlagState::NotAffected,
            },
        }
    }

    /// DEC [HL]: decrement the byte at [HL].
    pub fn dec_hl(&mut self) -> (r: InstructionResult)
        ensures
            final(self)@ == old(self)@.op_dec_hl().0,
            r == old(self)@.op_dec_hl().1,
    {
        let addr = self.get_16bit_register(Register16Bit::HL);
        let r8_value = self.mmu.read_byte(addr);
        let value = r8_value.wrapping_sub(1);
        self.mmu.write_byte(addr, value);
        let tail = r8_value & 0xF;
        proof {
            lemma_low_nibble(r8_value);
        }
        InstructionResult {
            cycles: 3,
            bytes: 1,
            condition_codes: ConditionCodes {
                zero: flag_from(value == 0),
                subtract: FlagState::Raised,
                half_carry: flag_from(tail == 0),
                carry: FlagState::NotAffected,
            },
        }
    }
}

} // verus!
