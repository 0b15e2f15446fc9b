//! BIT, RES, SET and SWAP.
use vstd::prelude::*;

use crate::bits::lemma_swap_nibbles;
use crate::cpu::instructions::{codes, flag_from, flag_state, outcome, unaffected, unaffected_codes, ConditionCodes, FlagState, InstructionResult};
use crate::cpu::registers::{Register16Bit, Register8Bit};
use crate::cpu::{CpuView, CPU};
use crate::mmu::MemoryOperations;

verus! {

/// Whether bit `bit` of `value` is 1.
pub open spec fn bit_is_set(value: u8, bit: u8) -> bool {
    (value >> bit) & 1 == 1
}

/// `value` with bit `bit` cleared.
pub open spec fn reset_bit(value: u8, bit: u8) -> u8 {
    value & !(1u8 << bit)
}

/// `value` with bit `bit` set.
pub open spec fn set_bit(value: u8, bit: u8) -> u8 {
    value | (1u8 << bit)
}

/// `value` with its two nibbles exchanged.
pub open spec fn swap_nibbles(value: u8) -> u8 {
    ((value % 16) * 16 + value / 16) as u8
}

/// The flags of BIT: Z raised when the bit is 0 (and left alone when it
/// is 1), N cleared, H set, C untouched.
pub open spec fn bit_codes(value: u8, bit: u8) -> ConditionCodes {
    codes(
        if bit_is_set(value, bit) { FlagState::NotAffected } else { FlagState::Raised },
        FlagState::Unset,
        FlagState::Raised,
        FlagState::NotAffected,
    )
}

/// The flags of SWAP: Z cleared for a zero result and left alone
/// otherwise; N, H and C cleared.
pub open spec fn swap_codes(result: u8) -> ConditionCodes {
    codes(
        if result == 0 { FlagState::Unset } else { FlagState::NotAffected },
        FlagState::Unset,
        FlagState::Unset,
        FlagState::Unset,
    )
}

impl CpuView {
    /// BIT u3,r8.
    pub open spec fn op_bit_u3_r8(self, bit: u8, register: Register8Bit) -> (CpuView, InstructionResult) {
        (self, outcome(2, 2, bit_codes(self.reg8(register), bit)))
    }

    /// BIT u3,[HL].
    pub open spec fn op_bit_u3_hl(self, bit: u8) -> (CpuView, InstructionResult) {
        (self, outcome(3, 2, bit_codes(self.read(self.hl()), bit)))
    }

    /// RES u3,r8.
    pub open spec fn op_res_u3_r8(self, bit: u8, target: Register8Bit) -> (CpuView, InstructionResult) {
        (self.set_reg8(target, reset_bit(self.reg8(target), bit)), outcome(2, 2, unaffected()))
    }

    /// RES u3,[HL].
    pub open spec fn op_res_u3_hl(self, bit: u8) -> (CpuView, InstructionResult) {
        (self.write(self.hl(), reset_bit(self.read(self.hl()), bit)), outcome(4, 2, unaffected()))
    }

    /// SET u3,r8.
    pub open spec fn op_set_u3_r8(self, bit: u8, target: Register8Bit) -> (CpuView, InstructionResult) {
        (self.set_reg8(target, set_bit(self.reg8(target), bit)), outcome(2, 2, unaffected()))
    }

    /// SET u3,[HL].
    pub open spec fn op_set_u3_hl(self, bit: u8) -> (CpuView, InstructionResult) {
        (self.write(self.hl(), set_bit(self.read(self.hl()), bit)), outcome(4, 2, unaffected()))
    }

    /// SWAP r8.
    pub open spec fn op_swap_r8(self, target: Register8Bit) -> (CpuView, InstructionResult) {
        let result = swap_nibbles(self.reg8(target));
        (self.set_reg8(target, result), outcome(2, 2, swap_codes(result)))
    }

    /// SWAP [HL].
    pub open spec fn op_swap_hl(self) -> (CpuView, InstructionResult) {
        let result = swap_nibbles(self.read(self.hl()));
        (self.write(self.hl(), result), outcome(4, 2, swap_codes(result)))
    }
}

impl CPU {
    /// BIT u3,r8: test bit `bit` of an 8-bit register; Z is raised when it is 0.
    pub fn bit_u3_r8(&mut self, bit: u8, register: Register8Bit) -> (r: InstructionResult)
        requires
            bit < 8,
        ensures
            final(self)@ == old(self)@.op_bit_u3_r8(bit, register).0,
            r == old(self)@.op_bit_u3_r8(bit, register).1,
    {
        let register_to_test = self.get_8bit_register(register);
        let bit_to_test = register_to_test >> bit;
        let is_set = (bit_to_test & 1) == 1;
        InstructionResult {
            cycles: 2,
            bytes: 2,
            condition_codes: ConditionCodes {
                zero: if is_set {
                    FlagState::NotAffected
                } else {
                    FlagState::Raised
                },
                subtract: FlagState::Unset,
                half_carry: FlagState::Raised,
                carry: FlagState::NotAffected,
            },
        }
    }

    /// BIT u3,[HL]: test bit `bit` of the byte at [HL]; Z is raised when it is 0.
    pub fn bit_u3_hl(&mut self, bit: u8) -> (r: InstructionResult)
        requires
            bit < 8,
        ensures
            final(self)@ == old(self)@.op_bit_u3_hl(bit).0,
            r == old(self)@.op_bit_u3_hl(bit).1,
    {
        let memory_address = self.get_16bit_register(Register16Bit::HL);
        let register_to_test = self.mmu.read_byte(memory_address);
        let bit_to_test = register_to_test >> bit;
        let is_set = (bit_to_test & 1) == 1;
        InstructionResult {
            cycles: 3,
            bytes: 2,
            condition_codes: ConditionCodes {
                zero: if is_set {
                    FlagState::NotAffected
                } else {
                    FlagState::Raised
                },
                subtract: FlagState::Unset,
                half_carry: FlagState::Raised,
                carry: FlagState::NotAffected,
            },
        }
    }

    /// RES u3,r8: clear bit `bit` of an 8-bit register.
    pub fn res_u3_r8(&mut self, bit: u8, target: Register8Bit) -> (r: InstructionResult)
        requires
            bit < 8,
        ensures
            final(self)@ == old(self)@.op_res_u3_r8(bit, target).0,
            r == old(self)@.op_res_u3_r8(bit, target).1,
    {
        let register_to_set = self.get_8bit_register(target);
        let mask: u8 = !(1u8 << bit);
        let value = register_to_set & mask;
        self.set_8bit_register(target, value);
        InstructionResult { cycles: 2, bytes: 2, condition_codes: unaffected_codes() }
    }

    /// RES u3,[HL]: clear bit `bit` of the byte at [HL].
    pub fn res_u3_hl(&mut self, bit: u8) -> (r: InstructionResult)
        requires
            bit < 8,
        ensures
            final(self)@ == old(self)@.op_res_u3_hl(bit).0,
            r == old(self)@.op_res_u3_hl(bit).1,
    {
        let memory_address = self.get_16bit_register(Register16Bit::HL);
        let register_to_set = self.mmu.read_byte(memory_address);
        let mask: u8 = !(1u8 << bit);
        let value = register_to_set & mask;
        self.mmu.write_byte(memory_address, value);
        InstructionResult { cycles: 4, bytes: 2, condition_codes: unaffected_codes() }
    }

    /// SET u3,r8: set bit `bit` of an 8-bit register.
    pub fn set_u3_r8(&mut self, bit: u8, target: Register8Bit) -> (r: InstructionResult)
        requires
            bit < 8,
        ensures
            final(self)@ == old(self)@.op_set_u3_r8(bit, target).0,
            r == old(self)@.op_set_u3_r8(bit, target).1,
    {
        let register_to_set = self.get_8bit_register(target);
        let mask: u8 = 1u8 << bit;
        let value = register_to_set | mask;
        self.set_8bit_register(target, value);
        InstructionResult { cycles: 2, bytes: 2, condition_codes: unaffected_codes() }
    }

    /// SET u3,[HL]: set bit `bit` of the byte at [HL].
    pub fn set_u3_hl(&mut self, bit: u8) -> (r: InstructionResult)
        requires
            bit < 8,
        ensures
            final(self)@ == old(self)@.op_set_u3_hl(bit).0,
            r == old(self)@.op_set_u3_hl(bit).1,
    {
        let memory_address = self.get_16bit_register(Register16Bit::HL);
        let register_to_set = self.mmu.read_byte(memory_address);
        let mask: u8 = 1u8 << bit;
        let value = register_to_set | mask;
        self.mmu.write_byte(memory_address, value);
        InstructionResult { cycles: 4, bytes: 2, condition_codes: unaffected_codes() }
    }

    /// SWAP r8: exchange the nibbles of an 8-bit register.
    pub fn swap_r8(&mut self, target: Register8Bit) -> (r: InstructionResult)
        ensures
            final(self)@ == old(self)@.op_swap_r8(target).0,
            r == old(self)@.op_swap_r8(target).1,
    {
        let register = self.get_8bit_register(target);
        let value = (register << 4) | (register >> 4);
        proof {
            lemma_swap_nibbles(register);
        }
        self.set_8bit_register(target, value);
        InstructionResult {
            cycles: 2,
            bytes: 2,
            condition_codes: ConditionCodes {
                zero: if value == 0 {
                    FlagState::Unset
                } else {
                    FlagState::NotAffected
                },
                subtract: FlagState::Unset,
                half_carry: FlagState::Unset,
                carry: FlagState::Unset,
            },
        }
    }

    /// SWAP [HL]: exchange the nibbles of the byte at [HL].
    pub fn swap_hl(&mut self) -> (r: InstructionResult)
        ensures
            final(self)@ == old(self)@.op_swap_hl().0,
            r == old(self)@.op_swap_hl().1,
    {
        let memory_address = self.get_16bit_register(Register16Bit::HL);
        let byte = self.mmu.read_byte(memory_address);
        let value = (byte << 4) | (byte >> 4);
        proof {
            lemma_swap_nibbles(byte);
        }
        self.mmu.write_byte(memory_address, value);
        InstructionResult {
            cycles: 4,
            bytes: 2,
            condition_codes: ConditionCodes {
                zero: if value == 0 {
                    FlagState::Unset
                } else {
                    FlagState::NotAffected
                },
                subtract: FlagState::Unset,
                half_carry: FlagState::Unset,
                carry: FlagState::Unset,
            },
        }
    }
}

} // verus!
