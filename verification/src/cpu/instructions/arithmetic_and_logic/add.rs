//! ADD and ADC.
use vstd::prelude::*;

use crate::cpu::instructions::{codes, flag_from, flag_state, outcome, ConditionCodes, FlagState, InstructionResult};
use crate::cpu::registers::{Register16Bit, Register8Bit};
use crate::bits::{lemma_low_nibble, lemma_low_nibble_u16, lemma_low_twelve_bits, lemma_sign_extend};
use crate::cpu::{CpuView, CPU};
use crate::mmu::MemoryOperations;

verus! {

impl CpuView {
    /// The carry that ADC adds: 1 when asked for and the carry flag is set.
    pub open spec fn carry_in(self, also_add_carry: bool) -> u8 {
        if also_add_carry && self.carry_flag() { 1 } else { 0 }
    }

    /// Add `value` (plus the carry, for ADC) to an 8-bit register.
    /// The carry flag reports whether `target + value + carry` overflows 8 bits.
    pub open spec fn add_8bit(self, value: u8, target: Register8Bit, also_add_carry: bool) -> (CpuView, ConditionCodes) {
        let target_value = self.reg8(target);
        let carry = self.carry_in(also_add_carry);
        let sum = target_value + value + carry;
        let result = (sum % 256) as u8;
        (
            self.set_reg8(target, result),
            codes(
                flag_state(result == 0),
                FlagState::Unset,
                flag_state((target_value % 16) + (value % 16) + carry > 15),
                flag_state(sum > 255),
            ),
        )
    }

    /// ADD A,r8 / ADC A,r8.
    pub open spec fn op_adx_a_r8(self, target: Register8Bit, also_add_carry: bool) -> (CpuView, InstructionResult) {
        let (s, cc) = self.add_8bit(self.reg8(target), Register8Bit::A, also_add_carry);
        (s, outcome(1, 1, cc))
    }

    /// ADD A,[HL] / ADC A,[HL].
    pub open spec fn op_adx_a_hl(self, also_add_carry: bool) -> (CpuView, InstructionResult) {
        let (s, cc) = self.add_8bit(self.read(self.hl()), Register8Bit::A, also_add_carry);
        (s, outcome(2, 1, cc))
    }

    /// ADD A,n8 / ADC A,n8.
    pub open spec fn op_adx_a_n8(self, value: u8, also_add_carry: bool) -> (CpuView, InstructionResult) {
        let (s, cc) = self.add_8bit(value, Register8Bit::A, also_add_carry);
        (s, outcome(2, 2, cc))
    }

    /// ADD HL,r16.
    pub open spec fn op_add_hl_r16(self, source: Register16Bit) -> (CpuView, InstructionResult) {
        let hl = self.hl();
        let source_value = self.reg16(source);
        let sum = hl + source_value;
        (
            self.set_reg16(Register16Bit::HL, (sum % 65536) as u16),
            outcome(2, 1, codes(
                FlagState::NotAffected,
                FlagState::Unset,
                flag_state((hl % 4096) + (source_value % 4096) > 4095),
                flag_state(sum > 65535),
            )),
        )
    }

    /// ADD SP,e8: the signed offset is sign-extended to 16 bits, the half
    /// carry is taken from bit 3 and the carry from bit 15.
    pub open spec fn op_add_sp_e8(self, value: i8) -> (CpuView, InstructionResult) {
        let sp = self.sp();
        let extended = (value as int + 65536) % 65536;
        let sum = sp + extended;
        (
            self.set_reg16(Register16Bit::SP, (sum % 65536) as u16),
            outcome(4, 2, codes(
                FlagState::Unset,
                FlagState::Unset,
                flag_state((sp % 16) + (extended % 16) > 15),
                flag_state(sum > 65535),
            )),
        )
    }
}

impl CPU {
    /// Add `value` (plus the carry flag when `also_add_carry`) to `target`.
    fn add_8bit(&mut self, value: u8, target: Register8Bit, also_add_carry: bool) -> (r: ConditionCodes)
        ensures
            final(self)@ == old(self)@.add_8bit(value, target, also_add_carry).0,
            r == old(self)@.add_8bit(value, target, also_add_carry).1,
    {
        let target_value = self.get_8bit_register(target);
        let carry: u8 = if also_add_carry && self.is_carry_flag_set() { 1 } else { 0 };
        let sum: u16 = target_value as u16 + value as u16 + carry as u16;
        let result = (sum & 0xFF) as u8;
        let overflow = sum > 255;
        self.set_8bit_register(target, result);
        proof {
            lemma_low_nibble(target_value);
            lemma_low_nibble(value);
            assert(sum & 0xFF == sum % 256) by (bit_vector);
        }
        ConditionCodes {
            zero: flag_from(result == 0),
            subtract: FlagState::Unset,
            half_carry: flag_from((target_value & 0xF) + (value & 0xF) + carry > 0xF),
            carry: flag_from(overflow),
        }
    }

    /// ADC and ADD with an 8-bit register.
    fn adx_a_r8(&mut self, target: Register8Bit, also_add_carry: bool) -> (r: InstructionResult)
        ensures
            final(self)@ == old(self)@.op_adx_a_r8(target, also_add_carry).0,
            r == old(self)@.op_adx_a_r8(target, also_add_carry).1,
    {
        let value = self.get_8bit_register(target);
        let condition_codes = self.add_8bit(value, Register8Bit::A, also_add_carry);
        InstructionResult { cycles: 1, bytes: 1, condition_codes }
    }

    /// ADC and ADD with the byte at [HL].
    fn adx_a_hl(&mut self, also_add_carry: bool) -> (r: InstructionResult)
        ensures
            final(self)@ == old(self)@.op_adx_a_hl(also_add_carry).0,
            r == old(self)@.op_adx_a_hl(also_add_carry).1,
    {
        let mem_addr = self.get_16bit_register(Register16Bit::HL);
        let value = self.mmu.read_byte(mem_addr);
        let condition_codes = self.add_8bit(value, Register8Bit::A, also_add_carry);
        InstructionResult { cycles: 2, bytes: 1, condition_codes }
    }

    /// ADC A,r8: add an 8-bit register and the carry flag to A.
    pub fn adc_a_r8(&mut self, target: Register8Bit) -> (r: InstructionResult)
        ensures
            final(self)@ == old(self)@.op_adx_a_r8(target, true).0,
            r == old(self)@.op_adx_a_r8(target, true).1,
    {
        self.adx_a_r8(target, true)
    }

    /// ADD A,r8: add an 8-bit register to A.
    pub fn add_a_r8(&mut self, target: Register8Bit) -> (r: InstructionResult)
        ensures
            final(self)@ == old(self)@.op_adx_a_r8(target, false).0,
            r == old(self)@.op_adx_a_r8(target, false).1,
    {
        self.adx_a_r8(target, false)
    }

    /// ADC A,[HL]: add the byte at [HL] and the carry flag to A.
    pub fn adc_a_hl(&mut self) -> (r: InstructionResult)
        ensures
            final(self)@ == old(self)@.op_adx_a_hl(true).0,
            r == old(self)@.op_adx_a_hl(true).1,
    {
        self.adx_a_hl(true)
    }

    /// ADD A,[HL]: add the byte at [HL] to A.
    pub fn add_a_hl(&mut self) -> (r: InstructionResult)
        ensures
            final(self)@ == old(self)@.op_adx_a_hl(false).0,
            r == old(self)@.op_adx_a_hl(false).1,
    {
        self.adx_a_hl(false)
    }

    /// ADD A,n8: add an 8-bit value to A.
    pub fn add_a_n8(&mut self, value: u8) -> (r: InstructionResult)
        ensures
            final(self)@ == old(self)@.op_adx_a_n8(value, false).0,
            r == old(self)@.op_adx_a_n8(value, false).1,
    {
        let condition_codes = self.add_8bit(value, Register8Bit::A, false);
        InstructionResult { cycles: 2, bytes: 2, condition_codes }
    }

    /// ADC A,n8: add an 8-bit value and the carry flag to A.
    pub fn adc_a_n8(&mut self, value: u8) -> (r: InstructionResult)
        ensures
            final(self)@ == old(self)@.op_adx_a_n8(value, true).0,
            r == old(self)@.op_adx_a_n8(value, true).1,
    {
        let condition_codes = self.add_8bit(value, Register8Bit::A, true);
        InstructionResult { cycles: 2, bytes: 2, condition_codes }
    }

    /// ADD HL,r16: add a 16-bit register to HL.
    pub fn add_hl_r16(&mut self, source: Register16Bit) -> (r: InstructionResult)
        ensures
            final(self)@ == old(self)@.op_add_hl_r16(source).0,
            r == old(self)@.op_add_hl_r16(source).1,
    {
        let hl = self.get_16bit_register(Register16Bit::HL);
        let source_value = self.get_16bit_register(source);
        let result = hl.wrapping_add(source_value);
        let overflow = hl as u32 + source_value as u32 > 0xFFFF;
        self.set_16bit_register(Register16Bit::HL, result);
        proof {
            lemma_low_twelve_bits(hl);
            lemma_low_twelve_bits(source_value);
        }
        InstructionResult {
            cycles: 2,
            bytes: 1,
            condition_codes: ConditionCodes {
                zero: FlagState::NotAffected,
                subtract: FlagState::Unset,
                half_carry: flag_from((hl & 0xFFF) + (source_value & 0xFFF) > 0xFFF),
                carry: flag_from(overflow),
            },
        }
    }

    /// ADD HL,SP.
    pub fn add_hl_sp(&mut self) -> (r: InstructionResult)
        ensures
            final(self)@ == old(self)@.op_add_hl_r16(Register16Bit::SP).0,
            r == old(self)@.op_add_hl_r16(Register16Bit::SP).1,
    {
        self.add_hl_r16(Register16Bit::SP)
    }

    /// ADD SP,e8: add a signed 8-bit value to SP.
    pub fn add_sp_e8(&mut self, value: i8) -> (r: InstructionResult)
        ensures
            final(self)@ == old(self)@.op_add_sp_e8(value).0,
            r == old(self)@.op_add_sp_e8(value).1,
    {
        let sp = self.get_16bit_register(Register16Bit::SP);
        let extended = value as u16;
        proof {
            lemma_sign_extend(value);
        }
        let result = sp.wrapping_add(extended);
        let overflow = sp as u32 + extended as u32 > 0xFFFF;
        self.set_16bit_register(Register16Bit::SP, result);
        proof {
            lemma_low_nibble_u16(sp);
            lemma_low_nibble_u16(extended);
        }
        InstructionResult {
            cycles: 4,
            bytes: 2,
            condition_codes: ConditionCodes {
                zero: FlagState::Unset,
                subtract: FlagState::Unset,
                half_carry: flag_from((sp & 0xF) + (extended & 0xF) > 0xF),
                carry: flag_from(overflow),
            },
        }
    }
}

} // verus!
