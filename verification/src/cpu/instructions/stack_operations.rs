//! Stack pointer arithmetic, PUSH and POP.
use vstd::prelude::*;

use crate::cpu::instructions::{codes, flag_from, flag_state, outcome, unaffected, unaffected_codes, ConditionCodes, FlagState, InstructionResult};
use crate::cpu::registers::{Register16Bit, Register8Bit};
use crate::cpu::{lemma_reg16_of_set, lemma_set_reg16_twice, CpuView, CPU};
use crate::mmu::MemoryOperations;

verus! {

/// `x + 1` on 16 bits, wrapping around.
pub open spec fn inc16(x: u16) -> u16 {
    ((x + 1) % 65536) as u16
}

/// `x - 1` on 16 bits, wrapping around.
pub open spec fn dec16(x: u16) -> u16 {
    ((x + 65535) % 65536) as u16
}

/// The flags byte that PUSH AF stores: bits 7..4 from Z, N, H, C; bits 3..0 zero.
pub open spec fn flags_byte(z: bool, n: bool, h: bool, c: bool) -> u8 {
    ((if z { 128int } else { 0 }) + (if n { 64int } else { 0 }) + (if h { 32int } else { 0 }) + (if c { 16int } else { 0 })) as u8
}

/// Whether PUSH r16 accepts the register (AF has PUSH AF; SP and PC cannot be pushed).
pub open spec fn is_pushable(target: Register16Bit) -> bool {
    target == Register16Bit::BC || target == Register16Bit::DE || target == Register16Bit::HL
}

impl CpuView {
    /// Push two bytes: SP is decremented, the high byte stored at SP,
    /// SP decremented again and the low byte stored at SP.
    pub open spec fn push_bytes(self, high: u8, low: u8) -> CpuView {
        let address = dec16(self.sp());
        self.set_reg16(Register16Bit::SP, address).write(address, high).set_reg16(Register16Bit::SP, dec16(address)).write(
            dec16(address),
            low,
        )
    }

    /// Pop a word: the low byte from [SP], the high byte from [SP+1]; SP moves up by two.
    pub open spec fn pop_word(self) -> (CpuView, u16) {
        let address = self.sp();
        let low = self.read(address);
        let high = self.read(inc16(address));
        (self.set_reg16(Register16Bit::SP, inc16(inc16(address))), (high * 256 + low) as u16)
    }

    /// DEC SP.
    pub open spec fn op_dec_sp(self) -> (CpuView, InstructionResult) {
        (self.set_reg16(Register16Bit::SP, dec16(self.sp())), outcome(2, 1, unaffected()))
    }

    /// INC SP.
    pub open spec fn op_inc_sp(self) -> (CpuView, InstructionResult) {
        (self.set_reg16(Register16Bit::SP, inc16(self.sp())), outcome(2, 1, unaffected()))
    }

    /// LD SP,n16.
    pub open spec fn op_ld_sp_n16(self, value: u16) -> (CpuView, InstructionResult) {
        (self.set_reg16(Register16Bit::SP, value), outcome(3, 3, unaffected()))
    }

    /// LD [n16],SP: the low byte of SP at n16, the high byte at n16 + 1.
    pub open spec fn op_ld_n16_sp(self, target: u16) -> (CpuView, InstructionResult) {
        let sp = self.sp();
        (self.write(target, (sp % 256) as u8).write(inc16(target), (sp / 256) as u8), outcome(5, 3, unaffected()))
    }

    /// LD HL,SP+e8: HL := SP + e8 with the flags of ADD SP,e8 (Z and N cleared); SP unchanged.
    pub open spec fn op_ld_hl_sp_plus_e8(self, value: i8) -> (CpuView, InstructionResult) {
        let (added, add_result) = self.op_add_sp_e8(value);
        (
            added.set_reg16(Register16Bit::SP, self.sp()).set_reg16(Register16Bit::HL, added.sp()),
            outcome(3, 2, codes(
                FlagState::Unset,
                FlagState::Unset,
                add_result.condition_codes.half_carry,
                add_result.condition_codes.carry,
            )),
        )
    }

    /// LD SP,HL.
    pub open spec fn op_ld_sp_hl(self) -> (CpuView, InstructionResult) {
        (self.set_reg16(Register16Bit::SP, self.hl()), outcome(2, 1, unaffected()))
    }

    /// POP AF: the low nibble of F is cleared; the result sets the flags from the popped byte.
    pub open spec fn op_pop_af(self) -> (CpuView, InstructionResult) {
        let address = self.sp();
        let low = self.read(address) & 0xF0;
        let high = self.read(inc16(address));
        (
            self.set_reg16(Register16Bit::SP, inc16(inc16(address))).set_reg16(Register16Bit::AF, (high * 256 + low) as u16),
            outcome(3, 1, codes(
                flag_state(low & 128 != 0),
                flag_state(low & 64 != 0),
                flag_state(low & 32 != 0),
                flag_state(low & 16 != 0),
            )),
        )
    }

    /// POP r16.
    pub open spec fn op_pop_r16(self, target: Register16Bit) -> (CpuView, InstructionResult) {
        let (popped, value) = self.pop_word();
        (popped.set_reg16(target, value), outcome(3, 1, unaffected()))
    }

    /// PUSH AF: A, then the flags byte built from Z, N, H, C.
    pub open spec fn op_push_af(self) -> (CpuView, InstructionResult) {
        (
            self.push_bytes(
                self.reg8(Register8Bit::A),
                flags_byte(self.zero_flag(), self.subtraction_flag(), self.half_carry_flag(), self.carry_flag()),
            ),
            outcome(4, 1, unaffected()),
        )
    }

    /// PUSH r16 for BC, DE and HL: the high register, then the low register.
    pub open spec fn op_push_r16(self, target: Register16Bit) -> (CpuView, InstructionResult) {
        (self.push_bytes(self.regs[target.slot()], self.regs[target.slot() + 1]), outcome(4, 1, unaffected()))
    }
}

impl CPU {
    /// DEC SP: decrement the stack pointer, wrapping around.
    pub fn dec_sp(&mut self) -> (r: InstructionResult)
        ensures
            final(self)@ == old(self)@.op_dec_sp().0,
            r == old(self)@.op_dec_sp().1,
    {
        let sp = self.get_16bit_register(Register16Bit::SP);
        let value = sp.wrapping_sub(1);
        self.set_16bit_register(Register16Bit::SP, value);
        InstructionResult { cycles: 2, bytes: 1, condition_codes: unaffected_codes() }
    }

    /// INC SP: increment the stack pointer, wrapping around.
    pub fn inc_sp(&mut self) -> (r: InstructionResult)
        ensures
            final(self)@ == old(self)@.op_inc_sp().0,
            r == old(self)@.op_inc_sp().1,
    {
        let sp = self.get_16bit_register(Register16Bit::SP);
        let value = sp.wrapping_add(1);
        self.set_16bit_register(Register16Bit::SP, value);
        InstructionResult { cycles: 2, bytes: 1, condition_codes: unaffected_codes() }
    }

    /// LD SP,n16: load a 16-bit value into SP.
    pub fn ld_sp_n16(&mut self, value: u16) -> (r: InstructionResult)
        ensures
            final(self)@ == old(self)@.op_ld_sp_n16(value).0,
            r == old(self)@.op_ld_sp_n16(value).1,
    {
        self.set_16bit_register(Register16Bit::SP, value);
        InstructionResult { cycles: 3, bytes: 3, condition_codes: unaffected_codes() }
    }

    /// LD [n16],SP: store SP at n16 and n16 + 1 (little-endian).
    pub fn ld_n16_sp(&mut self, target: u16) -> (r: InstructionResult)
        ensures
            final(self)@ == old(self)@.op_ld_n16_sp(target).0,
            r == old(self)@.op_ld_n16_sp(target).1,
    {
        let sp = self.get_16bit_register(Register16Bit::SP);
        proof {
            crate::bits::lemma_split_word(sp);
            crate::bits::lemma_low_byte_mask(sp);
        }
        let value = (sp & 0xFF) as u8;
        let sp_shifted = (sp >> 8) as u8;
        self.mmu.write_byte(target, value);
        self.mmu.write_byte(target.wrapping_add(1), sp_shifted);
        InstructionResult { cycles: 5, bytes: 3, condition_codes: unaffected_codes() }
    }

    /// LD HL,SP+e8: add a signed value to SP and store the sum in HL; SP keeps its value.
    pub fn ld_hl_sp_plus_e8(&mut self, value: i8) -> (r: InstructionResult)
        ensures
            final(self)@ == old(self)@.op_ld_hl_sp_plus_e8(value).0,
            r == old(self)@.op_ld_hl_sp_plus_e8(value).1,
    {
        let sp = self.get_16bit_register(Register16Bit::SP);
        let add_result = self.add_sp_e8(value);
        let added_value = self.get_16bit_register(Register16Bit::SP);
        self.set_16bit_register(Register16Bit::SP, sp);
        self.set_16bit_register(Register16Bit::HL, added_value);
        InstructionResult {
            cycles: 3,
            bytes: 2,
            condition_codes: ConditionCodes {
                zero: FlagState::Unset,
                subtract: FlagState::Unset,
                half_carry: add_result.condition_codes.half_carry,
                carry: add_result.condition_codes.carry,
            },
        }
    }

    /// LD SP,HL: copy HL into SP.
    pub fn ld_sp_hl(&mut self) -> (r: InstructionResult)
        ensures
            final(self)@ == old(self)@.op_ld_sp_hl().0,
            r == old(self)@.op_ld_sp_hl().1,
    {
        let value = self.get_16bit_register(Register16Bit::HL);
        self.set_16bit_register(Register16Bit::SP, value);
        InstructionResult { cycles: 2, bytes: 1, condition_codes: unaffected_codes() }
    }

    /// POP AF: pop AF from the stack; the low nibble of F is cleared.
    pub fn pop_af(&mut self) -> (r: InstructionResult)
        ensures
            final(self)@ == old(self)@.op_pop_af().0,
            r == old(self)@.op_pop_af().1,
    {
        let memory_address = self.get_16bit_register(Register16Bit::SP);
        let low_value = self.mmu.read_byte(memory_address) & 0xf0;
        self.inc_sp();
        let high_value: u16 = (self.mmu.read_byte(memory_address.wrapping_add(1)) as u16) * 256;
        self.inc_sp();
        let combined_value: u16 = high_value + (low_value as u16);
        self.set_16bit_register(Register16Bit::AF, combined_value);
        InstructionResult {
            cycles: 3,
            bytes: 1,
            condition_codes: ConditionCodes {
                zero: flag_from((low_value & 128) != 0),
                subtract: flag_from((low_value & 64) != 0),
                half_carry: flag_from((low_value & 32) != 0),
                carry: flag_from((low_value & 16) != 0),
            },
        }
    }

    /// POP r16: pop a 16-bit register from the stack.
    pub fn pop_r16(&mut self, target: Register16Bit) -> (r: InstructionResult)
        ensures
            final(self)@ == old(self)@.op_pop_r16(target).0,
            r == old(self)@.op_pop_r16(target).1,
    {
        let ghost s0 = self@;
        let memory_address = self.get_16bit_register(Register16Bit::SP);
        let low_value = self.mmu.read_byte(memory_address);
        self.inc_sp();
        proof {
            lemma_reg16_of_set(s0, Register16Bit::SP, inc16(memory_address));
        }
        let high_value: u16 = (self.mmu.read_byte(memory_address.wrapping_add(1)) as u16) * 256;
        self.inc_sp();
        proof {
            lemma_set_reg16_twice(s0, Register16Bit::SP, inc16(memory_address), inc16(inc16(memory_address)));
        }
        assert(self@ == s0.pop_word().0);
        let combined_value: u16 = high_value + (low_value as u16);
        self.set_16bit_register(target, combined_value);
        InstructionResult { cycles: 3, bytes: 1, condition_codes: unaffected_codes() }
    }

    /// PUSH AF: push A and the flags onto the stack.
    pub fn push_af(&mut self) -> (r: InstructionResult)
        ensures
            final(self)@ == old(self)@.op_push_af().0,
            r == old(self)@.op_push_af().1,
    {
        self.dec_sp();
        let value = self.get_8bit_register(Register8Bit::A);
        let memory_address = self.get_16bit_register(Register16Bit::SP);
        self.mmu.write_byte(memory_address, value);
        self.dec_sp();
        let mut flags: u8 = 0;
        if self.is_zero_flag_set() {
            flags = flags + 128;
        }
        if self.is_subtraction_flag_set() {
            flags = flags + 64;
        }
        if self.is_half_carry_flag_set() {
            flags = flags + 32;
        }
        if self.is_carry_flag_set() {
            flags = flags + 16;
        }
        self.mmu.write_byte(memory_address.wrapping_sub(1), flags);
        InstructionResult { cycles: 4, bytes: 1, condition_codes: unaffected_codes() }
    }

    /// PUSH r16: push BC, DE or HL onto the stack (high byte first).
    pub fn push_r16(&mut self, target: Register16Bit) -> (r: InstructionResult)
        requires
            is_pushable(target),
        ensures
            final(self)@ == old(self)@.op_push_r16(target).0,
            r == old(self)@.op_push_r16(target).1,
    {
        let ghost s0 = self@;
        self.dec_sp();
        let memory_address = self.get_16bit_register(Register16Bit::SP);
        proof {
            lemma_reg16_of_set(s0, Register16Bit::SP, dec16(s0.sp()));
        }
        let value1;
        let value2;
        match target {
            Register16Bit::BC => {
                value1 = self.get_8bit_register(Register8Bit::B);
                value2 = self.get_8bit_register(Register8Bit::C);
            },
            Register16Bit::DE => {
                value1 = self.get_8bit_register(Register8Bit::D);
                value2 = self.get_8bit_register(Register8Bit::E);
            },
            _ => {
                value1 = self.get_8bit_register(Register8Bit::H);
                value2 = self.get_8bit_register(Register8Bit::L);
            },
        }
        assert(value1 == s0.regs[target.slot()] && value2 == s0.regs[target.slot() + 1]);
        self.mmu.write_byte(memory_address, value1);
        let ghost s1 = self@;
        self.dec_sp();
        proof {
            lemma_reg16_of_set(s0, Register16Bit::SP, dec16(s0.sp()));
        }
        assert(self@ == s1.set_reg16(Register16Bit::SP, dec16(memory_address)));
        self.mmu.write_byte(memory_address.wrapping_sub(1), value2);
        InstructionResult { cycles: 4, bytes: 1, condition_codes: unaffected_codes() }
    }
}

} // verus!
