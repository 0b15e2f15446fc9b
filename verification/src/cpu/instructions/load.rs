//! LD and LDH: loads between registers and memory.
use vstd::prelude::*;

use crate::cpu::instructions::{outcome, unaffected, unaffected_codes, InstructionResult};
use crate::cpu::registers::{Register16Bit, Register8Bit};
use crate::cpu::{CpuView, CPU};
use crate::mmu::MemoryOperations;

verus! {

/// Whether an LDH address lies strictly between 0xFF00 and 0xFFFF.
pub open spec fn is_ldh_address(address: u16) -> bool {
    0xFF00 < address && address < 0xFFFF
}

impl CpuView {
    /// LD r8,r8.
    pub open spec fn op_ld_r8_r8(self, target: Register8Bit, source: Register8Bit) -> (CpuView, InstructionResult) {
        (self.set_reg8(target, self.reg8(source)), outcome(1, 1, unaffected()))
    }

    /// LD r8,n8.
    pub open spec fn op_ld_r8_n8(self, target: Register8Bit, value: u8) -> (CpuView, InstructionResult) {
        (self.set_reg8(target, value), outcome(2, 2, unaffected()))
    }

    /// LD r16,n16.
    pub open spec fn op_ld_r16_n16(self, target: Register16Bit, value: u16) -> (CpuView, InstructionResult) {
        (self.set_reg16(target, value), outcome(3, 3, unaffected()))
    }

    /// LD [HL],r8.
    pub open spec fn op_ld_hl_r8(self, source: Register8Bit) -> (CpuView, InstructionResult) {
        (self.write(self.hl(), self.reg8(source)), outcome(2, 1, unaffected()))
    }

    /// LD [HL],n8.
    pub open spec fn op_ld_hl_n8(self, value: u8) -> (CpuView, InstructionResult) {
        (self.write(self.hl(), value), outcome(3, 2, unaffected()))
    }

    /// LD r8,[HL].
    pub open spec fn op_ld_r8_hl(self, target: Register8Bit) -> (CpuView, InstructionResult) {
        (self.set_reg8(target, self.read(self.hl())), outcome(2, 1, unaffected()))
    }

    /// LD [r16],A.
    pub open spec fn op_ld_r16_a(self, target: Register16Bit) -> (CpuView, InstructionResult) {
        (self.write(self.reg16(target), self.reg8(Register8Bit::A)), outcome(2, 1, unaffected()))
    }

    /// LD [n16],A.
    pub open spec fn op_ld_n16_a(self, target: u16) -> (CpuView, InstructionResult) {
        (self.write(target, self.reg8(Register8Bit::A)), outcome(4, 3, unaffected()))
    }

    /// LDH [n16],A: the store only happens for addresses between 0xFF00 and 0xFFFF (exclusive).
    pub open spec fn op_ldh_n16_a(self, target: u16) -> (CpuView, InstructionResult) {
        (
            if is_ldh_address(target) { self.write(target, self.reg8(Register8Bit::A)) } else { self },
            outcome(3, 2, unaffected()),
        )
    }

    /// LDH [C],A.
    pub open spec fn op_ldh_c_a(self) -> (CpuView, InstructionResult) {
        (self.write((0xFF00 + self.reg8(Register8Bit::C)) as u16, self.reg8(Register8Bit::A)), outcome(2, 1, unaffected()))
    }

    /// LDH [a8],A.
    pub open spec fn op_ldh_a8_a(self, a8: u8) -> (CpuView, InstructionResult) {
        (self.write((0xFF00 + a8) as u16, self.reg8(Register8Bit::A)), outcome(3, 2, unaffected()))
    }

    /// LD A,[r16].
    pub open spec fn op_ld_a_r16(self, source: Register16Bit) -> (CpuView, InstructionResult) {
        (self.set_reg8(Register8Bit::A, self.read(self.reg16(source))), outcome(2, 1, unaffected()))
    }

    /// LD A,[n16].
    pub open spec fn op_ld_a_n16(self, source: u16) -> (CpuView, InstructionResult) {
        (self.set_reg8(Register8Bit::A, self.read(source)), outcome(4, 3, unaffected()))
    }

    /// LDH A,[n16]: the load only happens for addresses between 0xFF00 and 0xFFFF (exclusive).
    pub open spec fn op_ldh_a_n16(self, source: u16) -> (CpuView, InstructionResult) {
        (
            if is_ldh_address(source) { self.set_reg8(Register8Bit::A, self.read(source)) } else { self },
            outcome(3, 2, unaffected()),
        )
    }

    /// LDH A,[C].
    pub open spec fn op_ldh_a_c(self) -> (CpuView, InstructionResult) {
        (self.set_reg8(Register8Bit::A, self.read((0xFF00 + self.reg8(Register8Bit::C)) as u16)), outcome(2, 1, unaffected()))
    }

    /// LDH A,[a8].
    pub open spec fn op_ldh_a_a8(self, a8: u8) -> (CpuView, InstructionResult) {
        (self.set_reg8(Register8Bit::A, self.read((0xFF00 + a8) as u16)), outcome(3, 2, unaffected()))
    }

    /// LD [HLI],A: store A at [HL], then increment HL (wrapping).
    pub open spec fn op_ld_hli_a(self) -> (CpuView, InstructionResult) {
        let hl = self.hl();
        (
            self.write(hl, self.reg8(Register8Bit::A)).set_reg16(Register16Bit::HL, ((hl + 1) % 65536) as u16),
            outcome(2, 1, unaffected()),
        )
    }

    /// LD [HLD],A: store A at [HL], then decrement HL (wrapping).
    pub open spec fn op_ld_hld_a(self) -> (CpuView, InstructionResult) {
        let hl = self.hl();
        (
            self.write(hl, self.reg8(Register8Bit::A)).set_reg16(Register16Bit::HL, ((hl + 65535) % 65536) as u16),
            outcome(2, 1, unaffected()),
        )
    }

    /// LD A,[HLD]: load A from [HL], then decrement HL (wrapping).
    pub open spec fn op_ld_a_hld(self) -> (CpuView, InstructionResult) {
        let hl = self.hl();
        (
            self.set_reg8(Register8Bit::A, self.read(hl)).set_reg16(Register16Bit::HL, ((hl + 65535) % 65536) as u16),
            outcome(2, 1, unaffected()),
        )
    }

    /// LD A,[HLI]: load A from [HL], then increment HL (wrapping).
    pub open spec fn op_ld_a_hli(self) -> (CpuView, InstructionResult) {
        let hl = self.hl();
        (
            self.set_reg8(Register8Bit::A, self.read(hl)).set_reg16(Register16Bit::HL, ((hl + 1) % 65536) as u16),
            outcome(2, 1, unaffected()),
        )
    }
}

impl CPU {
    /// LD r8,r8: copy the source register into the target register.
    pub fn ld_r8_r8(&mut self, target: Register8Bit, source: Register8Bit) -> (r: InstructionResult)
        ensures
            final(self)@ == old(self)@.op_ld_r8_r8(target, source).0,
            r == old(self)@.op_ld_r8_r8(target, source).1,
    {
        let value = self.get_8bit_register(source);
        self.set_8bit_register(target, value);
        InstructionResult { cycles: 1, bytes: 1, condition_codes: unaffected_codes() }
    }

    /// LD r8,n8: load an 8-bit value into the target register.
    pub fn ld_r8_n8(&mut self, target: Register8Bit, value: u8) -> (r: InstructionResult)
        ensures
            final(self)@ == old(self)@.op_ld_r8_n8(target, value).0,
            r == old(self)@.op_ld_r8_n8(target, value).1,
    {
        self.set_8bit_register(target, value);
        InstructionResult { cycles: 2, bytes: 2, condition_codes: unaffected_codes() }
    }

    /// LD r16,n16: load a 16-bit value into the target register.
    pub fn ld_r16_n16(&mut self, target: Register16Bit, value: u16) -> (r: InstructionResult)
        ensures
            final(self)@ == old(self)@.op_ld_r16_n16(target, value).0,
            r == old(self)@.op_ld_r16_n16(target, value).1,
    {
        self.set_16bit_register(target, value);
        InstructionResult { cycles: 3, bytes: 3, condition_codes: unaffected_codes() }
    }

    /// LD [HL],r8: store the source register at [HL].
    pub fn ld_hl_r8(&mut self, source: Register8Bit) -> (r: InstructionResult)
        ensures
            final(self)@ == old(self)@.op_ld_hl_r8(source).0,
            r == old(self)@.op_ld_hl_r8(source).1,
    {
        let value = self.get_8bit_register(source);
        let memory_address = self.get_16bit_register(Register16Bit::HL);
        self.mmu.write_byte(memory_address, value);
        InstructionResult { cycles: 2, bytes: 1, condition_codes: unaffected_codes() }
    }

    /// LD [HL],n8: store an 8-bit value at [HL].
    pub fn ld_hl_n8(&mut self, value: u8) -> (r: InstructionResult)
        ensures
            final(self)@ == old(self)@.op_ld_hl_n8(value).0,
            r == old(self)@.op_ld_hl_n8(value).1,
    {
        let memory_address = self.get_16bit_register(Register16Bit::HL);
        self.mmu.write_byte(memory_address, value);
        InstructionResult { cycles: 3, bytes: 2, condition_codes: unaffected_codes() }
    }

    /// LD r8,[HL]: load the byte at [HL] into the target register.
    pub fn ld_r8_hl(&mut self, target: Register8Bit) -> (r: InstructionResult)
        ensures
            final(self)@ == old(self)@.op_ld_r8_hl(target).0,
            r == old(self)@.op_ld_r8_hl(target).1,
    {
        let memory_address = self.get_16bit_register(Register16Bit::HL);
        let value = self.mmu.read_byte(memory_address);
        self.set_8bit_register(target, value);
        InstructionResult { cycles: 2, bytes: 1, condition_codes: unaffected_codes() }
    }

    /// LD [r16],A: store A at the address held by the target register.
    pub fn ld_r16_a(&mut self, target: Register16Bit) -> (r: InstructionResult)
        ensures
            final(self)@ == old(self)@.op_ld_r16_a(target).0,
            r == old(self)@.op_ld_r16_a(target).1,
    {
        let value = self.get_8bit_register(Register8Bit::A);
        let memory_address = self.get_16bit_register(target);
        self.mmu.write_byte(memory_address, value);
        InstructionResult { cycles: 2, bytes: 1, condition_codes: unaffected_codes() }
    }

    /// LD [n16],A: store A at a 16-bit address.
    pub fn ld_n16_a(&mut self, target: u16) -> (r: InstructionResult)
        ensures
            final(self)@ == old(self)@.op_ld_n16_a(target).0,
            r == old(self)@.op_ld_n16_a(target).1,
    {
        let value = self.get_8bit_register(Register8Bit::A);
        self.mmu.write_byte(target, value);
        InstructionResult { cycles: 4, bytes: 3, condition_codes: unaffected_codes() }
    }

    /// LDH [n16],A: store A at a 16-bit address if it lies between 0xFF00 and 0xFFFF.
    pub fn ldh_n16_a(&mut self, target: u16) -> (r: InstructionResult)
        ensures
            final(self)@ == old(self)@.op_ldh_n16_a(target).0,
            r == old(self)@.op_ldh_n16_a(target).1,
    {
        if target > 0xFF00u16 && target < 0xFFFFu16 {
            let value = self.get_8bit_register(Register8Bit::A);
            self.mmu.write_byte(target, value);
        }
        InstructionResult { cycles: 3, bytes: 2, condition_codes: unaffected_codes() }
    }

    /// LDH [C],A: store A at 0xFF00 + C.
    pub fn ldh_c_a(&mut self) -> (r: InstructionResult)
        ensures
            final(self)@ == old(self)@.op_ldh_c_a().0,
            r == old(self)@.op_ldh_c_a().1,
    {
        let target = 0xFF00u16 + self.get_8bit_register(Register8Bit::C) as u16;
        let value = self.get_8bit_register(Register8Bit::A);
        self.mmu.write_byte(target, value);
        InstructionResult { cycles: 2, bytes: 1, condition_codes: unaffected_codes() }
    }

    /// LDH [a8],A: store A at 0xFF00 + a8.
    pub fn ldh_a8_a(&mut self, a8: u8) -> (r: InstructionResult)
        ensures
            final(self)@ == old(self)@.op_ldh_a8_a(a8).0,
            r == old(self)@.op_ldh_a8_a(a8).1,
    {
        let target = 0xFF00u16 + a8 as u16;
        let value = self.get_8bit_register(Register8Bit::A);
        self.mmu.write_byte(target, value);
        InstructionResult { cycles: 3, bytes: 2, condition_codes: unaffected_codes() }
    }

    /// LD A,[r16]: load A from the address held by the source register.
    pub fn ld_a_r16(&mut self, source: Register16Bit) -> (r: InstructionResult)
        ensures
            final(self)@ == old(self)@.op_ld_a_r16(source).0,
            r == old(self)@.op_ld_a_r16(source).1,
    {
        let memory_address = self.get_16bit_register(source);
        let value = self.mmu.read_byte(memory_address);
        self.set_8bit_register(Register8Bit::A, value);
        InstructionResult { cycles: 2, bytes: 1, condition_codes: unaffected_codes() }
    }

    /// LD A,[n16]: load A from a 16-bit address.
    pub fn ld_a_n16(&mut self, source: u16) -> (r: InstructionResult)
        ensures
            final(self)@ == old(self)@.op_ld_a_n16(source).0,
            r == old(self)@.op_ld_a_n16(source).1,
    {
        let value = self.mmu.read_byte(source);
        self.set_8bit_register(Register8Bit::A, value);
        InstructionResult { cycles: 4, bytes: 3, condition_codes: unaffected_codes() }
    }

    /// LDH A,[n16]: load A from a 16-bit address if it lies between 0xFF00 and 0xFFFF.
    pub fn ldh_a_n16(&mut self, source: u16) -> (r: InstructionResult)
        ensures
            final(self)@ == old(self)@.op_ldh_a_n16(source).0,
            r == old(self)@.op_ldh_a_n16(source).1,
    {
        if source > 0xFF00u16 && source < 0xFFFFu16 {
            let value = self.mmu.read_byte(source);
            self.set_8bit_register(Register8Bit::A, value);
        }
        InstructionResult { cycles: 3, bytes: 2, condition_codes: unaffected_codes() }
    }

    /// LDH A,[C]: load A from 0xFF00 + C.
    pub fn ldh_a_c(&mut self) -> (r: InstructionResult)
        ensures
            final(self)@ == old(self)@.op_ldh_a_c().0,
            r == old(self)@.op_ldh_a_c().1,
    {
        let source = 0xFF00u16 + self.get_8bit_register(Register8Bit::C) as u16;
        let value = self.mmu.read_byte(source);
        self.set_8bit_register(Register8Bit::A, value);
        InstructionResult { cycles: 2, bytes: 1, condition_codes: unaffected_codes() }
    }

    /// LDH A,[a8]: load A from 0xFF00 + a8.
    pub fn ldh_a_a8(&mut self, a8: u8) -> (r: InstructionResult)
        ensures
            final(self)@ == old(self)@.op_ldh_a_a8(a8).0,
            r == old(self)@.op_ldh_a_a8(a8).1,
    {
        let source = 0xFF00u16 + a8 as u16;
        let value = self.mmu.read_byte(source);
        self.set_8bit_register(Register8Bit::A, value);
        InstructionResult { cycles: 3, bytes: 2, condition_codes: unaffected_codes() }
    }

    /// LD [HLI],A: store A at [HL], then increment HL.
    pub fn ld_hli_a(&mut self) -> (r: InstructionResult)
        ensures
            final(self)@ == old(self)@.op_ld_hli_a().0,
            r == old(self)@.op_ld_hli_a().1,
    {
        let value = self.get_8bit_register(Register8Bit::A);
        let memory_address = self.get_16bit_register(Register16Bit::HL);
        self.mmu.write_byte(memory_address, value);
        self.set_16bit_register(Register16Bit::HL, memory_address.wrapping_add(1));
        InstructionResult { cycles: 2, bytes: 1, condition_codes: unaffected_codes() }
    }

    /// LD [HLD],A: store A at [HL], then decrement HL.
    pub fn ld_hld_a(&mut self) -> (r: InstructionResult)
        ensures
            final(self)@ == old(self)@.op_ld_hld_a().0,
            r == old(self)@.op_ld_hld_a().1,
    {
        let value = self.get_8bit_register(Register8Bit::A);
        let memory_address = self.get_16bit_register(Register16Bit::HL);
        self.mmu.write_byte(memory_address, value);
        self.set_16bit_register(Register16Bit::HL, memory_address.wrapping_sub(1));
        InstructionResult { cycles: 2, bytes: 1, condition_codes: unaffected_codes() }
    }

    /// LD A,[HLD]: load A from [HL], then decrement HL.
    pub fn ld_a_hld(&mut self) -> (r: InstructionResult)
        ensures
            final(self)@ == old(self)@.op_ld_a_hld().0,
            r == old(self)@.op_ld_a_hld().1,
    {
        let memory_address = self.get_16bit_register(Register16Bit::HL);
        let value = self.mmu.read_byte(memory_address);
        self.set_8bit_register(Register8Bit::A, value);
        self.set_16bit_register(Register16Bit::HL, memory_address.wrapping_sub(1));
        InstructionResult { cycles: 2, bytes: 1, condition_codes: unaffected_codes() }
    }

    /// LD A,[HLI]: load A from [HL], then increment HL.
    pub fn ld_a_hli(&mut self) -> (r: InstructionResult)
        ensures
            final(self)@ == old(self)@.op_ld_a_hli().0,
            r == old(self)@.op_ld_a_hli().1,
    {
        let memory_address = self.get_16bit_register(Register16Bit::HL);
        let value = self.mmu.read_byte(memory_address);
        self.set_8bit_register(Register8Bit::A, value);
        self.set_16bit_register(Register16Bit::HL, memory_address.wrapping_add(1));
        InstructionResult { cycles: 2, bytes: 1, condition_codes: unaffected_codes() }
    }
}

} // verus!
