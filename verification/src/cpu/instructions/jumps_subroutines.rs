//! Jumps, calls, returns and restarts.
use vstd::prelude::*;

use super::stack_operations::{dec16, inc16};
use crate::cpu::instructions::{outcome, unaffected, unaffected_codes, InstructionResult};
use crate::cpu::registers::Register16Bit;
use crate::cpu::{lemma_reg16_of_set, CpuView, CPU};
use crate::mmu::MemoryOperations;

verus! {

/// `pc + n` on 16 bits, wrapping around.
pub open spec fn advance(pc: u16, n: int) -> u16 {
    ((pc + n) % 65536) as u16
}

/// The target of a relative jump: `pc + offset`, wrapping around.
pub open spec fn relative_target(pc: u16, offset: i8) -> u16 {
    ((pc + offset + 65536) % 65536) as u16
}

impl CpuView {
    /// Push a 16-bit value (high byte first, at the higher address).
    pub open spec fn push_word(self, value: u16) -> CpuView {
        self.push_bytes((value / 256) as u8, (value % 256) as u8)
    }

    /// JP HL.
    pub open spec fn op_jp_hl(self) -> (CpuView, InstructionResult) {
        (self.set_reg16(Register16Bit::PC, self.hl()), outcome(1, 1, unaffected()))
    }

    /// JP n16.
    pub open spec fn op_jp_n16(self, target: u16) -> (CpuView, InstructionResult) {
        (self.set_reg16(Register16Bit::PC, target), outcome(4, 3, unaffected()))
    }

    /// JP cc,n16: jump when the condition holds, else step over the 3 instruction bytes.
    pub open spec fn op_jp_cc_n16(self, cc: bool, target: u16) -> (CpuView, InstructionResult) {
        (
            self.set_reg16(Register16Bit::PC, if cc { target } else { advance(self.pc(), 3) }),
            outcome(if cc { 4 } else { 3 }, 3, unaffected()),
        )
    }

    /// CALL n16: push the address of the next instruction (PC + 3) and jump.
    pub open spec fn op_call_n16(self, target: u16) -> (CpuView, InstructionResult) {
        (self.push_word(advance(self.pc(), 3)).set_reg16(Register16Bit::PC, target), outcome(6, 3, unaffected()))
    }

    /// CALL cc,n16: call when the condition holds, else step over the 3 instruction bytes.
    pub open spec fn op_call_cc_n16(self, cc: bool, target: u16) -> (CpuView, InstructionResult) {
        (
            if cc {
                self.op_call_n16(target).0
            } else {
                self.set_reg16(Register16Bit::PC, advance(self.pc(), 3))
            },
            outcome(if cc { 4 } else { 3 }, 3, unaffected()),
        )
    }

    /// RET: pop PC.
    pub open spec fn op_ret(self) -> (CpuView, InstructionResult) {
        (self.op_pop_r16(Register16Bit::PC).0, outcome(4, 1, unaffected()))
    }

    /// RET cc: return when the condition holds, else step over the instruction byte.
    pub open spec fn op_ret_cc(self, cc: bool) -> (CpuView, InstructionResult) {
        (
            if cc {
                self.op_pop_r16(Register16Bit::PC).0
            } else {
                self.set_reg16(Register16Bit::PC, advance(self.pc(), 1))
            },
            outcome(if cc { 5 } else { 2 }, 1, unaffected()),
        )
    }

    /// RETI: set IME and pop PC.
    pub open spec fn op_reti(self) -> (CpuView, InstructionResult) {
        (CpuView { ime_flag: true, ..self }.op_pop_r16(Register16Bit::PC).0, outcome(4, 1, unaffected()))
    }

    /// RST vec: push PC + 1 and jump to the vector.
    pub open spec fn op_rst_vec(self, vec: u8) -> (CpuView, InstructionResult) {
        (self.push_word(advance(self.pc(), 1)).set_reg16(Register16Bit::PC, vec as u16), outcome(4, 1, unaffected()))
    }

    /// JR e8: PC := PC + e8.
    pub open spec fn op_jr_n16(self, signed_offset: i8) -> (CpuView, InstructionResult) {
        (self.set_reg16(Register16Bit::PC, relative_target(self.pc(), signed_offset)), outcome(3, 2, unaffected()))
    }

    /// JR cc,e8: jump relatively when the condition holds.
    pub open spec fn op_jr_cc_n16(self, cc: bool, signed_offset: i8) -> (CpuView, InstructionResult) {
        (
            if cc { self.op_jr_n16(signed_offset).0 } else { self },
            outcome(if cc { 3 } else { 2 }, 2, unaffected()),
        )
    }
}

impl CPU {
    /// Push a 16-bit value: the high byte at SP - 1, the low byte at SP - 2.
    pub(crate) fn push_word(&mut self, value: u16)
        ensures
            final(self)@ == old(self)@.push_word(value),
    {
        let ghost s0 = self@;
        self.dec_sp();
        let memory_address = self.get_16bit_register(Register16Bit::SP);
        proof {
            lemma_reg16_of_set(s0, Register16Bit::SP, dec16(s0.sp()));
            crate::bits::lemma_split_word(value);
        }
        let value1: u8 = (value >> 8) as u8;
        let value2: u8 = value as u8;
        self.mmu.write_byte(memory_address, value1);
        self.dec_sp();
        self.mmu.write_byte(memory_address.wrapping_sub(1), value2);
    }

    /// JP HL: load HL into PC.
    pub fn jp_hl(&mut self) -> (r: InstructionResult)
        ensures
            final(self)@ == old(self)@.op_jp_hl().0,
            r == old(self)@.op_jp_hl().1,
    {
        let value = self.get_16bit_register(Register16Bit::HL);
        self.set_16bit_register(Register16Bit::PC, value);
        InstructionResult { cycles: 1, bytes: 1, condition_codes: unaffected_codes() }
    }

    /// JP n16: load the target address into PC.
    pub fn jp_n16(&mut self, target: u16) -> (r: InstructionResult)
        ensures
            final(self)@ == old(self)@.op_jp_n16(target).0,
            r == old(self)@.op_jp_n16(target).1,
    {
        self.set_16bit_register(Register16Bit::PC, target);
        InstructionResult { cycles: 4, bytes: 3, condition_codes: unaffected_codes() }
    }

    /// JP cc,n16: jump if the condition holds; otherwise PC moves past the instruction.
    pub fn jp_cc_n16(&mut self, cc: bool, target: u16) -> (r: InstructionResult)
        ensures
            final(self)@ == old(self)@.op_jp_cc_n16(cc, target).0,
            r == old(self)@.op_jp_cc_n16(cc, target).1,
    {
        if cc {
            self.set_16bit_register(Register16Bit::PC, target);
        } else {
            let pc = self.get_16bit_register(Register16Bit::PC);
            self.set_16bit_register(Register16Bit::PC, pc.wrapping_add(3));
        }
        InstructionResult { cycles: if cc { 4 } else { 3 }, bytes: 3, condition_codes: unaffected_codes() }
    }

    /// CALL n16: push the address of the next instruction, then jump to the target.
    pub fn call_n16(&mut self, target: u16) -> (r: InstructionResult)
        ensures
            final(self)@ == old(self)@.op_call_n16(target).0,
            r == old(self)@.op_call_n16(target).1,
    {
        let value = self.get_16bit_register(Register16Bit::PC).wrapping_add(3);
        self.push_word(value);
        self.jp_n16(target);
        InstructionResult { cycles: 6, bytes: 3, condition_codes: unaffected_codes() }
    }

    /// CALL cc,n16: call if the condition holds; otherwise PC moves past the instruction.
    pub fn call_cc_n16(&mut self, cc: bool, target: u16) -> (r: InstructionResult)
        ensures
            final(self)@ == old(self)@.op_call_cc_n16(cc, target).0,
            r == old(self)@.op_call_cc_n16(cc, target).1,
    {
        if cc {
            self.call_n16(target);
        } else {
            let pc = self.get_16bit_register(Register16Bit::PC);
            self.set_16bit_register(Register16Bit::PC, pc.wrapping_add(3));
        }
        InstructionResult { cycles: if cc { 4 } else { 3 }, bytes: 3, condition_codes: unaffected_codes() }
    }

    /// RET: pop PC from the stack.
    pub fn ret(&mut self) -> (r: InstructionResult)
        ensures
            final(self)@ == old(self)@.op_ret().0,
            r == old(self)@.op_ret().1,
    {
        self.pop_r16(Register16Bit::PC);
        InstructionResult { cycles: 4, bytes: 1, condition_codes: unaffected_codes() }
    }

    /// RET cc: return if the condition holds; otherwise PC moves past the instruction.
    pub fn ret_cc(&mut self, cc: bool) -> (r: InstructionResult)
        ensures
            final(self)@ == old(self)@.op_ret_cc(cc).0,
            r == old(self)@.op_ret_cc(cc).1,
    {
        if cc {
            self.pop_r16(Register16Bit::PC);
        } else {
            let pc = self.get_16bit_register(Register16Bit::PC);
            self.set_16bit_register(Register16Bit::PC, pc.wrapping_add(1));
        }
        InstructionResult { cycles: if cc { 5 } else { 2 }, bytes: 1, condition_codes: unaffected_codes() }
    }

    /// RETI: enable interrupts (IME at once) and pop PC from the stack.
    pub fn reti(&mut self) -> (r: InstructionResult)
        ensures
            final(self)@ == old(self)@.op_reti().0,
            r == old(self)@.op_reti().1,
    {
        self.ime_flag = true;
        self.pop_r16(Register16Bit::PC);
        InstructionResult { cycles: 4, bytes: 1, condition_codes: unaffected_codes() }
    }

    /// RST vec: push the address of the next instruction and jump to the
    /// vector (0x00, 0x08, 0x10, 0x18, 0x20, 0x28, 0x30 or 0x38).
    pub fn rst_vec(&mut self, vec: u8) -> (r: InstructionResult)
        ensures
            final(self)@ == old(self)@.op_rst_vec(vec).0,
            r == old(self)@.op_rst_vec(vec).1,
    {
        let value = self.get_16bit_register(Register16Bit::PC).wrapping_add(1);
        self.push_word(value);
        self.jp_n16(vec as u16);
        InstructionResult { cycles: 4, bytes: 1, condition_codes: unaffected_codes() }
    }

    /// JR e8: relative jump by a signed offset from the current PC.
    pub fn jr_n16(&mut self, signed_offset: i8) -> (r: InstructionResult)
        ensures
            final(self)@ == old(self)@.op_jr_n16(signed_offset).0,
            r == old(self)@.op_jr_n16(signed_offset).1,
    {
        let next_address = self.get_16bit_register(Register16Bit::PC);
        proof {
            crate::bits::lemma_sign_extend(signed_offset);
        }
        let jump_address = next_address.wrapping_add(signed_offset as u16);
        self.jp_n16(jump_address);
        InstructionResult { cycles: 3, bytes: 2, condition_codes: unaffected_codes() }
    }

    /// JR cc,e8: relative jump if the condition holds.
    pub fn jr_cc_n16(&mut self, cc: bool, signed_offset: i8) -> (r: InstructionResult)
        ensures
            final(self)@ == old(self)@.op_jr_cc_n16(cc, signed_offset).0,
            r == old(self)@.op_jr_cc_n16(cc, signed_offset).1,
    {
        if cc {
            self.jr_n16(signed_offset);
        }
        InstructionResult { cycles: if cc { 3 } else { 2 }, bytes: 2, condition_codes: unaffected_codes() }
    }
}

} // verus!
