//! Miscellaneous instructions: NOP, EI, DI, CCF, CPL, DAA, SCF and HALT.
use vstd::prelude::*;

use crate::cpu::instructions::{codes, flag_from, flag_state, outcome, unaffected, unaffected_codes, ConditionCodes, FlagState, InstructionResult};
use crate::cpu::interrupts::{INTERRUPT_ENABLE_ADDRESS, INTERRUPT_FLAG_ADDRESS};
use crate::cpu::registers::Register8Bit;
use crate::cpu::{CpuView, CPU};
use crate::mmu::MemoryOperations;

verus! {

/// The correction that DAA adds to (or subtracts from) A, and whether it
/// sets the carry: 0x06 when the low digit overflowed, 0x60 when the high
/// digit did.
pub open spec fn daa_correction(a: u8, subtraction: bool, half_carry: bool, carry: bool) -> (u8, bool) {
    let low: u8 = if half_carry || (!subtraction && a % 16 > 9) { 0x06 } else { 0 };
    let high = carry || (!subtraction && a > 0x99);
    ((low + if high { 0x60u8 } else { 0u8 }) as u8, high)
}

/// The value of A after DAA.
pub open spec fn daa_value(a: u8, subtraction: bool, half_carry: bool, carry: bool) -> u8 {
    let correction = daa_correction(a, subtraction, half_carry, carry).0;
    if subtraction {
        ((a - correction + 256) % 256) as u8
    } else {
        ((a + correction) % 256) as u8
    }
}

/// Whether both decimal digits of a packed BCD byte are at most 9.
pub open spec fn is_bcd(x: u8) -> bool {
    x % 16 <= 9 && x / 16 <= 9
}

/// The number that a packed BCD byte stands for.
pub open spec fn bcd_value(x: u8) -> int {
    10 * (x / 16) + x % 16
}

/// The packed BCD byte of a number below 100.
pub open spec fn to_bcd(n: int) -> u8 {
    (16 * (n / 10) + n % 10) as u8
}

/// The decimal adjustment on the flags that the binary addition of two BCD
/// bytes leaves, in bit-vector form.
proof fn lemma_daa_bcd_sum(x: u8, y: u8)
    requires
        x % 16 <= 9,
        x / 16 <= 9,
        y % 16 <= 9,
        y / 16 <= 9,
    ensures
        ({
            let a = ((x as u16 + y as u16) % 256) as u8;
            let h = (x % 16) + (y % 16) > 15;
            let c = x as u16 + y as u16 > 255;
            let n = 10 * (x / 16) as u16 + (x % 16) as u16 + 10 * (y / 16) as u16 + (y % 16) as u16;
            &&& daa_value(a, false, h, c) == (16 * ((n % 100) / 10) + (n % 100) % 10) as u8
            &&& daa_correction(a, false, h, c).1 == (n >= 100)
        }),
{
    assert({
        let a = ((x as u16 + y as u16) % 256) as u8;
        let h = (x % 16) + (y % 16) > 15;
        let c = x as u16 + y as u16 > 255;
        let n = 10 * (x / 16) as u16 + (x % 16) as u16 + 10 * (y / 16) as u16 + (y % 16) as u16;
        let low: u8 = if h || (a % 16 > 9) { 0x06 } else { 0 };
        let high = c || a > 0x99;
        let correction = (low + if high { 0x60u8 } else { 0u8 }) as u8;
        &&& ((a + correction) % 256) as u8 == (16 * ((n % 100) / 10) + (n % 100) % 10) as u8
        &&& high == (n >= 100)
    }) by (bit_vector)
        requires
            x % 16 <= 9,
            x / 16 <= 9,
            y % 16 <= 9,
            y / 16 <= 9;
}

/// DAA after adding two packed BCD bytes gives their decimal sum: when A
/// holds the binary sum of `x` and `y` with N clear, H the carry out of the
/// low digits and C the carry out of the byte (as ADD leaves them), DAA
/// leaves the BCD digits of the sum modulo 100 in A, sets C exactly when
/// the sum reaches 100, sets Z exactly when the digits are 00, and clears H.
pub proof fn law_daa_after_bcd_addition(s: CpuView, x: u8, y: u8)
    requires
        s.regs.len() == 12,
        is_bcd(x),
        is_bcd(y),
        s.reg8(Register8Bit::A) == (x + y) % 256,
        !s.subtraction_flag(),
        s.half_carry_flag() == ((x % 16) + (y % 16) > 15),
        s.carry_flag() == (x + y > 255),
    ensures
        ({
            let sum = bcd_value(x) + bcd_value(y);
            &&& s.op_daa().0.reg8(Register8Bit::A) == to_bcd(sum % 100)
            &&& s.op_daa().1.condition_codes.carry == flag_state(sum >= 100)
            &&& s.op_daa().1.condition_codes.zero == flag_state(sum % 100 == 0)
            &&& s.op_daa().1.condition_codes.half_carry == FlagState::Unset
        }),
{
    lemma_daa_bcd_sum(x, y);
    let sum = bcd_value(x) + bcd_value(y);
    let n = 10 * (x / 16) as u16 + (x % 16) as u16 + 10 * (y / 16) as u16 + (y % 16) as u16;
    assert(n == sum);
    assert(((x as u16 + y as u16) % 256) as u8 == s.reg8(Register8Bit::A));
    let v = to_bcd(sum % 100);
    assert(v == 0 <==> sum % 100 == 0);
}

impl CpuView {
    /// NOP: nothing changes.
    pub open spec fn op_nop(self) -> (CpuView, InstructionResult) {
        (self, outcome(1, 1, unaffected()))
    }

    /// EI: IME is to be set after the next instruction.
    pub open spec fn op_ei(self) -> (CpuView, InstructionResult) {
        (CpuView { enable_ime: 2, ..self }, outcome(1, 1, unaffected()))
    }

    /// DI: IME cleared at once.
    pub open spec fn op_di(self) -> (CpuView, InstructionResult) {
        (CpuView { ime_flag: false, ..self }, outcome(1, 1, unaffected()))
    }

    /// CCF: the carry complemented, N and H cleared.
    pub open spec fn op_ccf(self) -> (CpuView, InstructionResult) {
        (self, outcome(1, 1, codes(FlagState::NotAffected, FlagState::Unset, FlagState::Unset, flag_state(!self.carry_flag()))))
    }

    /// CPL: A complemented, N and H set.
    pub open spec fn op_cpl(self) -> (CpuView, InstructionResult) {
        (
            self.set_reg8(Register8Bit::A, !self.reg8(Register8Bit::A)),
            outcome(1, 1, codes(FlagState::NotAffected, FlagState::Raised, FlagState::Raised, FlagState::NotAffected)),
        )
    }

    /// SCF: the carry set, N and H cleared.
    pub open spec fn op_scf(self) -> (CpuView, InstructionResult) {
        (self, outcome(1, 1, codes(FlagState::NotAffected, FlagState::Unset, FlagState::Unset, FlagState::Raised)))
    }

    /// DAA: decimal-adjust A after a BCD addition or subtraction.
    pub open spec fn op_daa(self) -> (CpuView, InstructionResult) {
        let a = self.reg8(Register8Bit::A);
        let n = self.subtraction_flag();
        let h = self.half_carry_flag();
        let c = self.carry_flag();
        let value = daa_value(a, n, h, c);
        (
            self.set_reg8(Register8Bit::A, value),
            outcome(1, 1, codes(flag_state(value == 0), FlagState::NotAffected, FlagState::Unset, flag_state(daa_correction(a, n, h, c).1))),
        )
    }

    /// Whether some interrupt is both requested (IF) and enabled (IE).
    pub open spec fn interrupt_pending(self) -> bool {
        self.read(INTERRUPT_ENABLE_ADDRESS) & self.read(INTERRUPT_FLAG_ADDRESS) != 0
    }

    /// HALT: with IME set, dispatch a pending interrupt; the result takes one
    /// byte and no cycle when an interrupt was dispatched (or, with IME clear,
    /// is pending), and is the empty result otherwise.
    pub open spec fn op_halt(self) -> (CpuView, InstructionResult) {
        if self.ime_flag {
            let (after, dispatched) = self.op_check_and_handle_interrupts();
            (after, if dispatched { outcome(0, 1, unaffected()) } else { InstructionResult::spec_default() })
        } else if self.interrupt_pending() {
            (self, outcome(0, 1, unaffected()))
        } else {
            (self, InstructionResult::spec_default())
        }
    }
}

impl CPU {
    /// NOP: do nothing.
    pub fn nop(&self) -> (r: InstructionResult)
        ensures
            r == self@.op_nop().1,
    {
        InstructionResult { cycles: 1, bytes: 1, condition_codes: unaffected_codes() }
    }

    /// EI: enable interrupts after the next instruction.
    pub fn ei(&mut self) -> (r: InstructionResult)
        ensures
            final(self)@ == old(self)@.op_ei().0,
            r == old(self)@.op_ei().1,
    {
        self.enable_ime = 2;
        InstructionResult { cycles: 1, bytes: 1, condition_codes: unaffected_codes() }
    }

    /// DI: disable interrupts at once.
    pub fn di(&mut self) -> (r: InstructionResult)
        ensures
            final(self)@ == old(self)@.op_di().0,
            r == old(self)@.op_di().1,
    {
        self.ime_flag = false;
        InstructionResult { cycles: 1, bytes: 1, condition_codes: unaffected_codes() }
    }

    /// CCF: complement the carry flag; N and H cleared.
    pub fn ccf(&self) -> (r: InstructionResult)
        ensures
            r == self@.op_ccf().1,
    {
        InstructionResult {
            cycles: 1,
            bytes: 1,
            condition_codes: ConditionCodes {
                zero: FlagState::NotAffected,
                subtract: FlagState::Unset,
                half_carry: FlagState::Unset,
                carry: flag_from(!self.is_carry_flag_set()),
            },
        }
    }

    /// CPL: complement A; N and H set.
    pub fn cpl(&mut self) -> (r: InstructionResult)
        ensures
            final(self)@ == old(self)@.op_cpl().0,
            r == old(self)@.op_cpl().1,
    {
        let value = self.get_8bit_register(Register8Bit::A);
        self.set_8bit_register(Register8Bit::A, !value);
        InstructionResult {
            cycles: 1,
            bytes: 1,
            condition_codes: ConditionCodes {
                zero: FlagState::NotAffected,
                subtract: FlagState::Raised,
                half_carry: FlagState::Raised,
                carry: FlagState::NotAffected,
            },
        }
    }

    /// DAA: decimal-adjust A.
    pub fn daa(&mut self) -> (r: InstructionResult)
        ensures
            final(self)@ == old(self)@.op_daa().0,
            r == old(self)@.op_daa().1,
    {
        let mut value = self.get_8bit_register(Register8Bit::A);
        let mut daa_correction: u8 = 0;
        let mut set_carry = false;
        let half_carry = self.is_half_carry_flag_set();
        let carry = self.is_carry_flag_set();
        let subtraction = self.is_subtraction_flag_set();
        let low_digit = value & 0xf;
        proof {
            crate::bits::lemma_low_nibble(value);
        }
        if half_carry || (!subtraction && low_digit > 9) {
            daa_correction = daa_correction + 0x6;
        }
        if carry || (!subtraction && value > 0x99) {
            daa_correction = daa_correction + 0x60;
            set_carry = true;
        }
        if subtraction {
            value = value.wrapping_sub(daa_correction);
        } else {
            value = value.wrapping_add(daa_correction);
        }
        self.set_8bit_register(Register8Bit::A, value);
        InstructionResult {
            cycles: 1,
            bytes: 1,
            condition_codes: ConditionCodes {
                zero: flag_from(value == 0),
                subtract: FlagState::NotAffected,
                half_carry: FlagState::Unset,
                carry: flag_from(set_carry),
            },
        }
    }

    /// SCF: set the carry flag; N and H cleared.
    pub fn scf(&mut self) -> (r: InstructionResult)
        ensures
            final(self)@ == old(self)@.op_scf().0,
            r == old(self)@.op_scf().1,
    {
        InstructionResult {
            cycles: 1,
            bytes: 1,
            condition_codes: ConditionCodes {
                zero: FlagState::NotAffected,
                subtract: FlagState::Unset,
                half_carry: FlagState::Unset,
                carry: FlagState::Raised,
            },
        }
    }

    /// Whether some interrupt is both requested and enabled.
    pub fn interrupt_pentding(&mut self) -> (r: bool)
        ensures
            final(self)@ == old(self)@,
            r == old(self)@.interrupt_pending(),
    {
        let interrupt_enable = self.mmu.read_byte(INTERRUPT_ENABLE_ADDRESS);
        let interrupt_flag = self.mmu.read_byte(INTERRUPT_FLAG_ADDRESS);
        if interrupt_enable & interrupt_flag == 0 {
            return false;
        }
        true
    }

    /// HALT: see `CpuView::op_halt`.
    pub fn halt(&mut self) -> (r: InstructionResult)
        ensures
            final(self)@ == old(self)@.op_halt().0,
            r == old(self)@.op_halt().1,
    {
        if self.ime_flag {
            if self.check_and_handle_interrupts() {
                InstructionResult { bytes: 1, cycles: 0, condition_codes: unaffected_codes() }
            } else {
                InstructionResult::default()
            }
        } else if self.interrupt_pentding() {
            InstructionResult { bytes: 1, cycles: 0, condition_codes: unaffected_codes() }
        } else {
            InstructionResult::default()
        }
    }
}

} // verus!
