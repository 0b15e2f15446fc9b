//! The flags register F: zero (bit 7), subtraction (bit 6),
//! half carry (bit 5) and carry (bit 4).
use vstd::prelude::*;

use super::CPU;

verus! {

/// Bit 7: the result of the last operation was zero.
pub const ZERO_FLAG: u8 = 0b1000_0000;

/// Bit 6: the last operation was a subtraction.
pub const SUBTRACTION_FLAG: u8 = 0b0100_0000;

/// Bit 5: the last operation carried out of the lower nibble.
pub const HALF_CARRY_FLAG: u8 = 0b0010_0000;

/// Bit 4: the last operation carried out of the byte.
pub const CARRY_FLAG: u8 = 0b0001_0000;

impl CPU {
    /// Set the zero flag.
    pub fn set_zero_flag(&mut self)
        ensures
            final(self)@ == old(self)@.set_flags(old(self)@.flags() | ZERO_FLAG),
    {
        self.registers[1] = self.registers[1] | ZERO_FLAG;
    }

    /// Clear the zero flag.
    pub fn clear_zero_flag(&mut self)
        ensures
            final(self)@ == old(self)@.set_flags(old(self)@.flags() & !ZERO_FLAG),
    {
        self.registers[1] = self.registers[1] & !ZERO_FLAG;
    }

    /// Whether the zero flag is set.
    pub fn is_zero_flag_set(&self) -> (r: bool)
        ensures
            r == self@.zero_flag(),
    {
        self.registers[1] & ZERO_FLAG == ZERO_FLAG
    }

    /// Set the subtraction flag.
    pub fn set_subtraction_flag(&mut self)
        ensures
            final(self)@ == old(self)@.set_flags(old(self)@.flags() | SUBTRACTION_FLAG),
    {
        self.registers[1] = self.registers[1] | SUBTRACTION_FLAG;
    }

    /// Clear the subtraction flag.
    pub fn clear_subtraction_flag(&mut self)
        ensures
            final(self)@ == old(self)@.set_flags(old(self)@.flags() & !SUBTRACTION_FLAG),
    {
        self.registers[1] = self.registers[1] & !SUBTRACTION_FLAG;
    }

    /// Whether the subtraction flag is set.
    pub fn is_subtraction_flag_set(&self) -> (r: bool)
        ensures
            r == self@.subtraction_flag(),
    {
        self.registers[1] & SUBTRACTION_FLAG == SUBTRACTION_FLAG
    }

    /// Set the half carry flag.
    pub fn set_half_carry_flag(&mut self)
        ensures
            final(self)@ == old(self)@.set_flags(old(self)@.flags() | HALF_CARRY_FLAG),
    {
        self.registers[1] = self.registers[1] | HALF_CARRY_FLAG;
    }

    /// Clear the half carry flag.
    pub fn clear_half_carry_flag(&mut self)
        ensures
            final(self)@ == old(self)@.set_flags(old(self)@.flags() & !HALF_CARRY_FLAG),
    {
        self.registers[1] = self.registers[1] & !HALF_CARRY_FLAG;
    }

    /// Whether the half carry flag is set.
    pub fn is_half_carry_flag_set(&self) -> (r: bool)
        ensures
            r == self@.half_carry_flag(),
    {
        self.registers[1] & HALF_CARRY_FLAG == HALF_CARRY_FLAG
    }

    /// Set the carry flag.
    pub fn set_carry_flag(&mut self)
        ensures
            final(self)@ == old(self)@.set_flags(old(self)@.flags() | CARRY_FLAG),
    {
        self.registers[1] = self.registers[1] | CARRY_FLAG;
    }

    /// Clear the carry flag.
    pub fn clear_carry_flag(&mut self)
        ensures
            final(self)@ == old(self)@.set_flags(old(self)@.flags() & !CARRY_FLAG),
    {
        self.registers[1] = self.registers[1] & !CARRY_FLAG;
    }

    /// Whether the carry flag is set.
    pub fn is_carry_flag_set(&self) -> (r: bool)
        ensures
            r == self@.carry_flag(),
    {
        self.registers[1] & CARRY_FLAG == CARRY_FLAG
    }

    /// The flags register as a byte.
    pub fn flags_to_u8(&self) -> (r: u8)
        ensures
            r == self@.flags(),
    {
        self.registers[1]
    }
}

} // verus!
