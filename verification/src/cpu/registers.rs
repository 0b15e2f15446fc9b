//! The register file of the CPU.
use vstd::prelude::*;

use super::{CpuView, CPU};
use crate::bits::{lemma_combine_bytes, lemma_split_word};

verus! {

/// The 8-bit registers (F is only reachable through AF).
#[derive(Debug, PartialEq, Eq, Structural, Clone, Copy)]
pub enum Register8Bit {
    A,
    B,
    C,
    D,
    E,
    H,
    L,
}

/// The 16-bit registers: the four register pairs and SP, PC.
#[derive(Debug, PartialEq, Eq, Structural, Clone, Copy)]
pub enum Register16Bit {
    AF,
    BC,
    DE,
    HL,
    SP,
    PC,
}

impl Register8Bit {
    /// Position of the register in the register file.
    pub open spec fn slot(self) -> int {
        match self {
            Register8Bit::A => 0,
            Register8Bit::B => 2,
            Register8Bit::C => 3,
            Register8Bit::D => 4,
            Register8Bit::E => 5,
            Register8Bit::H => 6,
            Register8Bit::L => 7,
        }
    }

    /// Position of the register in the register file.
    pub fn index(self) -> (r: usize)
        ensures
            r == self.slot(),
    {
        match self {
            Register8Bit::A => 0,
            Register8Bit::B => 2,
            Register8Bit::C => 3,
            Register8Bit::D => 4,
            Register8Bit::E => 5,
            Register8Bit::H => 6,
            Register8Bit::L => 7,
        }
    }
}

impl Register16Bit {
    /// Position of the high byte of the register in the register file
    /// (the low byte follows it).
    pub open spec fn slot(self) -> int {
        match self {
            Register16Bit::AF => 0,
            Register16Bit::BC => 2,
            Register16Bit::DE => 4,
            Register16Bit::HL => 6,
            Register16Bit::SP => 8,
            Register16Bit::PC => 10,
        }
    }

    /// Position of the high byte of the register in the register file.
    pub fn index(self) -> (r: usize)
        ensures
            r == self.slot(),
    {
        match self {
            Register16Bit::AF => 0,
            Register16Bit::BC => 2,
            Register16Bit::DE => 4,
            Register16Bit::HL => 6,
            Register16Bit::SP => 8,
            Register16Bit::PC => 10,
        }
    }
}

impl From<Register8Bit> for u8 {
    fn from(register: Register8Bit) -> (r: u8) {
        register.index() as u8
    }
}

impl vstd::std_specs::convert::FromSpecImpl<Register8Bit> for u8 {
    open spec fn obeys_from_spec() -> bool {
        true
    }

    open spec fn from_spec(register: Register8Bit) -> u8 {
        register.slot() as u8
    }
}

impl From<Register16Bit> for u8 {
    fn from(register: Register16Bit) -> (r: u8) {
        register.index() as u8
    }
}

impl vstd::std_specs::convert::FromSpecImpl<Register16Bit> for u8 {
    open spec fn obeys_from_spec() -> bool {
        true
    }

    open spec fn from_spec(register: Register16Bit) -> u8 {
        register.slot() as u8
    }
}

impl CPU {
    /// Get an 8-bit register.
    pub fn get_8bit_register(&self, register: Register8Bit) -> (r: u8)
        ensures
            r == self@.reg8(register),
    {
        self.registers[register.index()]
    }

    /// Get a 16-bit register: the high byte comes first in the register file.
    pub fn get_16bit_register(&self, register: Register16Bit) -> (r: u16)
        ensures
            r == self@.reg16(register),
    {
        let register_value = register.index();
        let high = self.registers[register_value] as u16;
        let low = self.registers[register_value + 1] as u16;
        proof {
            lemma_combine_bytes(high, low);
        }
        (high << 8) | low
    }

    /// Set an 8-bit register.
    pub fn set_8bit_register(&mut self, register: Register8Bit, value: u8)
        ensures
            final(self)@ == old(self)@.set_reg8(register, value),
    {
        self.registers[register.index()] = value;
    }

    /// Set a 16-bit register: the high byte is stored first.
    pub fn set_16bit_register(&mut self, register: Register16Bit, value: u16)
        ensures
            final(self)@ == old(self)@.set_reg16(register, value),
    {
        let register_value = register.index();
        proof {
            lemma_split_word(value);
        }
        self.registers[register_value] = (value >> 8) as u8;
        self.registers[register_value + 1] = value as u8;
    }
}

} // verus!
