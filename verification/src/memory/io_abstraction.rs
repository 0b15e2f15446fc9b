//! Named access to the I/O registers.
use vstd::prelude::*;

use super::Memory;

verus! {

/// The I/O registers (see the Pan Docs hardware register list).
#[derive(Debug, Clone, Copy, PartialEq, Eq, Structural)]
pub enum HardwareRegisters {
    /// Joypad
    JOYP,
    /// Serial transfer data
    SB,
    /// Serial transfer control
    SC,
    /// Divider register
    DIV,
    /// Timer counter
    TIMA,
    /// Timer modulo
    TMA,
    /// Timer control
    TAC,
    /// Interrupt flag
    IF,
    NR10,
    NR11,
    NR12,
    NR13,
    NR14,
    NR21,
    NR22,
    NR23,
    NR24,
    NR30,
    NR31,
    NR32,
    NR33,
    NR34,
    NR41,
    NR42,
    NR43,
    NR44,
    NR50,
    NR51,
    NR52,
    /// LCD control
    LCDC,
    /// LCD status
    STAT,
    /// Viewport Y
    SCY,
    /// Viewport X
    SCX,
    /// LCD Y coordinate
    LY,
    /// LY compare
    LYC,
    /// OAM DMA source and start
    DMA,
    /// Background palette
    BGP,
    /// Object palette 0
    OBP0,
    /// Object palette 1
    OBP1,
    /// Window Y position
    WY,
    /// Window X position + 7
    WX,
    /// Interrupt enable
    IE,
}

impl HardwareRegisters {
    /// The bus address of the register.
    pub open spec fn spec_address(self) -> u16 {
        match self {
            HardwareRegisters::JOYP => 0xFF00,
            HardwareRegisters::SB => 0xFF01,
            HardwareRegisters::SC => 0xFF02,
            HardwareRegisters::DIV => 0xFF04,
            HardwareRegisters::TIMA => 0xFF05,
            HardwareRegisters::TMA => 0xFF06,
            HardwareRegisters::TAC => 0xFF07,
            HardwareRegisters::IF => 0xFF0F,
            HardwareRegisters::NR10 => 0xFF10,
            HardwareRegisters::NR11 => 0xFF11,
            HardwareRegisters::NR12 => 0xFF12,
            HardwareRegisters::NR13 => 0xFF13,
            HardwareRegisters::NR14 => 0xFF14,
            HardwareRegisters::NR21 => 0xFF16,
            HardwareRegisters::NR22 => 0xFF17,
            HardwareRegisters::NR23 => 0xFF18,
            HardwareRegisters::NR24 => 0xFF19,
            HardwareRegisters::NR30 => 0xFF1A,
            HardwareRegisters::NR31 => 0xFF1B,
            HardwareRegisters::NR32 => 0xFF1C,
            HardwareRegisters::NR33 => 0xFF1D,
            HardwareRegisters::NR34 => 0xFF1E,
            HardwareRegisters::NR41 => 0xFF20,
            HardwareRegisters::NR42 => 0xFF21,
            HardwareRegisters::NR43 => 0xFF22,
            HardwareRegisters::NR44 => 0xFF23,
            HardwareRegisters::NR50 => 0xFF24,
            HardwareRegisters::NR51 => 0xFF25,
            HardwareRegisters::NR52 => 0xFF26,
            HardwareRegisters::LCDC => 0xFF40,
            HardwareRegisters::STAT => 0xFF41,
            HardwareRegisters::SCY => 0xFF42,
            HardwareRegisters::SCX => 0xFF43,
            HardwareRegisters::LY => 0xFF44,
            HardwareRegisters::LYC => 0xFF45,
            HardwareRegisters::DMA => 0xFF46,
            HardwareRegisters::BGP => 0xFF47,
            HardwareRegisters::OBP0 => 0xFF48,
            HardwareRegisters::OBP1 => 0xFF49,
            HardwareRegisters::WY => 0xFF4A,
            HardwareRegisters::WX => 0xFF4B,
            HardwareRegisters::IE => 0xFFFF,
        }
    }

    /// The bus address of the register.
    pub fn address(self) -> (r: u16)
        ensures
            r == self.spec_address(),
    {
        match self {
            HardwareRegisters::JOYP => 0xFF00,
            HardwareRegisters::SB => 0xFF01,
            HardwareRegisters::SC => 0xFF02,
            HardwareRegisters::DIV => 0xFF04,
            HardwareRegisters::TIMA => 0xFF05,
            HardwareRegisters::TMA => 0xFF06,
            HardwareRegisters::TAC => 0xFF07,
            HardwareRegisters::IF => 0xFF0F,
            HardwareRegisters::NR10 => 0xFF10,
            HardwareRegisters::NR11 => 0xFF11,
            HardwareRegisters::NR12 => 0xFF12,
            HardwareRegisters::NR13 => 0xFF13,
            HardwareRegisters::NR14 => 0xFF14,
            HardwareRegisters::NR21 => 0xFF16,
            HardwareRegisters::NR22 => 0xFF17,
            HardwareRegisters::NR23 => 0xFF18,
            HardwareRegisters::NR24 => 0xFF19,
            HardwareRegisters::NR30 => 0xFF1A,
            HardwareRegisters::NR31 => 0xFF1B,
            HardwareRegisters::NR32 => 0xFF1C,
            HardwareRegisters::NR33 => 0xFF1D,
            HardwareRegisters::NR34 => 0xFF1E,
            HardwareRegisters::NR41 => 0xFF20,
            HardwareRegisters::NR42 => 0xFF21,
            HardwareRegisters::NR43 => 0xFF22,
            HardwareRegisters::NR44 => 0xFF23,
            HardwareRegisters::NR50 => 0xFF24,
            HardwareRegisters::NR51 => 0xFF25,
            HardwareRegisters::NR52 => 0xFF26,
            HardwareRegisters::LCDC => 0xFF40,
            HardwareRegisters::STAT => 0xFF41,
            HardwareRegisters::SCY => 0xFF42,
            HardwareRegisters::SCX => 0xFF43,
            HardwareRegisters::LY => 0xFF44,
            HardwareRegisters::LYC => 0xFF45,
            HardwareRegisters::DMA => 0xFF46,
            HardwareRegisters::BGP => 0xFF47,
            HardwareRegisters::OBP0 => 0xFF48,
            HardwareRegisters::OBP1 => 0xFF49,
            HardwareRegisters::WY => 0xFF4A,
            HardwareRegisters::WX => 0xFF4B,
            HardwareRegisters::IE => 0xFFFF,
        }
    }
}

impl From<HardwareRegisters> for u16 {
    fn from(register: HardwareRegisters) -> (r: u16) {
        register.address()
    }
}

impl vstd::std_specs::convert::FromSpecImpl<HardwareRegisters> for u16 {
    open spec fn obeys_from_spec() -> bool {
        true
    }

    open spec fn from_spec(register: HardwareRegisters) -> u16 {
        register.spec_address()
    }
}

impl Memory {
    /// Read an I/O register by name.
    pub fn read_io_register(&self, register: HardwareRegisters) -> (r: u8)
        ensures
            r == self@.read(register.spec_address()),
    {
        self.read_byte(register.address())
    }

    /// Write an I/O register by name (with the same side effects as a bus write).
    pub fn write_io_register(&mut self, register: HardwareRegisters, value: u8)
        ensures
            final(self)@ == old(self)@.write(register.spec_address(), value),
    {
        self.write_byte(register.address(), value);
    }
}

} // verus!
