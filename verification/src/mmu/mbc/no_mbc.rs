//! The controller of a ROM-only cartridge: one fixed ROM bank at 0x4000 and
//! no switching.
use vstd::prelude::*;

use crate::mmu::{MemoryBankControllerOperations, MemoryOperations};

verus! {

/// A ROM-only cartridge: the second ROM bank and 8 KiB of RAM.
pub struct NoMbc {
    rom: [u8; 0x4000],
    ram: [u8; 0x2000],
}

/// The mathematical model of a [`NoMbc`].
#[verifier::ext_equal]
pub struct NoMbcView {
    pub rom: Seq<u8>,
    pub ram: Seq<u8>,
}

impl View for NoMbc {
    type V = NoMbcView;

    closed spec fn view(&self) -> NoMbcView {
        NoMbcView { rom: self.rom@, ram: self.ram@ }
    }
}

impl Default for NoMbc {
    /// An empty ROM bank and empty RAM.
    fn default() -> (r: NoMbc)
        ensures
            r@.rom == Seq::new(0x4000, |i: int| 0u8),
            r@.ram == Seq::new(0x2000, |i: int| 0u8),
    {
        let r = NoMbc { rom: [0; 0x4000], ram: [0; 0x2000] };
        assert(r.rom@ =~= Seq::new(0x4000, |i: int| 0u8));
        assert(r.ram@ =~= Seq::new(0x2000, |i: int| 0u8));
        r
    }
}

impl NoMbc {
    /// The index of a ROM address (0x4000 on) in the bank.
    fn calc_physical_rom_address(&self, address: u16) -> (r: usize)
        requires
            address >= 0x4000,
        ensures
            r == address - 0x4000,
    {
        (address - 0x4000) as usize
    }
}

impl MemoryOperations for NoMbc {
    /// The bank answers 0x4000 to 0x7FFF.
    open spec fn readable(&self, address: u16) -> bool {
        0x4000 <= address < 0x8000
    }

    /// Writes are accepted (and ignored) everywhere.
    open spec fn writable(&self, address: u16) -> bool {
        true
    }

    open spec fn byte_at(&self, address: u16) -> u8 {
        self@.rom[address - 0x4000]
    }

    fn read_byte(&self, address: u16) -> (r: u8) {
        let physical_address = self.calc_physical_rom_address(address);
        self.rom[physical_address]
    }

    /// A ROM-only cartridge ignores writes.
    fn write_byte(&mut self, _address: u16, _value: u8)
        ensures
            final(self)@ == old(self)@,
    {
    }
}

impl MemoryBankControllerOperations for NoMbc {
    /// Only the ROM-only cartridge type (0) is served.
    open spec fn accepts_cartridge(&self, cartridge_type: u8) -> bool {
        cartridge_type == 0
    }

    /// There is no ROM bank switching.
    open spec fn can_switch_rom_bank(&self, bank: u8) -> bool {
        false
    }

    /// There is no RAM bank switching.
    open spec fn can_switch_ram_bank(&self, bank: u8) -> bool {
        false
    }

    /// The RAM can only be disabled.
    open spec fn can_enable_ram(&self, enable: bool) -> bool {
        !enable
    }

    /// Nothing to set up for a ROM-only cartridge.
    fn init(&mut self, _rom_size: u8, cartridge_type: u8, ram_size: u8)
        ensures
            final(self)@ == old(self)@,
    {
    }

    /// The single switchable bank takes the data, whatever bank is named.
    fn fill_rom_bank_from_slice(&mut self, bank: u8, data: &[u8; 0x4000])
        ensures
            final(self)@ == (NoMbcView { rom: data@, ..old(self)@ }),
    {
        self.rom = *data;
    }

    /// The RAM takes the data, whatever bank is named.
    fn fill_ram_bank_from_slice(&mut self, bank: u8, data: &[u8; 0x2000])
        ensures
            final(self)@ == (NoMbcView { ram: data@, ..old(self)@ }),
    {
        self.ram = *data;
    }

    /// Never called: a ROM-only cartridge has no bank to switch to.
    fn switch_rom_bank(&mut self, _bank: u8) {
    }

    /// Never called: a ROM-only cartridge has no bank to switch to.
    fn switch_ram_bank(&mut self, _bank: u8) {
    }

    /// Disabling the RAM changes nothing.
    fn enable_ram(&mut self, enable: bool)
        ensures
            final(self)@ == old(self)@,
    {
    }

    /// A ROM-only cartridge has no banking modes.
    fn is_advanced_banking_mode(&self) -> (r: bool)
        ensures
            !r,
    {
        false
    }
}

} // verus!
