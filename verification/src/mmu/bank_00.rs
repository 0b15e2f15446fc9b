//! ROM bank 00 of the cartridge with the boot ROM overlay.
use vstd::prelude::*;

use super::{MemoryOperations, NonMbcOperations};

verus! {

/// Size of the DMG boot ROM.
pub const BOOTROM_SIZE: usize = 0x100;

/// ROM bank 00 (0x0000 to 0x3FFF); while the boot ROM is enabled it
/// answers the first 256 addresses.
pub struct Bank00 {
    rom: [u8; 0x4000],
    boot_rom: [u8; 256],
    pub boot_rom_enabled: bool,
}

/// The mathematical model of a [`Bank00`].
#[verifier::ext_equal]
pub struct Bank00View {
    pub rom: Seq<u8>,
    pub boot_rom: Seq<u8>,
    pub boot_rom_enabled: bool,
}

impl View for Bank00 {
    type V = Bank00View;

    closed spec fn view(&self) -> Bank00View {
        Bank00View { rom: self.rom@, boot_rom: self.boot_rom@, boot_rom_enabled: self.boot_rom_enabled }
    }
}

impl Bank00View {
    /// Well-formedness: a full bank and a full boot ROM.
    pub open spec fn wf(self) -> bool {
        self.rom.len() == 0x4000 && self.boot_rom.len() == 256
    }
}

impl Default for Bank00 {
    /// An empty bank with an empty boot ROM, enabled.
    fn default() -> (r: Bank00)
        ensures
            r@.rom == Seq::new(0x4000, |i: int| 0u8),
            r@.boot_rom == Seq::new(256, |i: int| 0u8),
            r@.boot_rom_enabled,
    {
        let r = Bank00 { rom: [0; 0x4000], boot_rom: [0; 256], boot_rom_enabled: true };
        assert(r.rom@ =~= Seq::new(0x4000, |i: int| 0u8));
        assert(r.boot_rom@ =~= Seq::new(256, |i: int| 0u8));
        r
    }
}

impl Bank00 {
    /// Replace the boot ROM image.
    pub fn load_boot_rom(&mut self, data: &[u8; 256])
        ensures
            final(self)@ == (Bank00View { boot_rom: data@, ..old(self)@ }),
    {
        self.boot_rom = *data;
    }

    /// Turn the boot ROM overlay off.
    pub fn disable_boot_rom(&mut self)
        ensures
            final(self)@ == (Bank00View { boot_rom_enabled: false, ..old(self)@ }),
    {
        self.boot_rom_enabled = false;
    }
}

impl MemoryOperations for Bank00 {
    /// The bank answers 0x0000 to 0x3FFF.
    open spec fn readable(&self, address: u16) -> bool {
        address < 0x4000
    }

    /// Writes are accepted (and ignored) everywhere.
    open spec fn writable(&self, address: u16) -> bool {
        true
    }

    /// The boot ROM while enabled below 0x100, else the bank.
    open spec fn byte_at(&self, address: u16) -> u8 {
        if self@.boot_rom_enabled && address < 0x100 {
            self@.boot_rom[address as int]
        } else {
            self@.rom[address as int]
        }
    }

    fn read_byte(&self, address: u16) -> (r: u8) {
        if self.boot_rom_enabled && address < 0x100 {
            self.boot_rom[address as usize]
        } else {
            self.rom[address as usize]
        }
    }

    /// A ROM-only cartridge ignores writes.
    fn write_byte(&mut self, _address: u16, _value: u8)
        ensures
            final(self)@ == old(self)@,
    {
    }
}

impl NonMbcOperations for Bank00 {
    /// The slice must fill the bank exactly.
    open spec fn fill_accepts(&self, len: nat) -> bool {
        len == 0x4000
    }

    /// Copy the slice into the bank.
    fn fill_from_slice(&mut self, data: &[u8])
        ensures
            final(self)@ == (Bank00View { rom: data@, ..old(self)@ }),
    {
        let mut i: usize = 0;
        while i < 0x4000
            invariant
                data@.len() == 0x4000,
                i <= 0x4000,
                self.boot_rom@ == old(self).boot_rom@,
                self.boot_rom_enabled == old(self).boot_rom_enabled,
                forall|j: int| 0 <= j < i ==> #[trigger] self.rom@[j] == data@[j],
            decreases 0x4000 - i,
        {
            self.rom[i] = data[i];
            i = i + 1;
        }
        assert(self.rom@ =~= data@);
    }
}

} // verus!
