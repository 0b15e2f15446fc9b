//! Byte and word access to the flat memory.
use vstd::prelude::*;

use crate::bits::lemma_combine_bytes;
use super::{next_address, Memory, MemoryView};

verus! {

impl Memory {
    /// Read a byte from memory.
    /// While the boot ROM is enabled it answers the addresses below 0xFF.
    pub fn read_byte(&self, address: u16) -> (r: u8)
        ensures
            r == self@.read(address),
    {
        if self.boot_rom_enabled && address < 0xFF {
            self.boot_rom[address as usize]
        } else {
            self.memory[address as usize]
        }
    }

    /// Store a value into the DIV register, bypassing the reset that a CPU write causes.
    pub fn write_div_register(&mut self, value: u8)
        ensures
            final(self)@ == old(self)@.store(0xFF04, value),
    {
        self.memory[0xFF04] = value;
    }

    /// Write a byte to memory, with the side effects of the special registers:
    /// 0xFF50 disables the boot ROM, a write to DIV (0xFF04) resets it,
    /// the joypad register (0xFF00) keeps its low nibble (the button lines),
    /// and a write to 0xFF46 requests an OAM DMA transfer.
    pub fn write_byte(&mut self, address: u16, value: u8)
        ensures
            final(self)@ == old(self)@.write(address, value),
    {
        if address == 0xFF50 {
            self.boot_rom_enabled = false;
            self.memory[address as usize] = value;
        } else if address == 0xFF04 {
            self.memory[address as usize] = 0;
        } else if address == 0xFF00 {
            let prev = self.read_byte(address);
            self.memory[address as usize] = (value & 0xF0) | (prev & 0xF);
        } else if address == 0xFF46 {
            self.dma_requested = true;
            self.memory[address as usize] = value;
        } else {
            self.memory[address as usize] = value;
        }
    }

    /// Store the controller inputs into the joypad register.
    pub fn write_controller_byte(&mut self, value: u8)
        ensures
            final(self)@ == old(self)@.store(0xFF00, value),
    {
        self.memory[0xFF00] = value;
    }

    /// Read a little-endian 16-bit word: the low byte at `address`,
    /// the high byte at the next address.
    pub fn read_word(&self, address: u16) -> (r: u16)
        ensures
            r == self@.read_word(address),
    {
        let low_byte = self.read_byte(address) as u16;
        let high_byte = self.read_byte(address.wrapping_add(1)) as u16;
        proof {
            lemma_combine_bytes(high_byte, low_byte);
        }
        (high_byte << 8) | low_byte
    }
}

} // verus!
