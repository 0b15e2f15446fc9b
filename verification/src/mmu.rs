//! The memory bus seen by the CPU, and the operations shared by memory regions.
use vstd::prelude::*;

use crate::bits::lemma_combine_bytes;
use crate::memory::{is_rom_only_image, loaded_bytes, next_address, Memory, MemoryView};

pub mod bank_00;
pub mod debugging;
pub mod input_output;
pub mod mbc;
pub mod simple;

verus! {

/// Address of the cartridge type byte in the cartridge header.
pub const MBC_INFO_ADDRESS: usize = 0x0147;

/// Address of the ROM size byte in the cartridge header.
pub const MBC_ROM_SIZE_ADDRESS: usize = 0x0148;

/// Address of the RAM size byte in the cartridge header.
pub const MBC_RAM_SIZE_ADDRESS: usize = 0x0149;

/// Byte access to a memory region.
pub trait MemoryOperations {
    /// Whether `address` belongs to the region, so that it can be read.
    spec fn readable(&self, address: u16) -> bool;

    /// Whether a write to `address` is accepted by the region.
    spec fn writable(&self, address: u16) -> bool;

    /// The byte that a read of `address` returns.
    spec fn byte_at(&self, address: u16) -> u8;

    /// Read a byte from the memory region.
    fn read_byte(&self, address: u16) -> (r: u8)
        requires
            self.readable(address),
        ensures
            r == self.byte_at(address),
    ;

    /// Write a byte to the memory region.
    fn write_byte(&mut self, address: u16, value: u8)
        requires
            old(self).writable(address),
    ;

    /// Read a little-endian 16-bit word: the low byte at `address`,
    /// the high byte at the next address.
    fn read_word(&self, address: u16) -> (r: u16)
        requires
            self.readable(address),
            self.readable(next_address(address)),
        ensures
            r == self.byte_at(address) + 256 * self.byte_at(next_address(address)),
    {
        let low_byte = self.read_byte(address) as u16;
        let high_byte = self.read_byte(address.wrapping_add(1)) as u16;
        proof {
            lemma_combine_bytes(high_byte, low_byte);
        }
        (high_byte << 8) | low_byte
    }
}

/// Regions that are filled directly from a slice of the cartridge image.
pub trait NonMbcOperations: MemoryOperations {
    /// Whether a slice of `len` bytes fits the region.
    spec fn fill_accepts(&self, len: nat) -> bool;

    /// Fill the memory region with the data from the slice.
    fn fill_from_slice(&mut self, data: &[u8])
        requires
            old(self).fill_accepts(data@.len()),
    ;
}

/// The operations of a cartridge's memory bank controller.
pub trait MemoryBankControllerOperations: MemoryOperations {
    /// Whether the controller can serve a cartridge of this type.
    spec fn accepts_cartridge(&self, cartridge_type: u8) -> bool;

    /// Whether the controller can switch to this ROM bank.
    spec fn can_switch_rom_bank(&self, bank: u8) -> bool;

    /// Whether the controller can switch to this RAM bank.
    spec fn can_switch_ram_bank(&self, bank: u8) -> bool;

    /// Whether the controller can put its RAM into this state.
    spec fn can_enable_ram(&self, enable: bool) -> bool;

    /// Initialize the memory bank controller from the cartridge header.
    fn init(&mut self, rom_size: u8, cartridge_type: u8, ram_size: u8)
        requires
            old(self).accepts_cartridge(cartridge_type),
    ;

    /// Fill a specific ROM bank with the data from the slice.
    fn fill_rom_bank_from_slice(&mut self, bank: u8, data: &[u8; 0x4000]);

    /// Fill a specific RAM bank with the data from the slice.
    fn fill_ram_bank_from_slice(&mut self, bank: u8, data: &[u8; 0x2000]);

    /// Switch the ROM bank.
    fn switch_rom_bank(&mut self, bank: u8)
        requires
            old(self).can_switch_rom_bank(bank),
    ;

    /// Switch the RAM bank.
    fn switch_ram_bank(&mut self, bank: u8)
        requires
            old(self).can_switch_ram_bank(bank),
    ;

    /// Enable or disable the RAM.
    fn enable_ram(&mut self, enable: bool)
        requires
            old(self).can_enable_ram(enable),
    ;

    /// Whether the advanced banking mode is selected.
    fn is_advanced_banking_mode(&self) -> bool;
}

/// Whether a cartridge image can be loaded: either it names the ROM-only
/// cartridge type, or it is too short to hold a header at all.
pub open spec fn is_loadable_image(rom: Seq<u8>) -> bool {
    rom.len() <= 0x147 || is_rom_only_image(rom)
}

/// The memory management unit: the bus through which the CPU reaches every
/// memory region of the Game Boy.
pub struct MMU {
    pub memory: Memory,
}

impl View for MMU {
    type V = MemoryView;

    open spec fn view(&self) -> MemoryView {
        self.memory@
    }
}

impl MMU {
    /// Build the bus for a cartridge image: the cartridge type is taken from
    /// the header (an image too short for a header counts as ROM only), and
    /// the image is then loaded onto the bus.
    pub fn new_from_vec(rom: Vec<u8>) -> (r: MMU)
        requires
            is_loadable_image(rom@),
        ensures
            r@.bytes == loaded_bytes(rom@),
            r@.boot_rom == Seq::new(256, |i: int| 0u8),
            r@.boot_rom_enabled,
            !r@.dma_requested,
            r@.direction_buttons == 0b1111,
            r@.action_buttons == 0b1111,
    {
        let mbc_info = if rom.len() > MBC_INFO_ADDRESS {
            rom[MBC_INFO_ADDRESS]
        } else {
            0
        };
        let mut mmu = MMU::new_from_mbc_info(mbc_info);
        mmu.fill_from_slice(rom.as_slice());
        mmu
    }

    /// Build an empty bus for a cartridge type. Only the ROM-only type (0x00)
    /// is supported.
    pub fn new_from_mbc_info(mbc_info: u8) -> (r: MMU)
        requires
            mbc_info == 0,
        ensures
            r@.bytes == Seq::new(0x10000, |i: int| 0u8),
            r@.boot_rom == Seq::new(256, |i: int| 0u8),
            r@.boot_rom_enabled,
            !r@.dma_requested,
            r@.direction_buttons == 0b1111,
            r@.action_buttons == 0b1111,
    {
        MMU { memory: Memory::blank() }
    }

    /// Enable or disable the boot ROM overlay.
    pub fn set_bootrom_enabled(&mut self, enabled: bool)
        ensures
            final(self)@ == (MemoryView { boot_rom_enabled: enabled, ..old(self)@ }),
    {
        self.memory.boot_rom_enabled = enabled;
    }

    /// Replace the boot ROM image.
    pub fn load_boot_rom(&mut self, data: &[u8])
        requires
            data@.len() == 256,
        ensures
            final(self)@ == (MemoryView { boot_rom: data@, ..old(self)@ }),
    {
        self.memory.load_boot_rom(data);
    }

    /// Whether the boot ROM still overlays the lowest addresses.
    pub fn is_boot_rom_enabled(&self) -> (r: bool)
        ensures
            r == self@.boot_rom_enabled,
    {
        self.memory.is_boot_rom_enabled()
    }

    /// Store a value into the DIV register, bypassing the reset that a CPU write causes.
    pub fn write_div_register(&mut self, value: u8)
        ensures
            final(self)@ == old(self)@.store(0xFF04, value),
    {
        self.memory.write_div_register(value);
    }

    /// Store the controller inputs into the joypad register.
    pub fn write_controller_byte(&mut self, value: u8)
        ensures
            final(self)@ == old(self)@.store(0xFF00, value),
    {
        self.memory.write_controller_byte(value);
    }

    /// Whether a write to the DMA register requested an OAM transfer.
    pub fn is_dma_requested(&self) -> (r: bool)
        ensures
            r == self@.dma_requested,
    {
        self.memory.dma_requested
    }

    /// Acknowledge the OAM DMA request.
    pub fn reset_dma_request(&mut self)
        ensures
            final(self)@ == (MemoryView { dma_requested: false, ..old(self)@ }),
    {
        self.memory.dma_requested = false;
    }
}

impl NonMbcOperations for MMU {
    open spec fn fill_accepts(&self, len: nat) -> bool {
        true
    }

    /// Load a cartridge image onto the bus: byte `i` of the image lands at
    /// address `i` (as far as the bus reaches); the rest of the bus is cleared.
    fn fill_from_slice(&mut self, data: &[u8])
        ensures
            final(self)@ == (MemoryView { bytes: loaded_bytes(data@), ..old(self)@ }),
    {
        self.memory.load_image(data);
    }
}

impl MemoryOperations for MMU {
    open spec fn readable(&self, address: u16) -> bool {
        true
    }

    open spec fn writable(&self, address: u16) -> bool {
        true
    }

    open spec fn byte_at(&self, address: u16) -> u8 {
        self@.read(address)
    }

    fn read_byte(&self, address: u16) -> (r: u8) {
        self.memory.read_byte(address)
    }

    fn write_byte(&mut self, address: u16, value: u8)
        ensures
            final(self)@ == old(self)@.write(address, value),
    {
        self.memory.write_byte(address, value);
    }
}

} // verus!
