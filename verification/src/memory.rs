//! The flat 64 KiB address space of the Game Boy, with the boot ROM overlay.
use vstd::prelude::*;

pub mod helpers;
pub mod io_abstraction;
pub mod raw_memory_operations;

verus! {

/// Number of addressable bytes (the address bus is 16 bits wide).
pub const MEMORY_SIZE: usize = 0x10000;

/// Size of the DMG boot ROM.
pub const ROM_SIZE: usize = 256;

/// Address of the cartridge type byte in the cartridge header.
pub const MBC_INFO: usize = 0x147;

/// A cartridge's memory bank controller, as the memory expects one.
pub trait MemoryBankController: Sized {
    /// A controller over the cartridge image.
    fn new(memory: Vec<u8>) -> Self;

    /// Read a byte of the cartridge.
    fn read_byte(&self, address: u16) -> u8;

    /// Read a little-endian word of the cartridge.
    fn read_word(&self, address: u16) -> u16;

    /// Write a byte to the cartridge.
    fn write_byte(&mut self, address: u16, value: u8);
}

/// The raw memory of the Game Boy.
///
/// 0x0000 - 0x3FFF: 16KB ROM bank 00
/// 0x4000 - 0x7FFF: 16KB ROM bank 01..NN
/// 0x8000 - 0x9FFF: 8KB Video RAM (VRAM)
/// 0xA000 - 0xBFFF: 8KB External RAM
/// 0xC000 - 0xDFFF: 8KB Work RAM (WRAM)
/// 0xE000 - 0xFDFF: Mirror of C000~DDFF (ECHO RAM)
/// 0xFE00 - 0xFE9F: Object Attribute Memory (OAM)
/// 0xFEA0 - 0xFEFF: Not Usable
/// 0xFF00 - 0xFF7F: I/O Registers
/// 0xFF80 - 0xFFFE: High RAM (HRAM)
/// 0xFFFF: Interrupt Enable Register
pub struct Memory {
    pub memory: [u8; 0x10000],
    pub boot_rom: [u8; 256],
    pub boot_rom_enabled: bool,
    pub dma_requested: bool,
    pub direction_buttons: u8,
    pub action_buttons: u8,
}

/// The mathematical model of [`Memory`].
#[verifier::ext_equal]
pub struct MemoryView {
    pub bytes: Seq<u8>,
    pub boot_rom: Seq<u8>,
    pub boot_rom_enabled: bool,
    pub dma_requested: bool,
    pub direction_buttons: u8,
    pub action_buttons: u8,
}

impl View for Memory {
    type V = MemoryView;

    open spec fn view(&self) -> MemoryView {
        MemoryView {
            bytes: self.memory@,
            boot_rom: self.boot_rom@,
            boot_rom_enabled: self.boot_rom_enabled,
            dma_requested: self.dma_requested,
            direction_buttons: self.direction_buttons,
            action_buttons: self.action_buttons,
        }
    }
}

impl MemoryView {
    /// Whether a read of `address` is answered by the boot ROM.
    pub open spec fn boot_rom_covers(self, address: u16) -> bool {
        self.boot_rom_enabled && address < 0xFF
    }

    /// The byte that a read of `address` returns.
    pub open spec fn read(self, address: u16) -> u8 {
        if self.boot_rom_covers(address) {
            self.boot_rom[address as int]
        } else {
            self.bytes[address as int]
        }
    }

    /// A 16-bit little-endian read starting at `address` (the second byte wraps around).
    pub open spec fn read_word(self, address: u16) -> u16 {
        (self.read(address) + 256 * self.read(next_address(address))) as u16
    }

    /// The memory after a plain store of `value` into the backing byte at `address`.
    pub open spec fn store(self, address: u16, value: u8) -> MemoryView {
        MemoryView { bytes: self.bytes.update(address as int, value), ..self }
    }

    /// The memory after the CPU writes `value` to `address`, with the side effects
    /// of the special registers.
    pub open spec fn write(self, address: u16, value: u8) -> MemoryView {
        if address == 0xFF50 {
            MemoryView { boot_rom_enabled: false, ..self.store(address, value) }
        } else if address == 0xFF04 {
            self.store(address, 0)
        } else if address == 0xFF00 {
            self.store(address, (value & 0xF0) | (self.read(address) & 0x0F))
        } else if address == 0xFF46 {
            MemoryView { dma_requested: true, ..self.store(address, value) }
        } else {
            self.store(address, value)
        }
    }

    /// Whether `address` behaves as plain memory: no boot ROM overlay and
    /// none of the registers that a write affects otherwise (joypad, DIV,
    /// OAM DMA, boot ROM switch).
    pub open spec fn is_plain(self, address: u16) -> bool {
        &&& !self.boot_rom_covers(address)
        &&& address != 0xFF00
        &&& address != 0xFF04
        &&& address != 0xFF46
        &&& address != 0xFF50
    }

    /// Well-formedness: the backing store covers the whole bus.
    pub open spec fn wf(self) -> bool {
        &&& self.bytes.len() == 0x10000
        &&& self.boot_rom.len() == 256
    }
}

/// The address that follows `address` on the 16-bit bus.
pub open spec fn next_address(address: u16) -> u16 {
    if address == 0xFFFF { 0 } else { (address + 1) as u16 }
}

/// Whether a cartridge image names the ROM-only cartridge type in its header.
pub open spec fn is_rom_only_image(rom: Seq<u8>) -> bool {
    rom.len() > 0x147 && rom[0x147] == 0
}

/// The bus content right after a cartridge image was loaded: the image from
/// address 0 on (as far as it reaches), zeros elsewhere.
pub open spec fn loaded_bytes(rom: Seq<u8>) -> Seq<u8> {
    Seq::new(0x10000, |i: int| if i < rom.len() { rom[i] } else { 0u8 })
}

impl Memory {
    /// A memory with every byte zero, the boot ROM enabled, no DMA request
    /// and no button pressed.
    pub fn blank() -> (r: Memory)
        ensures
            r@.bytes == Seq::new(0x10000, |i: int| 0u8),
            r@.boot_rom == Seq::new(256, |i: int| 0u8),
            r@.boot_rom_enabled,
            !r@.dma_requested,
            r@.direction_buttons == 0b1111,
            r@.action_buttons == 0b1111,
    {
        Memory {
            memory: [0; 0x10000],
            boot_rom: [0; 256],
            boot_rom_enabled: true,
            dma_requested: false,
            direction_buttons: 0b1111,
            action_buttons: 0b1111,
        }
    }

    /// Create a new memory holding a ROM-only cartridge image.
    /// The image is placed on the bus from address 0 on.
    pub fn new(rom: Vec<u8>) -> (r: Memory)
        requires
            is_rom_only_image(rom@),
        ensures
            r@.bytes == loaded_bytes(rom@),
            r@.boot_rom == Seq::new(256, |i: int| 0u8),
            r@.boot_rom_enabled,
            !r@.dma_requested,
            r@.direction_buttons == 0b1111,
            r@.action_buttons == 0b1111,
    {
        let mut memory = Memory::blank();
        memory.load_image(rom.as_slice());
        memory
    }

    /// Copy a cartridge image onto the bus from address 0 on; the rest is cleared.
    pub fn load_image(&mut self, data: &[u8])
        ensures
            final(self)@ == (MemoryView { bytes: loaded_bytes(data@), ..old(self)@ }),
    {
        let n: usize = if data.len() < 0x10000 { data.len() } else { 0x10000 };
        let mut i: usize = 0;
        while i < 0x10000
            invariant
                n <= 0x10000,
                n == data@.len() || (n == 0x10000 && data@.len() >= 0x10000),
                i <= 0x10000,
                self.boot_rom@ == old(self).boot_rom@,
                self.boot_rom_enabled == old(self).boot_rom_enabled,
                self.dma_requested == old(self).dma_requested,
                self.direction_buttons == old(self).direction_buttons,
                self.action_buttons == old(self).action_buttons,
                forall|j: int| 0 <= j < i ==> #[trigger] self.memory@[j] == loaded_bytes(data@)[j],
            decreases 0x10000 - i,
        {
            if i < n {
                self.memory[i] = data[i];
            } else {
                self.memory[i] = 0;
            }
            i = i + 1;
        }
        assert(self.memory@ =~= loaded_bytes(data@));
    }

    /// Replace the boot ROM image.
    pub fn load_boot_rom(&mut self, data: &[u8])
        requires
            data@.len() == 256,
        ensures
            final(self)@ == (MemoryView { boot_rom: data@, ..old(self)@ }),
    {
        let mut i: usize = 0;
        while i < 256
            invariant
                data@.len() == 256,
                i <= 256,
                self.memory@ == old(self).memory@,
                self.boot_rom_enabled == old(self).boot_rom_enabled,
                self.dma_requested == old(self).dma_requested,
                self.direction_buttons == old(self).direction_buttons,
                self.action_buttons == old(self).action_buttons,
                forall|j: int| 0 <= j < i ==> #[trigger] self.boot_rom@[j] == data@[j],
            decreases 256 - i,
        {
            self.boot_rom[i] = data[i];
            i = i + 1;
        }
        assert(self.boot_rom@ =~= data@);
    }
}

/// A read of a plain address gives back what was last written there.
pub proof fn law_read_after_write(m: MemoryView, address: u16, value: u8)
    requires
        m.wf(),
        m.is_plain(address),
    ensures
        m.write(address, value).read(address) == value,
        m.write(address, value).wf(),
{
}

/// A write leaves every other address as it was, unless it switches the
/// boot ROM off.
pub proof fn law_write_keeps_other_addresses(m: MemoryView, address: u16, other: u16, value: u8)
    requires
        m.wf(),
        address != other,
        address != 0xFF50,
    ensures
        m.write(address, value).read(other) == m.read(other),
{
}

/// Any write to DIV resets it to 0.
pub proof fn law_div_write_resets(m: MemoryView, value: u8)
    requires
        m.wf(),
    ensures
        m.write(0xFF04, value).read(0xFF04) == 0,
{
}

/// A write to the joypad register only changes its upper nibble; the
/// button bits stay.
pub proof fn law_joypad_keeps_buttons(m: MemoryView, value: u8)
    requires
        m.wf(),
    ensures
        m.write(0xFF00, value).read(0xFF00) & 0x0F == m.read(0xFF00) & 0x0F,
        m.write(0xFF00, value).read(0xFF00) & 0xF0 == value & 0xF0,
{
    let old_value = m.read(0xFF00);
    assert(((value & 0xF0) | (old_value & 0x0F)) & 0x0F == old_value & 0x0F) by (bit_vector);
    assert(((value & 0xF0) | (old_value & 0x0F)) & 0xF0 == value & 0xF0) by (bit_vector);
}

/// Writing 0xFF50 switches the boot ROM off for good: afterwards every
/// address reads the backing store.
pub proof fn law_boot_rom_switch_off(m: MemoryView, value: u8, address: u16)
    requires
        m.wf(),
    ensures
        !m.write(0xFF50, value).boot_rom_enabled,
        address != 0xFF50 ==> m.write(0xFF50, value).read(address) == m.bytes[address as int],
{
}

} // verus!
