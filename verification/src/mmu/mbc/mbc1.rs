//! The MBC1 memory bank controller: switchable ROM banks at 0x4000 and
//! switchable RAM banks at 0xA000, configured by writes into the ROM area.
use vstd::prelude::*;

use crate::mmu::{MemoryBankControllerOperations, MemoryOperations};

verus! {

/// An MBC1 cartridge.
pub struct Mbc1 {
    rom: Vec<[u8; 0x4000]>,
    ram: Vec<[u8; 0x2000]>,
    rom_bank_number: u8,
    ram_bank_number: u8,
    ram_enabled: bool,
    cartridge_type: u8,
    rom_size: u8,
    ram_size: u8,
    advanced_banking_mode: bool,
}

/// The mathematical model of an [`Mbc1`].
#[verifier::ext_equal]
pub struct Mbc1View {
    pub rom: Seq<Seq<u8>>,
    pub ram: Seq<Seq<u8>>,
    pub rom_bank_number: u8,
    pub ram_bank_number: u8,
    pub ram_enabled: bool,
    pub cartridge_type: u8,
    pub rom_size: u8,
    pub ram_size: u8,
    pub advanced_banking_mode: bool,
}

impl View for Mbc1 {
    type V = Mbc1View;

    closed spec fn view(&self) -> Mbc1View {
        Mbc1View {
            rom: self.rom@.map_values(|bank: [u8; 0x4000]| bank@),
            ram: self.ram@.map_values(|bank: [u8; 0x2000]| bank@),
            rom_bank_number: self.rom_bank_number,
            ram_bank_number: self.ram_bank_number,
            ram_enabled: self.ram_enabled,
            cartridge_type: self.cartridge_type,
            rom_size: self.rom_size,
            ram_size: self.ram_size,
            advanced_banking_mode: self.advanced_banking_mode,
        }
    }
}

/// The ROM banks after bank `bank` was filled with `data`: missing banks
/// up to it are added as zeros, the bank takes the data, the others stay.
pub open spec fn rom_banks_filled(old: Seq<Seq<u8>>, new: Seq<Seq<u8>>, bank: int, data: Seq<u8>) -> bool {
    banks_filled(old, new, bank, data, 0x4000)
}

/// The RAM banks after bank `bank` was filled with `data`, as for ROM.
pub open spec fn ram_banks_filled(old: Seq<Seq<u8>>, new: Seq<Seq<u8>>, bank: int, data: Seq<u8>) -> bool {
    banks_filled(old, new, bank, data, 0x2000)
}

/// The banks after bank `bank` was filled with `data`: missing banks up to
/// it are added as `size` zeros, the bank takes the data, the others stay.
pub open spec fn banks_filled(old: Seq<Seq<u8>>, new: Seq<Seq<u8>>, bank: int, data: Seq<u8>, size: nat) -> bool {
    &&& new.len() == if bank < old.len() { old.len() as int } else { bank + 1 }
    &&& new[bank] == data
    &&& forall|i: int| 0 <= i < new.len() && i != bank ==> #[trigger] new[i] == if i < old.len() {
        old[i]
    } else {
        Seq::new(size, |j: int| 0u8)
    }
}

impl Mbc1View {
    /// Every ROM bank holds 0x4000 bytes and every RAM bank 0x2000 bytes.
    pub open spec fn wf(self) -> bool {
        &&& forall|i: int| 0 <= i < self.rom.len() ==> (#[trigger] self.rom[i]).len() == 0x4000
        &&& forall|i: int| 0 <= i < self.ram.len() ==> (#[trigger] self.ram[i]).len() == 0x2000
    }

    /// The byte that a read of `address` returns: bank 0 below 0x4000, the
    /// selected ROM bank up to 0x7FFF, and the selected RAM bank above.
    pub open spec fn read(self, address: u16) -> u8 {
        if address <= 0x3FFF {
            self.rom[0][address as int]
        } else if address <= 0x7FFF {
            self.rom[self.rom_bank_number as int][address - 0x4000]
        } else {
            self.ram[self.ram_bank_number as int][address - 0xA000]
        }
    }

    /// The controller after a write of `value` to `address`:
    /// 0x0000-0x1FFF enables the RAM when the low nibble is 0xA;
    /// 0x2000-0x3FFF selects a bank from the low 5 bits (0 counts as 1);
    /// 0x4000-0x5FFF selects a RAM bank from the low 2 bits when the RAM is
    /// 32 KiB, or else, with 1 MiB of ROM or more, the upper bank bits;
    /// 0x6000-0x7FFF selects the banking mode (simple mode also selects RAM
    /// bank 0); 0xA000-0xBFFF writes the RAM while it is enabled.
    pub open spec fn written(self, address: u16, value: u8) -> Mbc1View {
        if address <= 0x1FFF {
            Mbc1View { ram_enabled: value & 0x0F == 0x0A, ..self }
        } else if address <= 0x3FFF {
            let bank = value & 0b0001_1111;
            Mbc1View { rom_bank_number: if bank == 0 { 1 } else { bank }, ..self }
        } else if address <= 0x5FFF {
            let bank = value & 0b0000_0011;
            if self.ram_size >= 3 {
                Mbc1View { ram_bank_number: bank, ..self }
            } else if self.rom_size >= 5 {
                Mbc1View { rom_bank_number: (bank << 5u8) | (self.rom_bank_number & 0b0001_1111), ..self }
            } else {
                self
            }
        } else if address <= 0x7FFF {
            let bit = value & 0x01;
            Mbc1View {
                ram_bank_number: if bit == 0 { 0 } else { self.ram_bank_number },
                advanced_banking_mode: bit == 1,
                ..self
            }
        } else if self.ram_enabled {
            let current = self.ram[self.ram_bank_number as int];
            Mbc1View { ram: self.ram.update(self.ram_bank_number as int, current.update(address - 0xA000, value)), ..self }
        } else {
            self
        }
    }
}

/// A 16 KiB bank of zeros.
fn zero_rom_bank() -> (r: [u8; 0x4000])
    ensures
        r@ == Seq::new(0x4000, |j: int| 0u8),
{
    let r = [0u8; 0x4000];
    assert(r@ =~= Seq::new(0x4000, |j: int| 0u8));
    r
}

/// An 8 KiB bank of zeros.
fn zero_ram_bank() -> (r: [u8; 0x2000])
    ensures
        r@ == Seq::new(0x2000, |j: int| 0u8),
{
    let r = [0u8; 0x2000];
    assert(r@ =~= Seq::new(0x2000, |j: int| 0u8));
    r
}

impl Default for Mbc1 {
    /// One empty ROM bank, one empty RAM bank, ROM bank 1 selected, RAM
    /// disabled, simple banking mode.
    fn default() -> (r: Mbc1)
        ensures
            r@.rom.len() == 1,
            r@.rom[0] == Seq::new(0x4000, |j: int| 0u8),
            r@.ram.len() == 1,
            r@.ram[0] == Seq::new(0x2000, |j: int| 0u8),
            r@.rom_bank_number == 1,
            r@.ram_bank_number == 0,
            !r@.ram_enabled,
            r@.cartridge_type == 0,
            r@.rom_size == 0,
            r@.ram_size == 0,
            !r@.advanced_banking_mode,
    {
        let mut rom: Vec<[u8; 0x4000]> = Vec::new();
        rom.push(zero_rom_bank());
        let mut ram: Vec<[u8; 0x2000]> = Vec::new();
        ram.push(zero_ram_bank());
        Mbc1 {
            rom,
            ram,
            rom_bank_number: 1,
            ram_bank_number: 0,
            ram_enabled: false,
            cartridge_type: 0,
            rom_size: 0,
            ram_size: 0,
            advanced_banking_mode: false,
        }
    }
}

impl Mbc1 {
    /// The index of a switchable ROM address (0x4000 on) in its bank.
    fn calc_physical_rom_address(&self, address: u16) -> (r: usize)
        requires
            address >= 0x4000,
        ensures
            r == address - 0x4000,
    {
        (address - 0x4000) as usize
    }

    /// The index of a RAM address (0xA000 on) in its bank.
    fn calc_physical_ram_address(&self, address: u16) -> (r: usize)
        requires
            address >= 0xA000,
        ensures
            r == address - 0xA000,
    {
        (address - 0xA000) as usize
    }
}

impl MemoryOperations for Mbc1 {
    /// Bank 0 (0x0000-0x3FFF), the selected ROM bank (0x4000-0x7FFF) and
    /// the selected RAM bank (0xA000-0xBFFF), where those banks exist.
    open spec fn readable(&self, address: u16) -> bool {
        ||| address <= 0x3FFF && self@.rom.len() > 0
        ||| 0x4000 <= address <= 0x7FFF && self@.rom_bank_number < self@.rom.len()
        ||| 0xA000 <= address <= 0xBFFF && self@.ram_bank_number < self@.ram.len()
    }

    /// The control registers (0x0000-0x7FFF) and the RAM (0xA000-0xBFFF),
    /// whose selected bank must exist while the RAM is enabled.
    open spec fn writable(&self, address: u16) -> bool {
        ||| address <= 0x7FFF
        ||| 0xA000 <= address <= 0xBFFF && (self@.ram_enabled ==> self@.ram_bank_number < self@.ram.len())
    }

    open spec fn byte_at(&self, address: u16) -> u8 {
        self@.read(address)
    }

    fn read_byte(&self, address: u16) -> (r: u8) {
        if address <= 0x3FFF {
            let bank = &self.rom[0];
            bank[address as usize]
        } else if address <= 0x7FFF {
            let bank = &self.rom[self.rom_bank_number as usize];
            bank[self.calc_physical_rom_address(address)]
        } else {
            let bank = &self.ram[self.ram_bank_number as usize];
            bank[self.calc_physical_ram_address(address)]
        }
    }

    fn write_byte(&mut self, address: u16, value: u8)
        ensures
            final(self)@ == old(self)@.written(address, value),
    {
        if address <= 0x1FFF {
            // https://gbdev.io/pandocs/MBC1.html#00001fff--ram-enable-write-only
            self.ram_enabled = value & 0x0F == 0x0A;
        } else if address <= 0x3FFF {
            // https://gbdev.io/pandocs/MBC1.html#20003fff--rom-bank-number-write-only
            let bank = value & 0b0001_1111;
            let bank = if bank == 0 { 1 } else { bank };
            self.switch_rom_bank(bank);
        } else if address <= 0x5FFF {
            // https://gbdev.io/pandocs/MBC1.html#40005fff--ram-bank-number--or--upper-bits-of-rom-bank-number-write-only
            let bank = value & 0b0000_0011;
            if self.ram_size >= 3 {
                self.switch_ram_bank(bank);
            } else if self.rom_size >= 5 {
                let rom_bank_number = self.rom_bank_number & 0b0001_1111;
                self.switch_rom_bank((bank << 5) | rom_bank_number);
            }
        } else if address <= 0x7FFF {
            let bit = value & 0x01;
            if bit == 0 {
                self.ram_bank_number = 0;
            }
            self.advanced_banking_mode = bit == 1;
        } else {
            let address = self.calc_physical_ram_address(address);
            if self.ram_enabled {
                let index = self.ram_bank_number as usize;
                let mut current_rambank = self.ram[index];
                current_rambank[address] = value;
                self.ram.set(index, current_rambank);
                proof {
                    assert(self@.ram =~= old(self)@.ram.update(index as int, old(self)@.ram[index as int].update(address as int, value)));
                }
            }
        }
    }
}

impl MemoryBankControllerOperations for Mbc1 {
    open spec fn accepts_cartridge(&self, cartridge_type: u8) -> bool {
        true
    }

    open spec fn can_switch_rom_bank(&self, bank: u8) -> bool {
        true
    }

    open spec fn can_switch_ram_bank(&self, bank: u8) -> bool {
        true
    }

    open spec fn can_enable_ram(&self, enable: bool) -> bool {
        true
    }

    /// Record the cartridge header values.
    fn init(&mut self, rom_size: u8, cartridge_type: u8, ram_size: u8)
        ensures
            final(self)@ == (Mbc1View { rom_size, cartridge_type, ram_size, ..old(self)@ }),
    {
        self.rom_size = rom_size;
        self.cartridge_type = cartridge_type;
        self.ram_size = ram_size;
    }

    /// Fill ROM bank `bank`, adding empty banks before it where missing.
    fn fill_rom_bank_from_slice(&mut self, bank: u8, data: &[u8; 0x4000])
        ensures
            rom_banks_filled(old(self)@.rom, final(self)@.rom, bank as int, data@),
            final(self)@ == (Mbc1View { rom: final(self)@.rom, ..old(self)@ }),
    {
        // Make sure all banks before the current bank are filled
        while self.rom.len() < bank as usize
            invariant
                self.rom@.len() <= (if bank < old(self).rom@.len() { old(self).rom@.len() as int } else { bank as int }),
                self.rom@.len() >= old(self).rom@.len(),
                forall|i: int| 0 <= i < self.rom@.len() ==> #[trigger] self.rom@[i]@ == if i < old(self).rom@.len() {
                    old(self).rom@[i]@
                } else {
                    Seq::new(0x4000, |j: int| 0u8)
                },
                self@ == (Mbc1View { rom: self@.rom, ..old(self)@ }),
            decreases bank as usize - self.rom@.len(),
        {
            self.rom.push(zero_rom_bank());
        }
        // Fill the bank, or append it
        if (bank as usize) < self.rom.len() {
            self.rom.set(bank as usize, *data);
        } else {
            self.rom.push(*data);
        }
        proof {
            assert forall|i: int| 0 <= i < self@.rom.len() && i != bank implies #[trigger] self@.rom[i] == if i < old(self)@.rom.len() {
                old(self)@.rom[i]
            } else {
                Seq::new(0x4000, |j: int| 0u8)
            } by {
                assert(self@.rom[i] == self.rom@[i]@);
            }
        }
    }

    /// Fill RAM bank `bank`, adding empty banks before it where missing.
    fn fill_ram_bank_from_slice(&mut self, bank: u8, data: &[u8; 0x2000])
        ensures
            ram_banks_filled(old(self)@.ram, final(self)@.ram, bank as int, data@),
            final(self)@ == (Mbc1View { ram: final(self)@.ram, ..old(self)@ }),
    {
        // Make sure all banks before the current bank are filled
        while self.ram.len() < bank as usize
            invariant
                self.ram@.len() <= (if bank < old(self).ram@.len() { old(self).ram@.len() as int } else { bank as int }),
                self.ram@.len() >= old(self).ram@.len(),
                forall|i: int| 0 <= i < self.ram@.len() ==> #[trigger] self.ram@[i]@ == if i < old(self).ram@.len() {
                    old(self).ram@[i]@
                } else {
                    Seq::new(0x2000, |j: int| 0u8)
                },
                self@ == (Mbc1View { ram: self@.ram, ..old(self)@ }),
            decreases bank as usize - self.ram@.len(),
        {
            self.ram.push(zero_ram_bank());
        }
        // Fill the bank, or append it
        if (bank as usize) < self.ram.len() {
            self.ram.set(bank as usize, *data);
        } else {
            self.ram.push(*data);
        }
        proof {
            assert forall|i: int| 0 <= i < self@.ram.len() && i != bank implies #[trigger] self@.ram[i] == if i < old(self)@.ram.len() {
                old(self)@.ram[i]
            } else {
                Seq::new(0x2000, |j: int| 0u8)
            } by {
                assert(self@.ram[i] == self.ram@[i]@);
            }
        }
    }

    /// Select the ROM bank mapped at 0x4000-0x7FFF; the RAM bank stays.
    fn switch_rom_bank(&mut self, bank: u8)
        ensures
            final(self)@ == (Mbc1View { rom_bank_number: bank, ..old(self)@ }),
    {
        self.rom_bank_number = bank;
    }

    /// Select a RAM bank.
    fn switch_ram_bank(&mut self, bank: u8)
        ensures
            final(self)@ == (Mbc1View { ram_bank_number: bank, ..old(self)@ }),
    {
        self.ram_bank_number = bank;
    }

    /// Enable or disable the RAM.
    fn enable_ram(&mut self, enable: bool)
        ensures
            final(self)@ == (Mbc1View { ram_enabled: enable, ..old(self)@ }),
    {
        self.ram_enabled = enable;
    }

    /// Whether the advanced banking mode is selected.
    fn is_advanced_banking_mode(&self) -> (r: bool)
        ensures
            r == self@.advanced_banking_mode,
    {
        self.advanced_banking_mode
    }
}

/// The banks of a controller have their full sizes: 0x4000 bytes for
/// each ROM bank and 0x2000 bytes for each RAM bank.
pub proof fn lemma_mbc1_wf(m: &Mbc1)
    ensures
        m@.wf(),
{
    assert forall|i: int| 0 <= i < m@.rom.len() implies (#[trigger] m@.rom[i]).len() == 0x4000 by {
        assert(m@.rom[i] == m.rom@[i]@);
    }
    assert forall|i: int| 0 <= i < m@.ram.len() implies (#[trigger] m@.ram[i]).len() == 0x2000 by {
        assert(m@.ram[i] == m.ram@[i]@);
    }
}

/// With the RAM enabled, a write to 0xA000-0xBFFF is read back at that
/// address; every other RAM address reads as before, and the ROM, the
/// bank selection and the RAM enable stay.
pub proof fn law_ram_read_after_write(m: Mbc1View, address: u16, value: u8, other: u16)
    requires
        m.wf(),
        m.ram_enabled,
        m.ram_bank_number < m.ram.len(),
        0xA000 <= address <= 0xBFFF,
        0xA000 <= other <= 0xBFFF,
        other != address,
    ensures
        m.written(address, value).wf(),
        m.written(address, value).read(address) == value,
        m.written(address, value).read(other) == m.read(other),
        m.written(address, value).rom == m.rom,
        m.written(address, value).rom_bank_number == m.rom_bank_number,
        m.written(address, value).ram_bank_number == m.ram_bank_number,
        m.written(address, value).ram_enabled,
{
    let w = m.written(address, value);
    assert forall|i: int| 0 <= i < w.ram.len() implies (#[trigger] w.ram[i]).len() == 0x2000 by {
        if i != m.ram_bank_number {
            assert(w.ram[i] == m.ram[i]);
        }
    }
}

/// A write of `value` to 0x2000-0x3FFF selects ROM bank value mod 32 (bank
/// 0 counting as 1) for 0x4000-0x7FFF: a later read there gives that
/// bank's byte at address - 0x4000, while 0x0000-0x3FFF keeps reading bank
/// 0 and the RAM bank selection stays.
pub proof fn law_rom_bank_select(m: Mbc1View, select_at: u16, value: u8, address: u16)
    requires
        0x2000 <= select_at <= 0x3FFF,
        0x4000 <= address <= 0x7FFF,
    ensures
        ({
            let low = value % 32;
            let bank: int = if low == 0 { 1 } else { low as int };
            let w = m.written(select_at, value);
            &&& w.rom_bank_number == bank
            &&& w.read(address) == m.rom[bank][address - 0x4000]
            &&& w.ram_bank_number == m.ram_bank_number
            &&& forall|a: u16| a <= 0x3FFF ==> #[trigger] w.read(a) == m.read(a)
        }),
{
    assert(value & 0b0001_1111 == value % 32) by (bit_vector);
}

} // verus!
