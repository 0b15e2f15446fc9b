//! A Game Boy (DMG) emulator core: the Sharp LR35902 CPU, its instruction
//! decoder and executor, the memory bus, cartridge controllers and the
//! scanline logic of the picture processing unit.

pub mod bits;
pub mod cpu;
pub mod memory;
pub mod mmu;
pub mod rendering;
