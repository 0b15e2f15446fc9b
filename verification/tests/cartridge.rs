use gb_emulator::mmu::mbc::no_mbc::NoMbc;
use gb_emulator::mmu::MemoryBankControllerOperations;

#[test]
fn test_no_mbc_initialization() {
    let mut no_mbc = NoMbc::default();
    no_mbc.init(0, 0, 0); // Ensure that the cartridge type is 0 (ROM_ONLY)
}

#[test]
fn test_ram_enable_disable() {
    let mut no_mbc = NoMbc::default();
    no_mbc.enable_ram(false); // Should pass
}
