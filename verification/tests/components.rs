use gb_emulator::cpu::interrupts::PpuMode;
use gb_emulator::cpu::joypad::PlayerInput;
use gb_emulator::cpu::registers::{Register16Bit, Register8Bit};
use gb_emulator::cpu::step::RunOutcome;
use gb_emulator::cpu::CPU;
use gb_emulator::memory::Memory;
use gb_emulator::mmu::bank_00::Bank00;
use gb_emulator::mmu::debugging::mbc_type_to_string;
use gb_emulator::mmu::input_output::InputOutput;
use gb_emulator::mmu::mbc::mbc1::Mbc1;
use gb_emulator::mmu::simple::SimpleRegion;
use gb_emulator::mmu::{MemoryBankControllerOperations, MemoryOperations, NonMbcOperations};
use gb_emulator::rendering::line_rendering::{scanline_pixels, Ppu, PpuAction};

fn new_cpu() -> CPU {
    let mut cpu = CPU::new(Vec::new());
    cpu.mmu.set_bootrom_enabled(false);
    cpu
}

#[test]
fn memory_reads_back_writes() {
    let mut cpu = new_cpu();
    cpu.mmu.write_byte(0xC000, 0x42);
    assert_eq!(cpu.mmu.read_byte(0xC000), 0x42);
    assert_eq!(cpu.mmu.read_byte(0xC001), 0x00);
    assert_eq!(cpu.mmu.read_word(0xC000), 0x0042);
}

#[test]
fn div_write_resets() {
    let mut cpu = new_cpu();
    cpu.increment_div();
    cpu.increment_div();
    assert_eq!(cpu.mmu.read_byte(0xFF04), 2);
    cpu.mmu.write_byte(0xFF04, 0x77);
    assert_eq!(cpu.mmu.read_byte(0xFF04), 0);
}

#[test]
fn joypad_write_keeps_buttons() {
    let mut cpu = new_cpu();
    cpu.mmu.write_controller_byte(0x2B);
    cpu.mmu.write_byte(0xFF00, 0x10);
    assert_eq!(cpu.mmu.read_byte(0xFF00), 0x1B);
}

#[test]
fn boot_rom_overlay_and_switch_off() {
    let mut image = vec![0u8; 0x150];
    image[0x10] = 0x99;
    let mut cpu = CPU::new(image);
    assert!(cpu.is_boot_rom_enabled());
    cpu.mmu.load_boot_rom(&[0xAA; 256]);
    assert_eq!(cpu.mmu.read_byte(0x10), 0xAA);
    assert_eq!(cpu.mmu.read_byte(0xFF), 0x00);
    cpu.mmu.write_byte(0xFF50, 1);
    assert!(!cpu.is_boot_rom_enabled());
    assert_eq!(cpu.mmu.read_byte(0x10), 0x99);
}

#[test]
fn memory_loads_at_an_offset() {
    let mut memory = Memory::new(vec![0u8; 0x150]);
    memory.load_at(&[1, 2, 3], 0x8000);
    assert_eq!(memory.read_byte(0x8000), 1);
    assert_eq!(memory.read_byte(0x8002), 3);
    assert_eq!(memory.read_byte(0x8003), 0);
    assert_eq!(memory.return_full_memory()[0x8001], 2);
}

#[test]
fn timer_overflow_reloads_and_requests() {
    let mut cpu = new_cpu();
    cpu.mmu.write_byte(0xFF07, 0b101);
    cpu.mmu.write_byte(0xFF05, 0xFF);
    cpu.mmu.write_byte(0xFF06, 0x10);
    assert_eq!(cpu.get_timer_modulo(), 4);
    cpu.increment_timer();
    assert_eq!(cpu.mmu.read_byte(0xFF05), 0x10);
    assert_eq!(cpu.mmu.read_byte(0xFF0F), 0b100);
    cpu.increment_timer();
    assert_eq!(cpu.mmu.read_byte(0xFF05), 0x11);
    cpu.mmu.write_byte(0xFF07, 0b011);
    assert_eq!(cpu.get_timer_modulo(), 64);
    cpu.increment_timer();
    assert_eq!(cpu.mmu.read_byte(0xFF05), 0x11);
}

#[test]
fn dma_copies_a_page_into_oam() {
    let mut cpu = new_cpu();
    for i in 0..256u16 {
        cpu.mmu.write_byte(0xC000 + i, i as u8);
    }
    cpu.mmu.write_byte(0xFF46, 0xC0);
    assert!(cpu.mmu.is_dma_requested());
    cpu.dma_active = true;
    cpu.dma_current_offset = 0;
    for step in 0..0xA0 {
        assert!(cpu.dma_active, "transfer ended early at step {}", step);
        cpu.dma_routine();
    }
    assert!(!cpu.dma_active);
    assert_eq!(cpu.dma_current_offset, 0);
    assert_eq!(cpu.mmu.read_byte(0xFE00), 0);
    assert_eq!(cpu.mmu.read_byte(0xFE9F), 0x9F);
    // Past the end of OAM nothing was copied
    assert_eq!(cpu.mmu.read_byte(0xFEA0), 0);
    // Without a transfer, a step changes nothing
    cpu.dma_routine();
    assert_eq!(cpu.mmu.read_byte(0xFEA0), 0);
}

#[test]
fn lyc_coincidence_and_stat_interrupts() {
    let mut cpu = new_cpu();
    cpu.mmu.write_byte(0xFF45, 5);
    cpu.set_lcd_y_coordinate(4);
    assert_eq!(cpu.mmu.read_byte(0xFF0F), 0);
    cpu.set_lcd_y_coordinate(5);
    assert!(cpu.is_lyc_equal_ly());
    assert_eq!(cpu.mmu.read_byte(0xFF41) & 0b100, 0b100);
    assert_eq!(cpu.mmu.read_byte(0xFF0F), 0b10);
    cpu.mmu.write_byte(0xFF0F, 0);
    cpu.mmu.write_byte(0xFF41, 0b0000_1000);
    cpu.set_ppu_mode(PpuMode::HorizontalBlank);
    assert_eq!(cpu.get_ppu_mode(), 0);
    assert_eq!(cpu.mmu.read_byte(0xFF0F), 0b10);
    cpu.set_vblank_interrupt();
    assert_eq!(cpu.get_lcd_y_coordinate(), 144);
    assert_eq!(cpu.mmu.read_byte(0xFF0F), 0b11);
}

#[test]
fn scanline_of_a_scrolled_background() {
    let mut cpu = new_cpu();
    cpu.mmu.write_byte(0xFF40, 0x91);
    // Tile 1, line 0: colours 3, 2, 1, 0, 3, 2, 1, 0
    cpu.mmu.write_byte(0x8010, 0b1010_1010);
    cpu.mmu.write_byte(0x8011, 0b1100_1100);
    cpu.mmu.write_byte(0x9800, 1);
    let pixels = scanline_pixels(&mut cpu, 160, 144);
    assert_eq!(pixels.len(), 160);
    assert_eq!(pixels[0], (0, 3));
    assert_eq!(pixels[1], (1, 2));
    assert_eq!(pixels[2], (2, 1));
    assert_eq!(pixels[3], (3, 0));
    assert_eq!(pixels[8], (8, 0));
    cpu.mmu.write_byte(0xFF43, 3);
    let pixels = scanline_pixels(&mut cpu, 160, 144);
    assert_eq!(pixels.len(), 160);
    assert_eq!(pixels[0], (0, 0));
    assert_eq!(pixels[1], (1, 3));
    let narrow = scanline_pixels(&mut cpu, 10, 144);
    assert_eq!(narrow.len(), 10);
}

#[test]
fn scanline_with_a_sprite() {
    let mut cpu = new_cpu();
    // LCD on, sprites on, background tiles from 0x8000
    cpu.mmu.write_byte(0xFF40, 0x93);
    cpu.mmu.write_byte(0x8020, 0xFF);
    // Sprite 0 on line 0, x = 8 (screen x 0), tile 2
    cpu.mmu.write_byte(0xFE00, 16);
    cpu.mmu.write_byte(0xFE01, 8);
    cpu.mmu.write_byte(0xFE02, 2);
    let pixels = scanline_pixels(&mut cpu, 160, 144);
    assert_eq!(pixels.len(), 168);
    assert_eq!(pixels[160], (0, 1));
    assert_eq!(pixels[167], (7, 1));
}

#[test]
fn ppu_leaves_oam_scan_at_dot_76() {
    let mut cpu = new_cpu();
    cpu.mmu.write_byte(0xFF40, 0x91);
    cpu.set_ppu_mode(PpuMode::OamScan);
    let mut ppu = Ppu::new();
    assert_eq!(ppu.get_frame_cycles(), 0);
    for _ in 0..19 {
        assert!(ppu.can_step(&mut cpu));
        assert!(matches!(ppu.step(&mut cpu, 160, 144), PpuAction::Idle));
    }
    assert_eq!(cpu.get_ppu_mode(), 2);
    assert!(matches!(ppu.step(&mut cpu, 160, 144), PpuAction::Idle));
    assert_eq!(cpu.get_ppu_mode(), 3);
    assert_eq!(ppu.get_frame_cycles(), 20);
    assert_eq!(ppu.get_dot(), 80);
    for _ in 0..42 {
        assert!(matches!(ppu.step(&mut cpu, 160, 144), PpuAction::Idle));
    }
    match ppu.step(&mut cpu, 160, 144) {
        PpuAction::DrawLine(line, pixels) => {
            assert_eq!(line, 0);
            assert_eq!(pixels.len(), 160);
        },
        _ => panic!("the line is drawn at dot 248"),
    }
    assert_eq!(cpu.get_ppu_mode(), 0);
    cpu.mmu.write_byte(0xFF40, 0x11);
    assert!(matches!(ppu.step(&mut cpu, 160, 144), PpuAction::ClearScreen));
}

#[test]
fn joypad_reports_a_press() {
    let mut cpu = new_cpu();
    cpu.mmu.write_controller_byte(0x10);
    let mut input = PlayerInput { right: false, left: false, up: false, down: false, a: false, b: false, select: false, start: false };
    assert!(!cpu.update_key_input(&input));
    input.a = true;
    assert!(cpu.update_key_input(&input));
    assert_eq!(cpu.mmu.read_byte(0xFF00), 0x1E);
    assert_eq!(cpu.mmu.read_byte(0xFF0F), 0b1_0000);
    cpu.stop_mode = true;
    input.a = false;
    assert!(cpu.update_key_input(&input));
    assert!(!cpu.is_in_stop_mode());
    cpu.enable_buttons_debug();
    assert_eq!(cpu.mmu.read_byte(0xFF00), 0x1F & 0b1101_1111);
}

#[test]
fn boot_rom_skips() {
    let mut cpu = new_cpu();
    cpu.skip_bootrom();
    assert_eq!(cpu.get_8bit_register(Register8Bit::A), 0x01);
    assert_eq!(cpu.flags_to_u8(), 0x00);
    assert_eq!(cpu.get_16bit_register(Register16Bit::BC), 0x0013);
    assert_eq!(cpu.get_16bit_register(Register16Bit::DE), 0x00C1);
    assert_eq!(cpu.get_16bit_register(Register16Bit::HL), 0x8403);
    assert_eq!(cpu.get_16bit_register(Register16Bit::SP), 0xFFFE);
    assert_eq!(cpu.get_16bit_register(Register16Bit::PC), 0x0100);
    assert_eq!(cpu.mmu.read_byte(0xFF40), 0x91);
    assert_eq!(cpu.mmu.read_byte(0xFF04), 0x00);
    assert_eq!(cpu.mmu.read_byte(0xFF26), 0xF1);

    let mut cpu = CPU::new(Vec::new());
    cpu.skip_boot_rom();
    assert_eq!(cpu.flags_to_u8(), 0xB0);
    assert_eq!(cpu.get_16bit_register(Register16Bit::DE), 0x00D8);
    assert_eq!(cpu.get_16bit_register(Register16Bit::HL), 0x014D);
    assert!(!cpu.is_boot_rom_enabled());
    assert_eq!(cpu.mmu.read_byte(0xFF00), 0xF0);
}

#[test]
fn run_instruction_decodes_and_steps() {
    let mut image = vec![0u8; 0x150];
    image[0x100] = 0x3E;
    image[0x101] = 0x42;
    let mut cpu = CPU::new(image);
    match cpu.run_instruction() {
        RunOutcome::Stepped(result) => assert_eq!(result.unwrap().bytes, 1),
        RunOutcome::Unexecutable(_) => panic!("NOP can be executed"),
    }
    assert_eq!(cpu.get_16bit_register(Register16Bit::PC), 1);
    assert_eq!(cpu.mmu.read_byte(0xFF04), 1);
    cpu.set_16bit_register(Register16Bit::PC, 0x0100);
    match cpu.run_instruction() {
        RunOutcome::Stepped(result) => assert_eq!(result.unwrap().bytes, 2),
        RunOutcome::Unexecutable(_) => panic!("LD A,n8 can be executed"),
    }
    assert!(!cpu.is_boot_rom_enabled());
    assert_eq!(cpu.get_8bit_register(Register8Bit::A), 0x42);
    assert_eq!(cpu.get_16bit_register(Register16Bit::PC), 0x0102);
    cpu.mmu.write_byte(0x0102, 0x10);
    assert!(matches!(cpu.run_instruction(), RunOutcome::Unexecutable(_)));
}

#[test]
fn cartridge_type_names() {
    assert_eq!(mbc_type_to_string(0x00), "ROM ONLY");
    assert_eq!(mbc_type_to_string(0x01), "MBC1");
    assert_eq!(mbc_type_to_string(0xFF), "HuC1+RAM+BATTERY");
    assert_eq!(mbc_type_to_string(0x04), "UNKNOWN");
}

#[test]
fn mbc1_banks_and_ram_enable() {
    let mut mbc = Mbc1::default();
    mbc.fill_rom_bank_from_slice(1, &[0x11; 0x4000]);
    assert_eq!(mbc.read_byte(0x4000), 0x11);
    assert_eq!(mbc.read_byte(0x0000), 0x00);
    mbc.fill_rom_bank_from_slice(3, &[0x33; 0x4000]);
    mbc.fill_ram_bank_from_slice(0, &[0x5A; 0x2000]);
    assert_eq!(mbc.read_byte(0xA001), 0x5A);
    mbc.write_byte(0xA001, 0x77);
    assert_eq!(mbc.read_byte(0xA001), 0x5A);
    mbc.write_byte(0x0000, 0x0A);
    mbc.write_byte(0xA001, 0x77);
    assert_eq!(mbc.read_byte(0xA001), 0x77);
    mbc.write_byte(0x6000, 0x01);
    assert!(mbc.is_advanced_banking_mode());
    mbc.write_byte(0x6000, 0x00);
    assert!(!mbc.is_advanced_banking_mode());
    // Selecting ROM bank 3 maps it at 0x4000 and leaves the RAM bank alone
    mbc.write_byte(0x2000, 0x03);
    assert_eq!(mbc.read_byte(0x4000), 0x33);
    assert_eq!(mbc.read_byte(0xA001), 0x77);
    mbc.switch_rom_bank(1);
    assert_eq!(mbc.read_byte(0x7FFF), 0x11);
    assert_eq!(mbc.read_byte(0xA001), 0x77);
}

#[test]
fn io_block_side_effects() {
    let mut io = InputOutput::new(0x80, 0xFF00);
    io.write_byte(0xFF04, 9);
    assert_eq!(io.read_byte(0xFF04), 0);
    io.write_byte(0xFF00, 0x30);
    assert_eq!(io.read_byte(0xFF00), 0x3F);
    io.write_byte(0xFF00, 0x10);
    assert_eq!(io.read_byte(0xFF00), 0x1F);
    io.action_buttons = 0b0110;
    io.write_byte(0xFF00, 0x10);
    assert_eq!(io.read_byte(0xFF00), 0x16);
    io.write_byte(0xFF00, 0x00);
    assert_eq!(io.read_byte(0xFF00), 0x0F);
    assert!(!io.is_dma_requested());
    io.write_byte(0xFF46, 0xC0);
    assert!(io.is_dma_requested());
    io.reset_dma_request();
    assert!(!io.is_dma_requested());
    io.write_div_register(5);
    assert_eq!(io.read_byte(0xFF04), 5);
}

#[test]
fn simple_regions() {
    let mut ram = SimpleRegion::new(4, true, 0xC000);
    ram.write_byte(0xC002, 7);
    assert_eq!(ram.read_byte(0xC002), 7);
    ram.fill_from_slice(&[1, 2, 3, 4]);
    assert_eq!(ram.read_byte(0xC003), 4);
    let mut rom = SimpleRegion::new(4, false, 0x0000);
    rom.write_byte(0x0001, 7);
    assert_eq!(rom.read_byte(0x0001), 0);
}

#[test]
fn bank_00_overlay() {
    let mut bank = Bank00::default();
    let mut data = vec![0u8; 0x4000];
    data[0x50] = 0x21;
    data[0x150] = 0x22;
    bank.fill_from_slice(&data);
    assert_eq!(bank.read_byte(0x50), 0x00);
    assert_eq!(bank.read_byte(0x150), 0x22);
    bank.disable_boot_rom();
    assert_eq!(bank.read_byte(0x50), 0x21);
}

#[test]
fn ppu_draws_a_whole_frame() {
    let mut cpu = new_cpu();
    cpu.mmu.write_byte(0xFF40, 0x91);
    cpu.set_ppu_mode(PpuMode::OamScan);
    let mut ppu = Ppu::new();
    let mut steps = 0;
    let mut lines_drawn = 0;
    let mut vblank_seen = false;
    loop {
        assert!(ppu.can_step(&mut cpu));
        if let PpuAction::DrawLine(line, _) = ppu.step(&mut cpu, 160, 144) {
            assert_eq!(line, lines_drawn);
            lines_drawn += 1;
        }
        steps += 1;
        if cpu.get_ppu_mode() == 1 && !vblank_seen {
            vblank_seen = true;
            assert_eq!(cpu.get_lcd_y_coordinate(), 144);
            assert_eq!(cpu.mmu.read_byte(0xFF0F) & 1, 1);
        }
        if ppu.get_frame_cycles() == 0 {
            break;
        }
    }
    assert!(vblank_seen);
    assert_eq!(lines_drawn, 144);
    assert_eq!(steps, 153 * 114);
    assert_eq!(cpu.get_lcd_y_coordinate(), 0);
    assert_eq!(cpu.get_ppu_mode(), 2);
}
