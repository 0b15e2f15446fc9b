use gb_emulator::cpu::instructions::{ConditionCodes, FlagState, InstParam, InstructionCondition, InstructionResult, Instructions};
use gb_emulator::cpu::interrupts::InterruptTypes;
use gb_emulator::cpu::registers::{Register16Bit, Register8Bit};
use gb_emulator::cpu::CPU;
use gb_emulator::mmu::MemoryOperations;

fn new_cpu() -> CPU {
    let mut cpu = CPU::new(Vec::new());
    cpu.mmu.set_bootrom_enabled(false);
    cpu
}

fn unaffected() -> ConditionCodes {
    ConditionCodes {
        zero: FlagState::NotAffected,
        subtract: FlagState::NotAffected,
        half_carry: FlagState::NotAffected,
        carry: FlagState::NotAffected,
    }
}

#[test]
fn register_pairs_read_back() {
    let mut cpu = new_cpu();
    cpu.set_8bit_register(Register8Bit::B, 0x12);
    cpu.set_8bit_register(Register8Bit::C, 0x34);
    assert_eq!(cpu.get_16bit_register(Register16Bit::BC), 0x1234);
    cpu.set_16bit_register(Register16Bit::DE, 0xABCD);
    assert_eq!(cpu.get_8bit_register(Register8Bit::D), 0xAB);
    assert_eq!(cpu.get_8bit_register(Register8Bit::E), 0xCD);
    assert_eq!(cpu.get_8bit_register(Register8Bit::B), 0x12);
    assert_eq!(cpu.flags_to_u8(), 0);
}

#[test]
fn flags_are_independent() {
    let mut cpu = new_cpu();
    cpu.set_zero_flag();
    cpu.set_carry_flag();
    assert!(cpu.is_zero_flag_set());
    assert!(!cpu.is_subtraction_flag_set());
    assert!(!cpu.is_half_carry_flag_set());
    assert!(cpu.is_carry_flag_set());
    assert_eq!(cpu.flags_to_u8(), 0x90);
    cpu.clear_zero_flag();
    assert!(!cpu.is_zero_flag_set());
    assert!(cpu.is_carry_flag_set());
    assert_eq!(cpu.flags_to_u8(), 0x10);
}

#[test]
fn push_then_pop_restores() {
    let mut cpu = new_cpu();
    cpu.set_16bit_register(Register16Bit::SP, 0xD000);
    cpu.set_16bit_register(Register16Bit::BC, 0x1234);
    cpu.push_r16(Register16Bit::BC);
    assert_eq!(cpu.get_16bit_register(Register16Bit::SP), 0xCFFE);
    assert_eq!(cpu.mmu.read_byte(0xCFFF), 0x12);
    assert_eq!(cpu.mmu.read_byte(0xCFFE), 0x34);
    cpu.pop_r16(Register16Bit::DE);
    assert_eq!(cpu.get_16bit_register(Register16Bit::DE), 0x1234);
    assert_eq!(cpu.get_16bit_register(Register16Bit::SP), 0xD000);
}

#[test]
fn call_then_ret_returns_after_the_call() {
    let mut cpu = new_cpu();
    cpu.set_16bit_register(Register16Bit::SP, 0xD000);
    cpu.set_16bit_register(Register16Bit::PC, 0x0200);
    cpu.call_n16(0x4000);
    assert_eq!(cpu.get_16bit_register(Register16Bit::PC), 0x4000);
    cpu.ret();
    assert_eq!(cpu.get_16bit_register(Register16Bit::PC), 0x0203);
    assert_eq!(cpu.get_16bit_register(Register16Bit::SP), 0xD000);
}

#[test]
fn interrupt_then_reti_resumes() {
    let mut cpu = new_cpu();
    cpu.set_16bit_register(Register16Bit::SP, 0xD000);
    cpu.set_16bit_register(Register16Bit::PC, 0x0150);
    cpu.ime_flag = true;
    cpu.mmu.write_byte(0xFFFF, 0x01);
    cpu.set_interrupt_flag(InterruptTypes::VBlank);
    assert_eq!(cpu.mmu.read_byte(0xFF0F), 0x01);
    assert!(cpu.check_and_handle_interrupts());
    assert_eq!(cpu.get_16bit_register(Register16Bit::PC), 0x0040);
    assert_eq!(cpu.mmu.read_byte(0xFF0F), 0x00);
    assert!(!cpu.ime_flag);
    cpu.reti();
    assert_eq!(cpu.get_16bit_register(Register16Bit::PC), 0x0150);
    assert!(cpu.ime_flag);
    assert_eq!(cpu.get_16bit_register(Register16Bit::SP), 0xD000);
}

#[test]
fn interrupt_priority_takes_the_lowest_bit() {
    let mut cpu = new_cpu();
    cpu.set_16bit_register(Register16Bit::SP, 0xD000);
    cpu.ime_flag = true;
    cpu.mmu.write_byte(0xFFFF, 0xFF);
    cpu.mmu.write_byte(0xFF0F, 0b0000_0110);
    assert_eq!(cpu.check_interrupts(true), Some(1));
    assert!(cpu.check_and_handle_interrupts());
    assert_eq!(cpu.get_16bit_register(Register16Bit::PC), 0x0048);
    assert_eq!(cpu.mmu.read_byte(0xFF0F), 0b0000_0100);
    cpu.ime_flag = false;
    assert_eq!(cpu.check_interrupts(true), None);
    assert_eq!(cpu.check_interrupts(false), Some(2));
}

#[test]
fn cpl_twice_restores_a() {
    let mut cpu = new_cpu();
    cpu.set_8bit_register(Register8Bit::A, 0x5C);
    cpu.cpl();
    assert_eq!(cpu.get_8bit_register(Register8Bit::A), 0xA3);
    cpu.cpl();
    assert_eq!(cpu.get_8bit_register(Register8Bit::A), 0x5C);
}

#[test]
fn swap_twice_restores() {
    let mut cpu = new_cpu();
    cpu.set_8bit_register(Register8Bit::D, 0x1F);
    cpu.swap_r8(Register8Bit::D);
    assert_eq!(cpu.get_8bit_register(Register8Bit::D), 0xF1);
    cpu.swap_r8(Register8Bit::D);
    assert_eq!(cpu.get_8bit_register(Register8Bit::D), 0x1F);
}

#[test]
fn rlc_then_rrc_restores() {
    let mut cpu = new_cpu();
    cpu.set_8bit_register(Register8Bit::E, 0b1001_0110);
    cpu.rl_c_r8(Register8Bit::E);
    assert_eq!(cpu.get_8bit_register(Register8Bit::E), 0b0010_1101);
    cpu.rr_c_r8(Register8Bit::E);
    assert_eq!(cpu.get_8bit_register(Register8Bit::E), 0b1001_0110);
}

#[test]
fn set_and_res_then_bit() {
    let mut cpu = new_cpu();
    cpu.set_8bit_register(Register8Bit::H, 0);
    cpu.set_u3_r8(5, Register8Bit::H);
    assert_eq!(cpu.get_8bit_register(Register8Bit::H), 0b0010_0000);
    let r = cpu.bit_u3_r8(5, Register8Bit::H);
    assert_eq!(r.condition_codes.zero, FlagState::NotAffected);
    cpu.res_u3_r8(5, Register8Bit::H);
    assert_eq!(cpu.get_8bit_register(Register8Bit::H), 0);
    let r = cpu.bit_u3_r8(5, Register8Bit::H);
    assert_eq!(r.condition_codes.zero, FlagState::Raised);
}

#[test]
fn inc_then_dec_restores() {
    let mut cpu = new_cpu();
    cpu.set_8bit_register(Register8Bit::L, 0xFF);
    let r = cpu.inc(Register8Bit::L);
    assert_eq!(cpu.get_8bit_register(Register8Bit::L), 0x00);
    assert_eq!(r.condition_codes.zero, FlagState::Raised);
    assert_eq!(r.condition_codes.half_carry, FlagState::Raised);
    cpu.dec_r8(Register8Bit::L);
    assert_eq!(cpu.get_8bit_register(Register8Bit::L), 0xFF);
}

#[test]
fn add_then_sub_restores_a() {
    let mut cpu = new_cpu();
    cpu.set_8bit_register(Register8Bit::A, 0xF0);
    let r = cpu.add_a_n8(0x20);
    assert_eq!(cpu.get_8bit_register(Register8Bit::A), 0x10);
    assert_eq!(r.condition_codes.carry, FlagState::Raised);
    cpu.sub_and_subc(0x20, 2, 2, false);
    assert_eq!(cpu.get_8bit_register(Register8Bit::A), 0xF0);
}

#[test]
fn nop_step_moves_pc_only() {
    let mut cpu = new_cpu();
    cpu.set_16bit_register(Register16Bit::PC, 0x0300);
    cpu.set_instruction(Instructions::NOP);
    let r = cpu.step();
    assert_eq!(r, Ok(InstructionResult { cycles: 1, bytes: 1, condition_codes: unaffected() }));
    assert_eq!(cpu.get_16bit_register(Register16Bit::PC), 0x0301);
    assert_eq!(cpu.get_cycles(), 1);
}

#[test]
fn di_right_after_ei_is_overridden() {
    let mut cpu = new_cpu();
    cpu.set_instruction(Instructions::EI);
    let _ = cpu.step();
    assert!(!cpu.ime_flag);
    cpu.set_instruction(Instructions::DI);
    let _ = cpu.step();
    assert!(cpu.ime_flag);
    cpu.set_instruction(Instructions::DI);
    let _ = cpu.step();
    assert!(!cpu.ime_flag);
}

#[test]
fn step_refusals_name_the_operand() {
    let mut cpu = new_cpu();
    cpu.set_instruction(Instructions::ADD(InstParam::Offset));
    assert_eq!(cpu.step(), Err(String::from("ADD with Offset not implemented")));
    cpu.set_instruction(Instructions::JP(InstParam::Register16Bit(Register16Bit::BC), InstParam::Offset));
    assert_eq!(cpu.step(), Err(String::from("JP to BC not implemented")));
    cpu.set_instruction(Instructions::LDH(InstParam::Register8Bit(Register8Bit::A), InstParam::Register8Bit(Register8Bit::B)));
    assert_eq!(cpu.step(), Err(String::from("Handling of B not implemented")));
    cpu.set_instruction(Instructions::RLCA);
    assert_eq!(cpu.step(), Err(String::from("Handling of RLCA not implemented")));
    assert_eq!(cpu.get_16bit_register(Register16Bit::PC), 0);
    assert_eq!(cpu.get_cycles(), 0);
}

#[test]
fn decode_refuses_the_prefix_byte() {
    let cpu = new_cpu();
    assert_eq!(
        cpu.decode_unprefixed(0xCB),
        Err(String::from("Prefixed Opcodes should have already been handled 😕 0xCB")),
    );
    assert_eq!(cpu.not_implemented(0xD3), Err(String::from("Opcode is not implemented (yet): 0xD3")));
}

#[test]
fn decode_reads_operands_after_pc() {
    let mut cpu = new_cpu();
    cpu.set_16bit_register(Register16Bit::PC, 0xC000);
    cpu.mmu.write_byte(0xC001, 0x34);
    cpu.mmu.write_byte(0xC002, 0x12);
    assert_eq!(
        cpu.decode(0xC3),
        Ok(Instructions::JP(
            InstParam::ConditionCodes(InstructionCondition::SkipConditionCodes),
            InstParam::Number16Bit(0x1234),
        )),
    );
    cpu.mmu.write_byte(0xC001, 0x37);
    assert_eq!(
        cpu.decode(0xCB),
        Ok(Instructions::SWAP(InstParam::Register8Bit(Register8Bit::A))),
    );
    assert_eq!(cpu.decode(0x00), Ok(Instructions::NOP));
}

#[test]
fn daa_after_bcd_addition() {
    let mut cpu = new_cpu();
    cpu.set_8bit_register(Register8Bit::A, 0x45);
    cpu.add_a_n8(0x38);
    assert_eq!(cpu.get_8bit_register(Register8Bit::A), 0x7D);
    cpu.set_instruction(Instructions::DAA);
    let r = cpu.step().unwrap();
    assert_eq!(cpu.get_8bit_register(Register8Bit::A), 0x83);
    assert_eq!(r.condition_codes.carry, FlagState::Unset);
}

#[test]
fn halt_reports_a_pending_interrupt() {
    let mut cpu = new_cpu();
    assert_eq!(cpu.halt(), InstructionResult::default());
    cpu.mmu.write_byte(0xFFFF, 0x04);
    cpu.mmu.write_byte(0xFF0F, 0x04);
    assert!(cpu.interrupt_pentding());
    assert_eq!(cpu.halt(), InstructionResult { cycles: 0, bytes: 1, condition_codes: unaffected() });
}

#[test]
fn test_decode() {
    let mut cpu = CPU::new(Vec::new());
    for i in 0..=0xFFu8 {
        // Put the byte after the opcode in memory (the operand, or the
        // opcode of a 0xCB prefixed instruction)
        cpu.mmu.write_byte(cpu.get_16bit_register(Register16Bit::SP) + 1, i);
        for opcode in [i, 0xCB] {
            assert!(cpu.decode(opcode).is_ok());
        }
    }
}

#[test]
fn adc_carries_out_of_a_plus_value_plus_carry() {
    let mut cpu = new_cpu();
    cpu.set_8bit_register(Register8Bit::A, 0x10);
    cpu.set_carry_flag();
    let r = cpu.adc_a_n8(0xFF);
    assert_eq!(cpu.get_8bit_register(Register8Bit::A), 0x10);
    assert_eq!(r.condition_codes.zero, FlagState::Unset);
    assert_eq!(r.condition_codes.half_carry, FlagState::Raised);
    assert_eq!(r.condition_codes.carry, FlagState::Raised);
}

#[test]
fn sbc_borrows_through_the_carry() {
    let mut cpu = new_cpu();
    cpu.set_8bit_register(Register8Bit::A, 0x05);
    cpu.set_carry_flag();
    let r = cpu.sub_and_subc(0x05, 2, 2, true);
    assert_eq!(cpu.get_8bit_register(Register8Bit::A), 0xFF);
    assert_eq!(r.condition_codes.half_carry, FlagState::Raised);
    assert_eq!(r.condition_codes.carry, FlagState::Raised);
}

#[test]
fn cp_reports_a_half_borrow() {
    let mut cpu = new_cpu();
    cpu.set_8bit_register(Register8Bit::A, 0x00);
    let r = cpu.cp_a_n8(0x01);
    assert_eq!(r.condition_codes.half_carry, FlagState::Raised);
    assert_eq!(r.condition_codes.carry, FlagState::Raised);
    cpu.set_8bit_register(Register8Bit::A, 0x21);
    let r = cpu.cp_a_n8(0x12);
    assert_eq!(r.condition_codes.half_carry, FlagState::Raised);
    assert_eq!(r.condition_codes.carry, FlagState::Unset);
    let r = cpu.cp_a_n8(0x11);
    assert_eq!(r.condition_codes.half_carry, FlagState::Unset);
    assert_eq!(cpu.get_8bit_register(Register8Bit::A), 0x21);
}

#[test]
fn halt_opcode_has_no_load_target() {
    let cpu = new_cpu();
    assert_eq!(cpu.opcode_to_ld_target(0x76), None);
    assert_eq!(cpu.opcode_to_ld_target(0x77), Some(InstParam::Register16Bit(Register16Bit::HL)));
    assert_eq!(cpu.opcode_to_ld_target(0x40), Some(InstParam::Register8Bit(Register8Bit::B)));
    assert_eq!(cpu.opcode_to_ld_target(0x80), None);
    assert_eq!(cpu.decode(0x76).unwrap(), Instructions::HALT);
}

#[test]
fn skip_boot_rom_sets_f_exactly() {
    let mut cpu = new_cpu();
    cpu.set_subtraction_flag();
    cpu.set_zero_flag();
    assert_eq!(cpu.flags_to_u8(), 0xC0);
    cpu.skip_boot_rom();
    assert_eq!(cpu.flags_to_u8(), 0xB0);
    assert_eq!(cpu.get_8bit_register(Register8Bit::A), 0x01);
    assert_eq!(cpu.get_16bit_register(Register16Bit::PC), 0x0100);
}

#[test]
fn interrupt_beyond_the_five_sources_jumps_by_its_number() {
    let mut cpu = new_cpu();
    cpu.set_16bit_register(Register16Bit::SP, 0xD000);
    cpu.set_16bit_register(Register16Bit::PC, 0x0200);
    cpu.ime_flag = true;
    cpu.handle_interrupt(6);
    assert_eq!(cpu.get_16bit_register(Register16Bit::PC), 0x0070);
    assert_eq!(cpu.get_16bit_register(Register16Bit::SP), 0xCFFE);
    assert_eq!(cpu.mmu.read_byte(0xCFFF), 0x02);
    assert_eq!(cpu.mmu.read_byte(0xCFFE), 0x00);
    assert!(!cpu.ime_flag);
}

#[test]
fn a_pending_interrupt_takes_the_step_before_stop() {
    let mut cpu = new_cpu();
    cpu.set_16bit_register(Register16Bit::SP, 0xD000);
    cpu.set_16bit_register(Register16Bit::PC, 0x0300);
    cpu.set_instruction(Instructions::STOP);
    assert!(!cpu.can_step());
    cpu.ime_flag = true;
    cpu.mmu.write_byte(0xFFFF, 0x04);
    cpu.mmu.write_byte(0xFF0F, 0x04);
    assert!(cpu.can_step());
    let r = cpu.step().unwrap();
    assert_eq!(r.cycles, 5);
    assert_eq!(cpu.get_16bit_register(Register16Bit::PC), 0x0050);
}

#[test]
fn refusal_messages_spell_hex_and_register_names() {
    let cpu = new_cpu();
    assert_eq!(cpu.not_implemented(0x0A), Err(String::from("Opcode is not implemented (yet): 0xA")));
    assert_eq!(cpu.not_implemented(0x00), Err(String::from("Opcode is not implemented (yet): 0x0")));
    let mut cpu = new_cpu();
    cpu.set_instruction(Instructions::JP(InstParam::Register16Bit(Register16Bit::SP), InstParam::Offset));
    assert_eq!(cpu.step(), Err(String::from("JP to SP not implemented")));
}

#[test]
fn step_moves_pc_and_applies_the_codes() {
    let mut cpu = new_cpu();
    cpu.set_16bit_register(Register16Bit::PC, 0xC000);
    cpu.set_subtraction_flag();
    cpu.set_8bit_register(Register8Bit::A, 0xF0);
    cpu.set_instruction(Instructions::ADD(InstParam::Number8Bit(0x10)));
    let r = cpu.step().unwrap();
    assert_eq!(r, cpu.get_last_step_result());
    assert_eq!(cpu.get_16bit_register(Register16Bit::PC), 0xC002);
    assert_eq!(cpu.get_cycles(), 2);
    assert!(cpu.is_zero_flag_set());
    assert!(!cpu.is_subtraction_flag_set());
    assert!(!cpu.is_half_carry_flag_set());
    assert!(cpu.is_carry_flag_set());
}

#[test]
fn doctor_log_line_lists_registers_and_pcmem() {
    let mut cpu = new_cpu();
    cpu.set_16bit_register(Register16Bit::AF, 0x01B0);
    cpu.set_16bit_register(Register16Bit::BC, 0x0013);
    cpu.set_16bit_register(Register16Bit::DE, 0x00D8);
    cpu.set_16bit_register(Register16Bit::HL, 0x014D);
    cpu.set_16bit_register(Register16Bit::SP, 0xFFFE);
    cpu.set_16bit_register(Register16Bit::PC, 0xC0FE);
    cpu.mmu.write_byte(0xC0FE, 0x00);
    cpu.mmu.write_byte(0xC0FF, 0xC3);
    cpu.mmu.write_byte(0xC100, 0x13);
    cpu.mmu.write_byte(0xC101, 0x02);
    assert_eq!(
        cpu.doctor_log_line(),
        String::from("A:01 F:B0 B:00 C:13 D:00 E:D8 H:01 L:4D SP:FFFE PC:C0FE PCMEM:00,C3,13,02\n"),
    );
}

#[test]
fn cp_half_borrow_only_from_the_low_nibble() {
    let mut cpu = new_cpu();
    cpu.set_8bit_register(Register8Bit::A, 0x10);
    let r = cpu.cp_a_n8(0x20);
    assert_eq!(r.condition_codes.half_carry, FlagState::Unset);
    assert_eq!(r.condition_codes.carry, FlagState::Raised);
    cpu.set_8bit_register(Register8Bit::A, 15);
    let r = cpu.cp_a_n8(16);
    assert_eq!(r.condition_codes.half_carry, FlagState::Raised);
}
