use gb_emulator::cpu::instructions::{ConditionCodes, FlagState, InstParam, InstructionResult, Instructions};
use gb_emulator::cpu::registers::{Register16Bit, Register8Bit};
use gb_emulator::cpu::CPU;
use gb_emulator::mmu::MemoryOperations;

/// A CPU on an empty cartridge with the boot ROM overlay off, so that the
/// whole address space reads back what is written.
fn new_cpu() -> CPU {
    let mut cpu = CPU::new(Vec::new());
    cpu.mmu.set_bootrom_enabled(false);
    cpu
}

fn assert_correct_instruction_step(cpu: &mut CPU, instruction: Instructions, expected_result: InstructionResult) {
    cpu.set_instruction(instruction);
    let _ = cpu.step();
    assert_eq!(cpu.get_last_step_result(), expected_result);
}

fn assert_correct_instruction_decode(cpu: &mut CPU, opcode: u8, expected: Instructions) {
    assert_eq!(cpu.decode(opcode).unwrap(), expected);
}

#[test]
fn arithmetics_8bit_16bit_test() {
    let mut cpu = new_cpu();
    let mut registers;
    //>>---------8bit Arithmetics--------->>
    // 1) ADD A,r8 
    cpu.set_8bit_register(Register8Bit::A, 0);
    cpu.set_8bit_register(Register8Bit::B, 15);
    let mut expected_result = InstructionResult::default();
    expected_result.cycles = 1;
    expected_result.bytes = 1;
    expected_result.condition_codes = ConditionCodes{zero:FlagState::Unset,subtract:FlagState::Unset,half_carry:FlagState::Unset,carry:FlagState::Unset};
    assert_correct_instruction_step(&mut cpu, Instructions::ADD(InstParam::Register8Bit(Register8Bit::B)), expected_result);
    registers = cpu.get_registry_dump();
    assert_eq!(registers[u8::from(Register8Bit::A) as usize], 15);
    //ADD A,n8
    let mut expected_result = InstructionResult::default();
    expected_result.cycles = 2;
    expected_result.bytes = 2;
    expected_result.condition_codes = ConditionCodes{zero:FlagState::Unset,subtract:FlagState::Unset,half_carry:FlagState::Raised,carry:FlagState::Unset};
    assert_correct_instruction_step(&mut cpu, Instructions::ADD(InstParam::Number8Bit(1)), expected_result);
    registers = cpu.get_registry_dump();
    assert_eq!(registers[u8::from(Register8Bit::A) as usize], 16);
    //<<---------8bit Arithmetics---------<<

    //>>---------16bit Arithmetics--------->>
    //INC r16
    let mut expected_result = InstructionResult::default();
    expected_result.cycles = 2;
    expected_result.bytes = 1;
    assert_correct_instruction_step(&mut cpu, Instructions::INC(InstParam::Register16Bit(Register16Bit::DE), InstParam::Boolean(false)), expected_result);
    assert_eq!(cpu.get_16bit_register(Register16Bit::DE), 1);
    let mut expected_result = InstructionResult::default();
    expected_result.cycles = 2;
    expected_result.bytes = 1;
    assert_correct_instruction_step(&mut cpu, Instructions::INC(InstParam::Register16Bit(Register16Bit::DE), InstParam::Boolean(false)), expected_result);
    assert_eq!(cpu.get_16bit_register(Register16Bit::DE), 2);
    //DEC r16
    let mut expected_result = InstructionResult::default();
    expected_result.cycles = 2;
    expected_result.bytes = 1;
    assert_correct_instruction_step(&mut cpu, Instructions::DEC(InstParam::Register16Bit(Register16Bit::DE), InstParam::Boolean(false)), expected_result);
    assert_eq!(cpu.get_16bit_register(Register16Bit::DE), 1);
    //ADD HL,r16
    let mut expected_result = InstructionResult::default();
    expected_result.cycles = 2;
    expected_result.bytes = 1;
    expected_result.condition_codes = ConditionCodes{zero:FlagState::NotAffected,subtract:FlagState::Unset,half_carry:FlagState::Unset,carry:FlagState::Unset};
    assert_correct_instruction_step(&mut cpu, Instructions::ADD(InstParam::Register16Bit(Register16Bit::DE)), expected_result);
    assert_eq!(cpu.get_16bit_register(Register16Bit::DE), 1);
    //<<---------16bit Arithmetics---------<<
    cpu.mmu.write_byte(cpu.get_16bit_register(Register16Bit::HL), 3);
    //>>---------8bit Arithmetics--------->>
    //ADD A,[HL]
    let mut expected_result = InstructionResult::default();
    expected_result.cycles = 2;
    expected_result.bytes = 1;
    expected_result.condition_codes = ConditionCodes{zero:FlagState::Unset,subtract:FlagState::Unset,half_carry:FlagState::Unset,carry:FlagState::Unset};
    assert_correct_instruction_step(&mut cpu, Instructions::ADD(InstParam::Register16Bit(Register16Bit::HL)), expected_result);
    registers = cpu.get_registry_dump();
    assert_eq!(registers[u8::from(Register8Bit::A) as usize], 19);
    //half carry and carry flags
    let mut expected_result = InstructionResult::default();
    expected_result.cycles = 2;
    expected_result.bytes = 2;
    expected_result.condition_codes = ConditionCodes{zero:FlagState::Unset,subtract:FlagState::Unset,half_carry:FlagState::Raised,carry:FlagState::Unset};
    assert_correct_instruction_step(&mut cpu, Instructions::ADD(InstParam::Number8Bit(13)), expected_result);
    registers = cpu.get_registry_dump();
    assert_eq!(registers[u8::from(Register8Bit::A) as usize], 32);
    let mut expected_result = InstructionResult::default();
    expected_result.cycles = 2;
    expected_result.bytes = 2;
    expected_result.condition_codes = ConditionCodes{zero:FlagState::Raised,subtract:FlagState::Unset,half_carry:FlagState::Unset,carry:FlagState::Raised};
    assert_correct_instruction_step(&mut cpu, Instructions::ADD(InstParam::Number8Bit(224)), expected_result);
    registers = cpu.get_registry_dump();
    assert_eq!(registers[u8::from(Register8Bit::A) as usize], 0);
    //ADC (same function like for add above so 1 test should be eonugh for all ADC instructions)
    cpu.set_8bit_register(Register8Bit::C, 14);
    cpu.set_carry_flag();
    let mut expected_result = InstructionResult::default();
    expected_result.cycles = 1;
    expected_result.bytes = 1;
    expected_result.condition_codes = ConditionCodes{zero:FlagState::Unset,subtract:FlagState::Unset,half_carry:FlagState::Unset,carry:FlagState::Unset};
    assert_correct_instruction_step(&mut cpu, Instructions::ADC(InstParam::Register8Bit(Register8Bit::C)), expected_result);
    registers = cpu.get_registry_dump();
    assert_eq!(registers[u8::from(Register8Bit::A) as usize], 15);
    //DEC r8 INC r8
    let mut expected_result = InstructionResult::default();
    expected_result.cycles = 1;
    expected_result.bytes = 1;
    expected_result.condition_codes = ConditionCodes{zero:FlagState::Unset,subtract:FlagState::Unset,half_carry:FlagState::Raised,carry:FlagState::NotAffected};
    assert_correct_instruction_step(&mut cpu, Instructions::INC(InstParam::Register8Bit(Register8Bit::A), InstParam::Boolean(false)), expected_result);
    registers = cpu.get_registry_dump();
    assert_eq!(registers[u8::from(Register8Bit::A) as usize], 16);
    //INC r8
    let mut expected_result = InstructionResult::default();
    expected_result.cycles = 1;
    expected_result.bytes = 1;
    expected_result.condition_codes = ConditionCodes{zero:FlagState::Unset,subtract:FlagState::Raised,half_carry:FlagState::Raised,carry:FlagState::NotAffected};
    assert_correct_instruction_step(&mut cpu, Instructions::DEC(InstParam::Register8Bit(Register8Bit::A), InstParam::Boolean(false)), expected_result);
    registers = cpu.get_registry_dump();
    assert_eq!(registers[u8::from(Register8Bit::A) as usize], 15);
    //INC [HL]
    let mut expected_result = InstructionResult::default();
    expected_result.cycles = 3;
    expected_result.bytes = 1;
    expected_result.condition_codes = ConditionCodes{zero:FlagState::Unset,subtract:FlagState::Unset,half_carry:FlagState::Unset,carry:FlagState::NotAffected};
    assert_correct_instruction_step(&mut cpu, Instructions::INC(InstParam::Register16Bit(Register16Bit::HL), InstParam::Boolean(true)), expected_result);
    assert_eq!(cpu.mmu.read_byte(cpu.get_16bit_register(Register16Bit::HL)), 4);

    // SUB A,r8
    println!("regA: {}",cpu.get_8bit_register(Register8Bit::A));
    println!("regB: {}",cpu.get_8bit_register(Register8Bit::B));
    let mut expected_result = InstructionResult::default();
    expected_result.cycles = 1;
    expected_result.bytes = 1;
    expected_result.condition_codes = ConditionCodes{zero:FlagState::Raised,subtract:FlagState::Raised,half_carry:FlagState::Unset,carry:FlagState::Unset};
    assert_correct_instruction_step(&mut cpu, Instructions::SUB(InstParam::Register8Bit(Register8Bit::B)), expected_result);
    registers = cpu.get_registry_dump();
    assert_eq!(registers[u8::from(Register8Bit::A) as usize], 0);
    //SUB A,n8
    cpu.set_8bit_register(Register8Bit::A, 16);
    let mut expected_result = InstructionResult::default();
    expected_result.cycles = 2;
    expected_result.bytes = 2;
    expected_result.condition_codes = ConditionCodes{zero:FlagState::Unset,subtract:FlagState::Raised,half_carry:FlagState::Raised,carry:FlagState::Unset};
    assert_correct_instruction_step(&mut cpu, Instructions::SUB(InstParam::Number8Bit(2)), expected_result);
    registers = cpu.get_registry_dump();
    assert_eq!(registers[u8::from(Register8Bit::A) as usize], 14);
    //SUB A,[HL]
    let mut expected_result = InstructionResult::default();
    expected_result.cycles = 2;
    expected_result.bytes = 1;
    expected_result.condition_codes = ConditionCodes{zero:FlagState::Unset,subtract:FlagState::Raised,half_carry:FlagState::Unset,carry:FlagState::Unset};
    assert_correct_instruction_step(&mut cpu, Instructions::SUB(InstParam::Register16Bit(Register16Bit::HL)), expected_result);
    registers = cpu.get_registry_dump();
    assert_eq!(registers[u8::from(Register8Bit::A) as usize], 10);
    //SBC (same function like for add above so 1 test should be enough for all SBC instructions)
    cpu.set_8bit_register(Register8Bit::A, 6);
    cpu.set_8bit_register(Register8Bit::C, 2);
    cpu.set_carry_flag();
    let mut expected_result = InstructionResult::default();
    expected_result.cycles = 1;
    expected_result.bytes = 1;
    expected_result.condition_codes = ConditionCodes{zero:FlagState::Unset,subtract:FlagState::Raised,half_carry:FlagState::Unset,carry:FlagState::Unset};
    assert_correct_instruction_step(&mut cpu, Instructions::SBC(InstParam::Register8Bit(Register8Bit::C)), expected_result);
    registers = cpu.get_registry_dump();
    assert_eq!(registers[u8::from(Register8Bit::A) as usize], 3);
    //<<---------8bit Arithmetics---------<<
}

#[test]
fn logic_8bit_16bit_test() {
    let mut cpu = new_cpu();
    let mut registers;
    //CP
    cpu.set_8bit_register(Register8Bit::A, 15);
    cpu.set_8bit_register(Register8Bit::B, 15);
    cpu.set_16bit_register(Register16Bit::HL, 10);
    cpu.mmu.write_byte(cpu.get_16bit_register(Register16Bit::HL), 16);
    let mut expected_result = InstructionResult::default();
    expected_result.cycles = 1;
    expected_result.bytes = 1;
    expected_result.condition_codes = ConditionCodes{zero:FlagState::Raised,subtract:FlagState::Raised,half_carry:FlagState::Unset,carry:FlagState::Unset};
    assert_correct_instruction_step(&mut cpu, Instructions::CP(InstParam::Register8Bit(Register8Bit::B)), expected_result);

    let mut expected_result = InstructionResult::default();
    expected_result.cycles = 2;
    expected_result.bytes = 2;
    expected_result.condition_codes = ConditionCodes{zero:FlagState::Unset,subtract:FlagState::Raised,half_carry:FlagState::Unset,carry:FlagState::Unset};
    assert_correct_instruction_step(&mut cpu, Instructions::CP(InstParam::Number8Bit(5)), expected_result);

    let mut expected_result = InstructionResult::default();
    expected_result.cycles = 2;
    expected_result.bytes = 1;
    expected_result.condition_codes = ConditionCodes{zero:FlagState::Unset,subtract:FlagState::Raised,half_carry:FlagState::Raised,carry:FlagState::Raised};
    assert_correct_instruction_step(&mut cpu, Instructions::CP(InstParam::Register16Bit(Register16Bit::HL)), expected_result);
    //check A for no changes
    registers = cpu.get_registry_dump();
    assert_eq!(registers[u8::from(Register8Bit::A) as usize], 15);
    //AND
    let mut expected_result = InstructionResult::default();
    expected_result.cycles = 2;
    expected_result.bytes = 2;
    expected_result.condition_codes = ConditionCodes{zero:FlagState::Unset,subtract:FlagState::Unset,half_carry:FlagState::Raised,carry:FlagState::Unset};
    assert_correct_instruction_step(&mut cpu, Instructions::AND(InstParam::Number8Bit(0b00000011)), expected_result);
    registers = cpu.get_registry_dump();
    assert_eq!(registers[u8::from(Register8Bit::A) as usize], 3);

    cpu.set_8bit_register(Register8Bit::A, 15);
    cpu.set_8bit_register(Register8Bit::B, 0);
    let mut expected_result = InstructionResult::default();
    expected_result.cycles = 1;
    expected_result.bytes = 1;
    expected_result.condition_codes = ConditionCodes{zero:FlagState::Raised,subtract:FlagState::Unset,half_carry:FlagState::Raised,carry:FlagState::Unset};
    assert_correct_instruction_step(&mut cpu, Instructions::AND(InstParam::Register8Bit(Register8Bit::B)), expected_result);
    registers = cpu.get_registry_dump();
    assert_eq!(registers[u8::from(Register8Bit::A) as usize], 0);
    
    cpu.set_8bit_register(Register8Bit::A, 9);
    cpu.mmu.write_byte(cpu.get_16bit_register(Register16Bit::HL), 10);
    let mut expected_result = InstructionResult::default();
    expected_result.cycles = 2;
    expected_result.bytes = 1;
    expected_result.condition_codes = ConditionCodes{zero:FlagState::Unset,subtract:FlagState::Unset,half_carry:FlagState::Raised,carry:FlagState::Unset};
    assert_correct_instruction_step(&mut cpu, Instructions::AND(InstParam::Register16Bit(Register16Bit::HL)), expected_result);
    registers = cpu.get_registry_dump();
    assert_eq!(registers[u8::from(Register8Bit::A) as usize], 8);
    //OR
    cpu.set_8bit_register(Register8Bit::A, 9);
    let mut expected_result = InstructionResult::default();
    expected_result.cycles = 2;
    expected_result.bytes = 2;
    expected_result.condition_codes = ConditionCodes{zero:FlagState::Unset,subtract:FlagState::Unset,half_carry:FlagState::Unset,carry:FlagState::Unset};
    assert_correct_instruction_step(&mut cpu, Instructions::OR(InstParam::Number8Bit(0b00000010)), expected_result);
    registers = cpu.get_registry_dump();
    assert_eq!(registers[u8::from(Register8Bit::A) as usize], 11);

    let mut expected_result = InstructionResult::default();
    expected_result.cycles = 1;
    expected_result.bytes = 1;
    expected_result.condition_codes = ConditionCodes{zero:FlagState::Unset,subtract:FlagState::Unset,half_carry:FlagState::Unset,carry:FlagState::Unset};
    assert_correct_instruction_step(&mut cpu, Instructions::OR(InstParam::Register8Bit(Register8Bit::B)), expected_result);
    registers = cpu.get_registry_dump();
    assert_eq!(registers[u8::from(Register8Bit::A) as usize], 11);

    cpu.mmu.write_byte(cpu.get_16bit_register(Register16Bit::HL), 15);
    cpu.set_8bit_register(Register8Bit::A, 0b00110000);
    let mut expected_result = InstructionResult::default();
    expected_result.cycles = 2;
    expected_result.bytes = 1;
    expected_result.condition_codes = ConditionCodes{zero:FlagState::Unset,subtract:FlagState::Unset,half_carry:FlagState::Unset,carry:FlagState::Unset};
    assert_correct_instruction_step(&mut cpu, Instructions::OR(InstParam::Register16Bit(Register16Bit::HL)), expected_result);
    registers = cpu.get_registry_dump();
    assert_eq!(registers[u8::from(Register8Bit::A) as usize], 0b00111111);
    
    //XOR
    cpu.set_8bit_register(Register8Bit::A, 9);
    let mut expected_result = InstructionResult::default();
    expected_result.cycles = 2;
    expected_result.bytes = 2;
    expected_result.condition_codes = ConditionCodes{zero:FlagState::Unset,subtract:FlagState::Unset,half_carry:FlagState::Unset,carry:FlagState::Unset};
    assert_correct_instruction_step(&mut cpu, Instructions::XOR(InstParam::Number8Bit(0b00000010)), expected_result);
    registers = cpu.get_registry_dump();
    assert_eq!(registers[u8::from(Register8Bit::A) as usize], 11);

    cpu.set_8bit_register(Register8Bit::B, 0b0111);
    let mut expected_result = InstructionResult::default();
    expected_result.cycles = 1;
    expected_result.bytes = 1;
    expected_result.condition_codes = ConditionCodes{zero:FlagState::Unset,subtract:FlagState::Unset,half_carry:FlagState::Unset,carry:FlagState::Unset};
    assert_correct_instruction_step(&mut cpu, Instructions::XOR(InstParam::Register8Bit(Register8Bit::B)), expected_result);
    registers = cpu.get_registry_dump();
    assert_eq!(registers[u8::from(Register8Bit::A) as usize], 12);

    cpu.mmu.write_byte(cpu.get_16bit_register(Register16Bit::HL), 31);
    cpu.set_8bit_register(Register8Bit::A, 0b00110000);
    let mut expected_result = InstructionResult::default();
    expected_result.cycles = 2;
    expected_result.bytes = 1;
    expected_result.condition_codes = ConditionCodes{zero:FlagState::Unset,subtract:FlagState::Unset,half_carry:FlagState::Unset,carry:FlagState::Unset};
    assert_correct_instruction_step(&mut cpu, Instructions::XOR(InstParam::Register16Bit(Register16Bit::HL)), expected_result);
    registers = cpu.get_registry_dump();
    assert_eq!(registers[u8::from(Register8Bit::A) as usize], 0b00101111);
}

#[test]
fn bit_op_test() {
    let mut cpu = new_cpu();
    let mut expected_result = InstructionResult::default();
    let mut registers;

    // 1) BIT
    cpu.ld_r8_n8(Register8Bit::A, 0b11111101u8);
    cpu.ld_hl_r8(Register8Bit::A);
    // bit is 0
    expected_result.cycles = 2;
    expected_result.bytes = 2;
    expected_result.condition_codes = ConditionCodes{zero:FlagState::Raised,subtract:FlagState::Unset,half_carry:FlagState::Raised,carry:FlagState::NotAffected};
    assert_correct_instruction_step(&mut cpu, Instructions::BIT(InstParam::Unsigned3Bit(1), InstParam::Register8Bit(Register8Bit::A)), expected_result);
    //bit is not 0
    let mut expected_result = InstructionResult::default();
    expected_result.cycles = 2;
    expected_result.bytes = 2;
    expected_result.condition_codes = ConditionCodes{zero:FlagState::NotAffected,subtract:FlagState::Unset,half_carry:FlagState::Raised,carry:FlagState::NotAffected};
    assert_correct_instruction_step(&mut cpu, Instructions::BIT(InstParam::Unsigned3Bit(7), InstParam::Register8Bit(Register8Bit::A)), expected_result);
    //bit is 0 with HL
    let mut expected_result = InstructionResult::default();
    expected_result.cycles = 3;
    expected_result.bytes = 2;
    expected_result.condition_codes = ConditionCodes{zero:FlagState::Raised,subtract:FlagState::Unset,half_carry:FlagState::Raised,carry:FlagState::NotAffected};
    assert_correct_instruction_step(&mut cpu, Instructions::BIT(InstParam::Unsigned3Bit(1), InstParam::Register16Bit(Register16Bit::HL)), expected_result);

    registers = cpu.get_registry_dump();
    assert_eq!(registers[u8::from(Register8Bit::A) as usize], 0b11111101u8);
    // 2) RES
    let mut expected_result = InstructionResult::default();
    expected_result.cycles = 2;
    expected_result.bytes = 2;
    assert_correct_instruction_step(&mut cpu, Instructions::RES(InstParam::Unsigned3Bit(0), InstParam::Register8Bit(Register8Bit::A)), expected_result);
    let mut expected_result = InstructionResult::default();
    expected_result.cycles = 2;
    expected_result.bytes = 2;
    assert_correct_instruction_step(&mut cpu, Instructions::RES(InstParam::Unsigned3Bit(7), InstParam::Register8Bit(Register8Bit::A)), expected_result);
    
    let mut expected_result = InstructionResult::default();
    expected_result.cycles = 4;
    expected_result.bytes = 2;
    assert_correct_instruction_step(&mut cpu, Instructions::RES(InstParam::Unsigned3Bit(0), InstParam::Register16Bit(Register16Bit::HL)), expected_result);
    let mut expected_result = InstructionResult::default();
    expected_result.cycles = 4;
    expected_result.bytes = 2;
    assert_correct_instruction_step(&mut cpu, Instructions::RES(InstParam::Unsigned3Bit(7), InstParam::Register16Bit(Register16Bit::HL)), expected_result);
    
    cpu.ld_r8_hl(Register8Bit::B);
    registers = cpu.get_registry_dump();
    assert_eq!(registers[u8::from(Register8Bit::A) as usize], 0b01111100u8);
    assert_eq!(registers[u8::from(Register8Bit::B) as usize], 0b01111100u8);

    //3) SET
    let mut expected_result = InstructionResult::default();
    expected_result.cycles = 2;
    expected_result.bytes = 2;
    assert_correct_instruction_step(&mut cpu, Instructions::SET(InstParam::Unsigned3Bit(0), InstParam::Register8Bit(Register8Bit::A)), expected_result);
    let mut expected_result = InstructionResult::default();
    expected_result.cycles = 2;
    expected_result.bytes = 2;
    assert_correct_instruction_step(&mut cpu, Instructions::SET(InstParam::Unsigned3Bit(7), InstParam::Register8Bit(Register8Bit::A)), expected_result);
    
    let mut expected_result = InstructionResult::default();
    expected_result.cycles = 4;
    expected_result.bytes = 2;
    assert_correct_instruction_step(&mut cpu, Instructions::SET(InstParam::Unsigned3Bit(0), InstParam::Register16Bit(Register16Bit::HL)), expected_result);
    let mut expected_result = InstructionResult::default();
    expected_result.cycles = 4;
    expected_result.bytes = 2;
    assert_correct_instruction_step(&mut cpu, Instructions::SET(InstParam::Unsigned3Bit(7), InstParam::Register16Bit(Register16Bit::HL)), expected_result);
    
    cpu.ld_r8_hl(Register8Bit::B);
    registers = cpu.get_registry_dump();
    assert_eq!(registers[u8::from(Register8Bit::A) as usize], 0b11111101u8);
    assert_eq!(registers[u8::from(Register8Bit::B) as usize], 0b11111101u8);
    // 4) SWAP
    let mut expected_result = InstructionResult::default();
    expected_result.cycles = 2;
    expected_result.bytes = 2;
    expected_result.condition_codes = ConditionCodes{zero:FlagState::NotAffected,subtract:FlagState::Unset,half_carry:FlagState::Unset,carry:FlagState::Unset};
    assert_correct_instruction_step(&mut cpu, Instructions::SWAP( InstParam::Register8Bit(Register8Bit::A)), expected_result);

    let mut expected_result = InstructionResult::default();
    expected_result.cycles = 4;
    expected_result.bytes = 2;
    expected_result.condition_codes = ConditionCodes{zero:FlagState::NotAffected,subtract:FlagState::Unset,half_carry:FlagState::Unset,carry:FlagState::Unset};
    assert_correct_instruction_step(&mut cpu, Instructions::SWAP( InstParam::Register16Bit(Register16Bit::HL)), expected_result);

    cpu.ld_r8_hl(Register8Bit::B);
    registers = cpu.get_registry_dump();
    assert_eq!(registers[u8::from(Register8Bit::A) as usize], 0b11011111u8);
    assert_eq!(registers[u8::from(Register8Bit::B) as usize], 0b11011111u8);

    //0 as result
    cpu.ld_hl_n8(0);
    let mut expected_result = InstructionResult::default();
    expected_result.cycles = 4;
    expected_result.bytes = 2;
    expected_result.condition_codes = ConditionCodes{zero:FlagState::Unset,subtract:FlagState::Unset,half_carry:FlagState::Unset,carry:FlagState::Unset};
    assert_correct_instruction_step(&mut cpu, Instructions::SWAP( InstParam::Register16Bit(Register16Bit::HL)), expected_result);
    
    cpu.ld_r8_hl(Register8Bit::B);
    registers = cpu.get_registry_dump();
    assert_eq!(registers[u8::from(Register8Bit::B) as usize], 0b00000000u8);
}

#[test]
fn rl_test() {
    let mut cpu = new_cpu();

    //Test rl_r8
    cpu.clear_carry_flag();
    cpu.set_8bit_register(Register8Bit::B, 128);

    let mut  instruction_result = cpu.rl_r8(Register8Bit::B);
    assert_eq!(cpu.get_8bit_register(Register8Bit::B), 0);
    assert!(instruction_result.condition_codes.carry == FlagState::Raised);
    cpu.set_carry_flag();

    instruction_result = cpu.rl_r8(Register8Bit::B);
    assert_eq!(cpu.get_8bit_register(Register8Bit::B), 1);
    assert!(instruction_result.condition_codes.carry == FlagState::Unset);
    cpu.clear_carry_flag();

    instruction_result = cpu.rl_r8(Register8Bit::B);
    assert_eq!(cpu.get_8bit_register(Register8Bit::B), 2);
    assert!(instruction_result.condition_codes.carry == FlagState::Unset);

    //Test rl_a
    cpu.clear_carry_flag();
    cpu.set_8bit_register(Register8Bit::A, 128);

    instruction_result = cpu.rl_a();
    assert_eq!(cpu.get_8bit_register(Register8Bit::A), 0);
    assert!(instruction_result.condition_codes.carry == FlagState::Raised);
    cpu.set_carry_flag();

    instruction_result = cpu.rl_r8(Register8Bit::A);
    assert_eq!(cpu.get_8bit_register(Register8Bit::A), 1);
    assert!(instruction_result.condition_codes.carry == FlagState::Unset);
    cpu.clear_carry_flag();

    instruction_result = cpu.rl_r8(Register8Bit::A);
    assert_eq!(cpu.get_8bit_register(Register8Bit::A), 2);
    assert!(instruction_result.condition_codes.carry == FlagState::Unset);

    //Test rl_hl
    cpu.clear_carry_flag();
    let mem_addr = 0b0000_0000_1000_0000;
    cpu.set_16bit_register(Register16Bit::HL, mem_addr);
    cpu.mmu.write_byte(mem_addr, 128);

    instruction_result = cpu.rl_hl();
    assert_eq!(cpu.mmu.read_byte(mem_addr), 0);
    assert!(instruction_result.condition_codes.carry == FlagState::Raised);
    cpu.set_carry_flag();

    instruction_result = cpu.rl_hl();
    assert_eq!(cpu.mmu.read_byte(mem_addr), 1);
    assert!(instruction_result.condition_codes.carry == FlagState::Unset);
    cpu.clear_carry_flag();

    instruction_result = cpu.rl_hl();
    assert_eq!(cpu.mmu.read_byte(mem_addr), 2);
    assert!(instruction_result.condition_codes.carry == FlagState::Unset);

    //Test rl_c_r8
    cpu.clear_carry_flag();
    cpu.set_8bit_register(Register8Bit::B, 128);

    instruction_result = cpu.rl_c_r8(Register8Bit::B);
    assert_eq!(cpu.get_8bit_register(Register8Bit::B), 1);
    assert!(instruction_result.condition_codes.carry == FlagState::Raised);
    cpu.set_carry_flag();

    instruction_result = cpu.rl_c_r8(Register8Bit::B);
    assert_eq!(cpu.get_8bit_register(Register8Bit::B), 2);
    assert!(instruction_result.condition_codes.carry == FlagState::Unset);
    cpu.clear_carry_flag();

    instruction_result = cpu.rl_c_r8(Register8Bit::B);
    assert_eq!(cpu.get_8bit_register(Register8Bit::B), 4);
    assert!(instruction_result.condition_codes.carry == FlagState::Unset);

    //Test rl_c_a
    cpu.clear_carry_flag();
    cpu.set_8bit_register(Register8Bit::A, 128);

    instruction_result = cpu.rl_c_a();
    assert_eq!(cpu.get_8bit_register(Register8Bit::A), 1);
    assert!(instruction_result.condition_codes.carry == FlagState::Raised);
    cpu.set_carry_flag();

    instruction_result = cpu.rl_c_r8(Register8Bit::A);
    assert_eq!(cpu.get_8bit_register(Register8Bit::A), 2);
    assert!(instruction_result.condition_codes.carry == FlagState::Unset);
    cpu.clear_carry_flag();

    instruction_result = cpu.rl_c_r8(Register8Bit::A);
    assert_eq!(cpu.get_8bit_register(Register8Bit::A), 4);
    assert!(instruction_result.condition_codes.carry == FlagState::Unset);

    //Test rl_c_hl
    cpu.clear_carry_flag();
    let mem_addr = 0b0000_0000_1000_0000;
    cpu.set_16bit_register(Register16Bit::HL, mem_addr);
    cpu.mmu.write_byte(mem_addr, 128);

    instruction_result = cpu.rl_c_hl();
    assert_eq!(cpu.mmu.read_byte(mem_addr), 1);
    assert!(instruction_result.condition_codes.carry == FlagState::Raised);
    cpu.set_carry_flag();

    instruction_result = cpu.rl_c_hl();
    assert_eq!(cpu.mmu.read_byte(mem_addr), 2);
    assert!(instruction_result.condition_codes.carry == FlagState::Unset);
    cpu.clear_carry_flag();

    instruction_result = cpu.rl_c_hl();
    assert_eq!(cpu.mmu.read_byte(mem_addr), 4);
    assert!(instruction_result.condition_codes.carry == FlagState::Unset);
}

#[test]
fn rr_test() {
    let mut cpu = new_cpu();

    //Test rl_r8
    cpu.clear_carry_flag();
    cpu.set_8bit_register(Register8Bit::B, 1);

    let mut  instruction_result = cpu.rr_r8(Register8Bit::B);
    assert_eq!(cpu.get_8bit_register(Register8Bit::B), 0);
    assert!(instruction_result.condition_codes.carry == FlagState::Raised);
    cpu.set_carry_flag();

    instruction_result = cpu.rr_r8(Register8Bit::B);
    assert_eq!(cpu.get_8bit_register(Register8Bit::B), 128);
    assert!(instruction_result.condition_codes.carry == FlagState::Unset);
    cpu.clear_carry_flag();

    instruction_result = cpu.rr_r8(Register8Bit::B);
    assert_eq!(cpu.get_8bit_register(Register8Bit::B), 64);
    assert!(instruction_result.condition_codes.carry == FlagState::Unset);

    //Test rl_a
    cpu.clear_carry_flag();
    cpu.set_8bit_register(Register8Bit::A, 1);

    instruction_result = cpu.rr_a();
    assert_eq!(cpu.get_8bit_register(Register8Bit::A), 0);
    assert!(instruction_result.condition_codes.carry == FlagState::Raised);
    cpu.set_carry_flag();

    instruction_result = cpu.rr_r8(Register8Bit::A);
    assert_eq!(cpu.get_8bit_register(Register8Bit::A), 128);
    assert!(instruction_result.condition_codes.carry == FlagState::Unset);
    cpu.clear_carry_flag();

    instruction_result = cpu.rr_r8(Register8Bit::A);
    assert_eq!(cpu.get_8bit_register(Register8Bit::A), 64);
    assert!(instruction_result.condition_codes.carry == FlagState::Unset);

    //Test rl_hl
    cpu.clear_carry_flag();
    let mem_addr = 0b0000_0000_1000_0000;
    cpu.set_16bit_register(Register16Bit::BC, mem_addr);
    cpu.mmu.write_byte(mem_addr, 1);

    instruction_result = cpu.rr_hl(Register16Bit::BC);
    assert_eq!(cpu.mmu.read_byte(mem_addr), 0);
    assert!(instruction_result.condition_codes.carry == FlagState::Raised);
    cpu.set_carry_flag();

    instruction_result = cpu.rr_hl(Register16Bit::BC);
    assert_eq!(cpu.mmu.read_byte(mem_addr), 128);
    assert!(instruction_result.condition_codes.carry == FlagState::Unset);
    cpu.clear_carry_flag();

    instruction_result = cpu.rr_hl(Register16Bit::BC);
    assert_eq!(cpu.mmu.read_byte(mem_addr), 64);
    assert!(instruction_result.condition_codes.carry == FlagState::Unset);

    //Test rl_c_r8
    cpu.clear_carry_flag();
    cpu.set_8bit_register(Register8Bit::B, 1);

    instruction_result = cpu.rr_c_r8(Register8Bit::B);
    assert_eq!(cpu.get_8bit_register(Register8Bit::B), 128);
    assert!(instruction_result.condition_codes.carry == FlagState::Raised);
    cpu.set_carry_flag();

    instruction_result = cpu.rr_c_r8(Register8Bit::B);
    assert_eq!(cpu.get_8bit_register(Register8Bit::B), 64);
    assert!(instruction_result.condition_codes.carry == FlagState::Unset);
    cpu.clear_carry_flag();

    instruction_result = cpu.rr_c_r8(Register8Bit::B);
    assert_eq!(cpu.get_8bit_register(Register8Bit::B), 32);
    assert!(instruction_result.condition_codes.carry == FlagState::Unset);

    //Test rl_c_a
    cpu.clear_carry_flag();
    cpu.set_8bit_register(Register8Bit::A, 1);

    instruction_result = cpu.rr_c_a();
    assert_eq!(cpu.get_8bit_register(Register8Bit::A), 128);
    assert!(instruction_result.condition_codes.carry == FlagState::Raised);
    cpu.set_carry_flag();

    instruction_result = cpu.rr_c_r8(Register8Bit::A);
    assert_eq!(cpu.get_8bit_register(Register8Bit::A), 64);
    assert!(instruction_result.condition_codes.carry == FlagState::Unset);
    cpu.clear_carry_flag();

    instruction_result = cpu.rr_c_r8(Register8Bit::A);
    assert_eq!(cpu.get_8bit_register(Register8Bit::A), 32);
    assert!(instruction_result.condition_codes.carry == FlagState::Unset);

    //Test rl_c_hl
    cpu.clear_carry_flag();
    let mem_addr = 0b0000_0000_1000_0000;
    cpu.set_16bit_register(Register16Bit::BC, mem_addr);
    cpu.mmu.write_byte(mem_addr, 1);

    instruction_result = cpu.rr_c_hl(Register16Bit::BC);
    assert_eq!(cpu.mmu.read_byte(mem_addr), 128);
    assert!(instruction_result.condition_codes.carry == FlagState::Raised);
    cpu.set_carry_flag();

    instruction_result = cpu.rr_c_hl(Register16Bit::BC);
    assert_eq!(cpu.mmu.read_byte(mem_addr), 64);
    assert!(instruction_result.condition_codes.carry == FlagState::Unset);
    cpu.clear_carry_flag();

    instruction_result = cpu.rr_c_hl(Register16Bit::BC);
    assert_eq!(cpu.mmu.read_byte(mem_addr), 32);
    assert!(instruction_result.condition_codes.carry == FlagState::Unset);
}

#[test]
fn sl_test() {
    let mut cpu = new_cpu();

    //Test sra_r8
    cpu.clear_carry_flag();
    cpu.set_8bit_register(Register8Bit::B, 64);

    let mut instruction_result = cpu.sla_r8(Register8Bit::B);
    assert_eq!(cpu.get_8bit_register(Register8Bit::B), 128);
    assert!(instruction_result.condition_codes.carry == FlagState::Unset);
    cpu.set_carry_flag();

    instruction_result = cpu.sla_r8(Register8Bit::B);
    assert_eq!(cpu.get_8bit_register(Register8Bit::B), 0);
    assert!(instruction_result.condition_codes.carry == FlagState::Raised);
    cpu.clear_carry_flag();

    //Test sra_hl
    let mem_addr = 0b0000_0000_1000_0000;
    cpu.set_16bit_register(Register16Bit::HL, mem_addr);
    cpu.mmu.write_byte(mem_addr, 64);

    instruction_result = cpu.sla_hl();
    assert_eq!(cpu.mmu.read_byte(mem_addr), 128);
    assert!(instruction_result.condition_codes.carry == FlagState::Unset);
    cpu.set_carry_flag();

    instruction_result = cpu.sla_hl();
    assert_eq!(cpu.mmu.read_byte(mem_addr), 0);
    assert!(instruction_result.condition_codes.carry == FlagState::Raised);
    cpu.clear_carry_flag();
}

#[test]
fn sr_test() {
    let mut cpu = new_cpu();

    //Test sra_r8
    cpu.clear_carry_flag();
    cpu.set_8bit_register(Register8Bit::B, 129);

    let mut instruction_result = cpu.sra_r8(Register8Bit::B);
    assert_eq!(cpu.get_8bit_register(Register8Bit::B), 192);
    assert!(instruction_result.condition_codes.carry == FlagState::Raised);
    cpu.set_carry_flag();

    instruction_result = cpu.sra_r8(Register8Bit::B);
    assert_eq!(cpu.get_8bit_register(Register8Bit::B), 224);
    assert!(instruction_result.condition_codes.carry == FlagState::Unset);
    cpu.clear_carry_flag();

    //Test sra_hl
    let mem_addr = 0b0000_0000_1000_0000;
    cpu.set_16bit_register(Register16Bit::HL, mem_addr);
    cpu.mmu.write_byte(mem_addr, 129);

    instruction_result = cpu.sra_hl();
    assert_eq!(cpu.mmu.read_byte(mem_addr), 192);
    assert!(instruction_result.condition_codes.carry == FlagState::Raised);
    cpu.set_carry_flag();

    instruction_result = cpu.sra_hl();
    assert_eq!(cpu.mmu.read_byte(mem_addr), 224);
    assert!(instruction_result.condition_codes.carry == FlagState::Unset);
    cpu.clear_carry_flag();

    //Test srl_r8
    cpu.set_8bit_register(Register8Bit::B, 129);

    let mut instruction_result = cpu.srl_r8(Register8Bit::B);
    assert_eq!(cpu.get_8bit_register(Register8Bit::B), 64);
    assert!(instruction_result.condition_codes.carry == FlagState::Raised);
    cpu.set_carry_flag();

    instruction_result = cpu.srl_r8(Register8Bit::B);
    assert_eq!(cpu.get_8bit_register(Register8Bit::B), 32);
    assert!(instruction_result.condition_codes.carry == FlagState::Unset);
    cpu.clear_carry_flag();

    //Test srl_hl
    let mem_addr = 0b0000_0000_1000_0000;
    cpu.set_16bit_register(Register16Bit::HL, mem_addr);
    cpu.mmu.write_byte(mem_addr, 129);

    instruction_result = cpu.srl_hl();
    assert_eq!(cpu.mmu.read_byte(mem_addr), 64);
    assert!(instruction_result.condition_codes.carry == FlagState::Raised);
    cpu.set_carry_flag();

    instruction_result = cpu.srl_hl();
    assert_eq!(cpu.mmu.read_byte(mem_addr), 32);
    assert!(instruction_result.condition_codes.carry == FlagState::Unset);
    cpu.clear_carry_flag();
}

#[test]
fn jumps_subroutines_test() {
    let mut cpu = new_cpu();
    let mut registers;
    // 1) CALL and JP
    cpu.set_16bit_register(Register16Bit::SP, 0xF000);
    cpu.set_16bit_register(Register16Bit::PC, 0x000A);
    let mut expected_result = InstructionResult::default();
    expected_result.cycles = 6;
    expected_result.bytes = 3;
    assert_correct_instruction_step(&mut cpu, Instructions::CALL(InstParam::Number16Bit(0x00A0), InstParam::Number16Bit(0x0A00)), expected_result);

    registers = cpu.get_registry_dump();
    let register_value = u8::from(Register16Bit::PC) as usize;
    let high = registers[register_value] as u16;
    let low = registers[register_value + 1] as u16;
    let result = (high << 8) | low;
    assert_eq!(result, 0x00A0);

    cpu.set_16bit_register(Register16Bit::HL, 0x0A00);
    let mut expected_result = InstructionResult::default();
    expected_result.cycles = 1;
    expected_result.bytes = 1;
    assert_correct_instruction_step(&mut cpu, Instructions::JP(InstParam::Register16Bit(Register16Bit::HL), InstParam::Number16Bit(0x000A)), expected_result);
    registers = cpu.get_registry_dump();
    let register_value = u8::from(Register16Bit::PC) as usize;
    let high = registers[register_value] as u16;
    let low = registers[register_value + 1] as u16;
    let result = (high << 8) | low;
    assert_eq!(result, 0x0A00);
    // 2) RET
    let mut expected_result = InstructionResult::default();
    expected_result.cycles = 4;
    expected_result.bytes = 1;
    assert_correct_instruction_step(&mut cpu, Instructions::RET(InstParam::Offset), expected_result);
    registers = cpu.get_registry_dump();
    let register_value = u8::from(Register16Bit::PC) as usize;
    let high = registers[register_value] as u16;
    let low = registers[register_value + 1] as u16;
    let result = (high << 8) | low;
    assert_eq!(result, 0x000D);
    // 3) JR
    let mut expected_result = InstructionResult::default();
    expected_result.cycles = 3;
    expected_result.bytes = 2;
    let next_instr = cpu.get_16bit_register(Register16Bit::PC)+2;
    assert_eq!(next_instr, 0x000F);
    assert_correct_instruction_step(&mut cpu, Instructions::JR(InstParam::SignedNumber8Bit(5),InstParam::SignedNumber8Bit(10)), expected_result);
    let result = cpu.get_16bit_register(Register16Bit::PC);
    assert_eq!(result, next_instr+5);
    // 4) RST
    let mut expected_result = InstructionResult::default();
    expected_result.cycles = 4;
    expected_result.bytes = 1;
    assert_correct_instruction_step(&mut cpu, Instructions::RST(InstParam::Number8Bit(0x18)), expected_result);
    registers = cpu.get_registry_dump();
    let register_value = u8::from(Register16Bit::PC) as usize;
    let high = registers[register_value] as u16;
    let low = registers[register_value + 1] as u16;
    let result = (high << 8) | low;
    assert_eq!(result, 0x18);
}

#[test]
fn load_test() {
    let mut cpu = new_cpu();
    let mut expected_result = InstructionResult::default();
    let mut registers;

    //1) LD r8,n8: B,42
    expected_result.bytes = 2;
    expected_result.cycles = 2;
    assert_correct_instruction_step(&mut cpu, Instructions::LD(InstParam::Register8Bit(Register8Bit::B), InstParam::Number8Bit(42)), expected_result);
    //2) LD r8,r8: A,B
    let mut expected_result = InstructionResult::default();
    expected_result.bytes = 1;
    expected_result.cycles = 1;
    assert_correct_instruction_step(&mut cpu, Instructions::LD(InstParam::Register8Bit(Register8Bit::A), InstParam::Register8Bit(Register8Bit::B)), expected_result);
    //3) LD [HL],r8: [HL],B
    let mut expected_result = InstructionResult::default();
    expected_result.bytes = 1;
    expected_result.cycles = 2;
    assert_correct_instruction_step(&mut cpu, Instructions::LD(InstParam::Register16Bit(Register16Bit::HL), InstParam::Register8Bit(Register8Bit::B)), expected_result);
    //4) LD r8,[HL]: C,[HL]
    let mut expected_result = InstructionResult::default();
    expected_result.bytes = 1;
    expected_result.cycles = 2;
    assert_correct_instruction_step(&mut cpu, Instructions::LD(InstParam::Register8Bit(Register8Bit::C), InstParam::Register16Bit(Register16Bit::HL)), expected_result);
    //check registers for correct loads
    registers = cpu.get_registry_dump();
    assert_eq!(registers[u8::from(Register8Bit::A) as usize], 42);
    assert_eq!(registers[u8::from(Register8Bit::B) as usize], 42);
    assert_eq!(registers[u8::from(Register8Bit::C) as usize], 42);
    //5) LD r16,n16: DE,0xFF00u16
    let mut expected_result = InstructionResult::default();
    expected_result.bytes = 3;
    expected_result.cycles = 3;
    
    assert_correct_instruction_step(&mut cpu, Instructions::LD(InstParam::Register16Bit(Register16Bit::DE), InstParam::Number16Bit(0xF000u16)), expected_result);
    //6) LD [r16],A: [DE],A
    let mut expected_result = InstructionResult::default();
    expected_result.bytes = 1;
    expected_result.cycles = 2;
    registers = cpu.get_registry_dump();
    assert_eq!(registers[u8::from(Register8Bit::A) as usize], 42);
    assert_correct_instruction_step(&mut cpu, Instructions::LD(InstParam::Register16Bit(Register16Bit::DE), InstParam::Register8Bit(Register8Bit::A)), expected_result);
    //7) LD A,[r16]: A,0xFF00u16
    let mut expected_result = InstructionResult::default();
    expected_result.bytes = 1;
    expected_result.cycles = 2;
    assert_eq!(cpu.mmu.read_byte(0xF000u16),42);
    assert_correct_instruction_step(&mut cpu, Instructions::LD(InstParam::Register8Bit(Register8Bit::A), InstParam::Register16Bit(Register16Bit::DE)), expected_result);
    registers = cpu.get_registry_dump();
    assert_eq!(registers[u8::from(Register8Bit::A) as usize], 42);
    let register_value = u8::from(Register16Bit::DE) as usize;
    let high = registers[register_value] as u16;
    let low = registers[register_value + 1] as u16;
    let result = (high << 8) | low;
    assert_eq!(result, 0xF000u16);

    //8) LD [n16],A
    cpu.ld_r8_n8(Register8Bit::A, 0);
    let mut expected_result = InstructionResult::default();
    expected_result.bytes = 3;
    expected_result.cycles = 4;
    assert_correct_instruction_step(&mut cpu, Instructions::LD( InstParam::Number16Bit(0xFF01u16), InstParam::Register8Bit(Register8Bit::A)), expected_result);
    //9) LD A,[n16]
    cpu.ld_r8_n8(Register8Bit::A, 1);
    let mut expected_result = InstructionResult::default();
    expected_result.bytes = 3;
    expected_result.cycles = 4;
    assert_correct_instruction_step(&mut cpu, Instructions::LD(InstParam::Register8Bit(Register8Bit::A), InstParam::Number16Bit(0xFF01u16)), expected_result);
    registers = cpu.get_registry_dump();
    assert_eq!(registers[u8::from(Register8Bit::A) as usize], 0);
    // 10) [HL],n8: [HL], 8 
    let mut expected_result = InstructionResult::default();
    expected_result.bytes = 2;
    expected_result.cycles = 3;
    assert_correct_instruction_step(&mut cpu, Instructions::LD(InstParam::Register16Bit(Register16Bit::HL), InstParam::Number8Bit(8)), expected_result);
    cpu.ld_a_hli();
    registers = cpu.get_registry_dump();
    assert_eq!(registers[u8::from(Register8Bit::A) as usize], 8);
    //11) LDH 
    cpu.ld_r8_n8(Register8Bit::A, 111);
    cpu.ldh_n16_a(0xFEFF);
    cpu.ld_r8_n8(Register8Bit::A, 222);
    cpu.ldh_n16_a(0xF000);
    cpu.ldh_a_n16(0xFEFF);
    registers = cpu.get_registry_dump();
    assert_ne!(registers[u8::from(Register8Bit::A) as usize], 111);
    cpu.ldh_a_n16(0xF000);
    registers = cpu.get_registry_dump();
    assert_eq!(registers[u8::from(Register8Bit::A) as usize], 222);
    //12) LDI und LDD
    cpu.ld_r16_n16(Register16Bit::HL,0x00FF);
    cpu.ld_r8_n8(Register8Bit::A, 121);
    cpu.ld_hli_a();
    registers = cpu.get_registry_dump();
    let register_value = u8::from(Register16Bit::HL) as usize;
    let high = registers[register_value] as u16;
    let low = registers[register_value + 1] as u16;
    let result = (high << 8) | low;
    assert_eq!(result, 256);

    cpu.ld_r8_n8(Register8Bit::A, 131);
    cpu.ld_hld_a();
    registers = cpu.get_registry_dump();
    let register_value = u8::from(Register16Bit::HL) as usize;
    let high = registers[register_value] as u16;
    let low = registers[register_value + 1] as u16;
    let result = (high << 8) | low;
    assert_eq!(result, 0x00FF);

    cpu.ld_a_hli();
    registers = cpu.get_registry_dump();
    assert_eq!(registers[u8::from(Register8Bit::A) as usize], 121);

    cpu.ld_a_hld();
    registers = cpu.get_registry_dump();
    assert_eq!(registers[u8::from(Register8Bit::A) as usize], 131);

    let register_value = u8::from(Register16Bit::HL) as usize;
    let high = registers[register_value] as u16;
    let low = registers[register_value + 1] as u16;
    let result = (high << 8) | low;
    assert_eq!(result, 255);
}

#[test]
fn nop_test() {
    let mut cpu = new_cpu();
    let mut expected_result = InstructionResult::default();
    expected_result.bytes = 1;
    expected_result.cycles = 1;
    assert_correct_instruction_step(&mut cpu, Instructions::NOP, expected_result);
    assert_correct_instruction_decode(&mut cpu, 0x00, Instructions::NOP);
}

#[test]
fn ccf_test() {
    let mut cpu = new_cpu();
    let mut expected_result_1 = InstructionResult::default();
    cpu.set_carry_flag();
    expected_result_1.bytes = 1;
    expected_result_1.cycles = 1;
    expected_result_1.condition_codes = ConditionCodes {
        zero: FlagState::NotAffected,
        subtract: FlagState::Unset,
        half_carry: FlagState::Unset,
        carry: FlagState::Unset,
    };
    assert_correct_instruction_step(&mut cpu, Instructions::CCF, expected_result_1);

    cpu.clear_carry_flag();
    let mut expected_result_2 = InstructionResult::default();
    expected_result_2.bytes = 1;
    expected_result_2.cycles = 1;
    expected_result_2.condition_codes = ConditionCodes {
        zero: FlagState::NotAffected,
        subtract: FlagState::Unset,
        half_carry: FlagState::Unset,
        carry: FlagState::Raised,
    };
    assert_correct_instruction_step(&mut cpu, Instructions::CCF, expected_result_2);
}

#[test]
fn cpl_test() {
    let mut cpu = new_cpu();
    let mut expected_result = InstructionResult::default();
    let value_start = 0b10101010;
    let value_expected_result = 0b01010101;
    expected_result.bytes = 1;
    expected_result.cycles = 1;
    expected_result.condition_codes = ConditionCodes {
        zero: FlagState::NotAffected,
        subtract: FlagState::Raised,
        half_carry: FlagState::Raised,
        carry: FlagState::NotAffected,
    };
    cpu.set_8bit_register(Register8Bit::A, value_start);
    assert_correct_instruction_step(&mut cpu, Instructions::CPL, expected_result);
    assert_eq!(
        value_expected_result,
        cpu.get_8bit_register(Register8Bit::A)
    );
}

#[test]
fn daa_test() {
    let mut cpu = new_cpu();
    let mut expected_result = InstructionResult::default();
    let value_start = 0x9A;
    let value_expected_result = 0x00;
    expected_result.bytes = 1;
    expected_result.cycles = 1;
    expected_result.condition_codes = ConditionCodes {
        zero: FlagState::Raised,
        subtract: FlagState::NotAffected,
        half_carry: FlagState::Unset,
        carry: FlagState::Raised,
    };
    cpu.set_8bit_register(Register8Bit::A, value_start);
    assert_correct_instruction_step(&mut cpu, Instructions::DAA, expected_result);
    assert_eq!(
        value_expected_result,
        cpu.get_8bit_register(Register8Bit::A)
    );
}

#[test]
fn di_test() {
    let mut cpu = new_cpu();
    let mut expected_result = InstructionResult::default();
    cpu.ime_flag = true;
    expected_result.bytes = 1;
    expected_result.cycles = 1;
    expected_result.condition_codes = ConditionCodes {
        zero: FlagState::NotAffected,
        subtract: FlagState::NotAffected,
        half_carry: FlagState::NotAffected,
        carry: FlagState::NotAffected,
    };
    assert_correct_instruction_step(&mut cpu, Instructions::DI, expected_result);
    assert!(!cpu.ime_flag);
}

#[test]
fn ei_test() {
    let mut cpu = new_cpu();
    let mut expected_result = InstructionResult::default();
    expected_result.bytes = 1;
    expected_result.cycles = 1;
    expected_result.condition_codes = ConditionCodes {
        zero: FlagState::NotAffected,
        subtract: FlagState::NotAffected,
        half_carry: FlagState::NotAffected,
        carry: FlagState::NotAffected,
    };
    assert_correct_instruction_step(&mut cpu, Instructions::EI, expected_result);
    assert_eq!(1, cpu.enable_ime);
    cpu.next_instruction = Instructions::NOP;
    _ = cpu.step();
    assert_eq!(0, cpu.enable_ime);
    assert!(cpu.ime_flag);
}

#[test]
fn stack_ops_test() {
    let mut cpu = new_cpu();
    let mut registers;
    // 1) ADD
    cpu.set_16bit_register(Register16Bit::SP, 0xFF00);
    let mut expected_result = InstructionResult::default();
    expected_result.cycles = 4;
    expected_result.bytes = 2;
    expected_result.condition_codes = ConditionCodes{zero:FlagState::Unset,subtract:FlagState::Unset,half_carry:FlagState::Unset,carry:FlagState::Raised};
    assert_correct_instruction_step(&mut cpu, Instructions::ADD(InstParam::SignedNumber8Bit(0xF0u8 as i8)), expected_result); //-16
    let mut expected_result = InstructionResult::default();
    expected_result.cycles = 2;
    expected_result.bytes = 1;
    expected_result.condition_codes = ConditionCodes{zero:FlagState::NotAffected,subtract:FlagState::Unset,half_carry:FlagState::Unset,carry:FlagState::Unset};
    assert_correct_instruction_step(&mut cpu, Instructions::ADD(InstParam::Register16Bit(Register16Bit::SP)), expected_result);
    registers = cpu.get_registry_dump();
    let register_value = u8::from(Register16Bit::SP) as usize;
    let high = registers[register_value.clone()] as u16;
    let low = registers[register_value + 1] as u16;
    let result = (high << 8) | low;
    assert_eq!(result, 0xFEF0u16);

    // 2) DEC und INC SP
    let mut expected_result = InstructionResult::default();
    expected_result.cycles = 2;
    expected_result.bytes = 1;
    assert_correct_instruction_step(&mut cpu, Instructions::INC(InstParam::Register16Bit(Register16Bit::SP),InstParam::Boolean(false)), expected_result);
    registers = cpu.get_registry_dump();
    let register_value = u8::from(Register16Bit::SP) as usize;
    let high = registers[register_value.clone()] as u16;
    let low = registers[register_value + 1] as u16;
    let result = (high << 8) | low;
    assert_eq!(result, 0xFEF1u16);

    let mut expected_result = InstructionResult::default();
    expected_result.cycles = 2;
    expected_result.bytes = 1;
    assert_correct_instruction_step(&mut cpu, Instructions::DEC(InstParam::Register16Bit(Register16Bit::SP),InstParam::Boolean(false)), expected_result);
    
    registers = cpu.get_registry_dump();
    let register_value = u8::from(Register16Bit::SP) as usize;
    let high = registers[register_value.clone()] as u16;
    let low = registers[register_value + 1] as u16;
    let result = (high << 8) | low;
    assert_eq!(result, 0xFEF0u16);

    // 3) LD
    let mut expected_result = InstructionResult::default();
    expected_result.cycles = 3;
    expected_result.bytes = 3;
    assert_correct_instruction_step(&mut cpu, Instructions::LD(InstParam::Register16Bit(Register16Bit::SP), InstParam::Number16Bit(0xFF00)), expected_result);
    registers = cpu.get_registry_dump();
    let register_value = u8::from(Register16Bit::SP) as usize;
    let high = registers[register_value.clone()] as u16;
    let low = registers[register_value + 1] as u16;
    let result = (high << 8) | low;
    assert_eq!(result, 0xFF00u16);
    
    let mut expected_result = InstructionResult::default();
    expected_result.cycles = 5;
    expected_result.bytes = 3;
    assert_correct_instruction_step(&mut cpu, Instructions::LD(InstParam::Number16Bit(0xFF01), InstParam::Register16Bit(Register16Bit::SP)), expected_result);
    
    let mut expected_result = InstructionResult::default();
    expected_result.cycles = 3;
    expected_result.bytes = 2;
    expected_result.condition_codes = ConditionCodes{zero:FlagState::Unset,subtract:FlagState::Unset,half_carry:FlagState::Unset,carry:FlagState::Raised};
    assert_correct_instruction_step(&mut cpu, Instructions::LD(InstParam::Register16Bit(Register16Bit::HL), InstParam::SignedNumber8Bit(0xF0u8 as i8)), expected_result);
    registers = cpu.get_registry_dump();
    let register_value = u8::from(Register16Bit::HL) as usize;
    let high = registers[register_value.clone()] as u16;
    let low = registers[register_value + 1] as u16;
    let result = (high << 8) | low;
    assert_eq!(result, 0xFEF0u16);

    let mut expected_result = InstructionResult::default();
    expected_result.cycles = 2;
    expected_result.bytes = 1;
    assert_correct_instruction_step(&mut cpu, Instructions::LD(InstParam::Register16Bit(Register16Bit::SP), InstParam::Register16Bit(Register16Bit::HL)), expected_result);
    registers = cpu.get_registry_dump();
    let register_value = u8::from(Register16Bit::SP) as usize;
    let high = registers[register_value.clone()] as u16;
    let low = registers[register_value + 1] as u16;
    let result = (high << 8) | low;
    assert_eq!(result, 0xFEF0u16);

    // 4) PUSH and POP
    cpu.set_16bit_register(Register16Bit::SP, 0xFF00);
    cpu.set_16bit_register(Register16Bit::AF, 0xAAA0);
    cpu.set_16bit_register(Register16Bit::DE, 0xA1A0);
    // Push to Stack
    let mut expected_result = InstructionResult::default();
    expected_result.cycles = 4;
    expected_result.bytes = 1;
    cpu.set_zero_flag();
    cpu.set_half_carry_flag();
    assert_correct_instruction_step(&mut cpu, Instructions::PUSH(InstParam::Register16Bit(Register16Bit::AF)), expected_result);
    let mut expected_result = InstructionResult::default();
    expected_result.cycles = 4;
    expected_result.bytes = 1;
    assert_correct_instruction_step(&mut cpu, Instructions::PUSH(InstParam::Register16Bit(Register16Bit::DE)), expected_result);
    cpu.set_16bit_register(Register16Bit::AF, 0);
    cpu.set_16bit_register(Register16Bit::DE, 0);
    //Pop from stack
    let mut expected_result = InstructionResult::default();
    expected_result.cycles = 3;
    expected_result.bytes = 1;
    assert_correct_instruction_step(&mut cpu, Instructions::POP(InstParam::Register16Bit(Register16Bit::DE)), expected_result);

    let mut expected_result = InstructionResult::default();
    expected_result.cycles = 3;
    expected_result.bytes = 1;
    expected_result.condition_codes = ConditionCodes{zero:FlagState::Raised,subtract:FlagState::Unset,half_carry:FlagState::Raised,carry:FlagState::Unset};
    assert_correct_instruction_step(&mut cpu, Instructions::POP(InstParam::Register16Bit(Register16Bit::AF)), expected_result);
    let mem = cpu.mmu.read_byte(0xFEFF);
    assert_eq!(mem, 0xAA);
    let mem = cpu.mmu.read_byte(0xFEFE);
    assert_eq!(mem, 0xA0);
    registers = cpu.get_registry_dump();
    let register_value = u8::from(Register16Bit::AF) as usize;
    let high = registers[register_value.clone()] as u16;
    let low = registers[register_value + 1] as u16;
    let result = (high << 8) | low;
    assert_eq!(result, 0xAAA0);
    registers = cpu.get_registry_dump();
    let register_value = u8::from(Register16Bit::DE) as usize;
    let high = registers[register_value.clone()] as u16;
    let low = registers[register_value + 1] as u16;
    let result = (high << 8) | low;
    assert_eq!(result, 0xA1A0);
}
