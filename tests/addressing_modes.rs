use lochnes::cpu::addressing_modes::AddressingModes;
use lochnes::cpu::mappers::TestMapper;
use lochnes::cpu::CPU;
use lochnes::memory::Memory;

fn cpu() -> CPU<TestMapper> {
    CPU::new(TestMapper::new())
}

#[test]
fn test_addressing_mode_immediate() {
    let mut cpu = cpu();
    cpu.program_counter = 0x8000;
    let result = AddressingModes::Immediate.get_operand_address(&mut cpu);
    assert_eq!(result, 0x8000);
}

#[test]
fn test_addressing_mode_zero_page() {
    let mut cpu = cpu();
    cpu.program_counter = 0xAAAA;
    cpu.mapper.write_u8(0xAAAA, 0xAA);
    let result = AddressingModes::ZeroPage.get_operand_address(&mut cpu);
    assert_eq!(result, 0xAA);
}

#[test]
fn test_addressing_mode_zero_page_x() {
    let mut cpu = cpu();
    cpu.program_counter = 0xAAAA;
    cpu.mapper.write_u8(0xAAAA, 0x80);
    cpu.register_x = 0xFF;
    let result = AddressingModes::ZeroPageX.get_operand_address(&mut cpu);
    assert_eq!(result, 0x7F);
}

#[test]
fn test_addressing_mode_zero_page_y() {
    let mut cpu = cpu();
    cpu.program_counter = 0xAAAA;
    cpu.mapper.write_u8(0xAAAA, 0x80);
    cpu.register_y = 0xFF;
    let result = AddressingModes::ZeroPageY.get_operand_address(&mut cpu);
    assert_eq!(result, 0x7F);
}

#[test]
fn test_addressing_mode_absolute() {
    let mut cpu = cpu();
    cpu.program_counter = 0x0;
    cpu.mapper.write_u8(0x0, 0x9e);
    cpu.mapper.write_u8(0x1, 0x5e);
    let result = AddressingModes::Absolute.get_operand_address(&mut cpu);
    assert_eq!(result, 0x5e9e);
}

#[test]
fn test_addressing_mode_absolute_x() {
    let mut cpu = cpu();
    cpu.program_counter = 0x0;
    cpu.mapper.write_u16(0x00, 2000);
    cpu.register_x = 82;
    let result = AddressingModes::AbsoluteX.get_operand_address(&mut cpu);
    assert_eq!(result, 2082);
}

#[test]
fn test_addressing_mode_absolute_y() {
    let mut cpu = cpu();
    cpu.program_counter = 0x0;
    cpu.mapper.write_u16(0x00, 2000);
    cpu.register_y = 82;
    let result = AddressingModes::AbsoluteY.get_operand_address(&mut cpu);
    assert_eq!(result, 2082);
}

#[test]
fn test_addressing_mode_indexed_indirect_x() {
    let mut cpu = cpu();
    cpu.program_counter = 0x8000;
    cpu.mapper.write_u8(0x8000, 0x20);
    cpu.mapper.write_u16(0x0021, 0xBAFC);
    cpu.register_x = 0x01;
    let result = AddressingModes::IndexedIndirectX.get_operand_address(&mut cpu);
    assert_eq!(result, 0xBAFC);
}

#[test]
fn test_addressing_mode_indirect_indexed_y() {
    let mut cpu = cpu();
    cpu.program_counter = 0x8000;
    cpu.mapper.write_u8(0x8000, 0x52);
    cpu.mapper.write_u16(0x0052, 0xEF05);
    cpu.register_y = 0x03;
    let result = AddressingModes::IndirectIndexedY.get_operand_address(&mut cpu);
    assert_eq!(result, 0xEF08);
}

#[test]
fn test_get_operand() {
    let mut cpu = cpu();
    cpu.register_a = 0x80;
    let result = AddressingModes::Accumulator.get_operand(&mut cpu);
    assert_eq!(result, 0x80);
}

#[test]
fn indirect_pointer_wraps_within_its_page() {
    let mut cpu = cpu();
    cpu.program_counter = 0x0400;
    cpu.mapper.write_u16(0x0400, 0x02FF);
    cpu.mapper.write_u8(0x02FF, 0xCD);
    cpu.mapper.write_u8(0x0200, 0xAB);
    cpu.mapper.write_u8(0x0300, 0xEE);
    assert_eq!(AddressingModes::Indirect.get_operand_address(&mut cpu), 0xABCD);
}

#[test]
fn indexed_indirect_pointer_wraps_on_zero_page() {
    let mut cpu = cpu();
    cpu.program_counter = 0x8000;
    cpu.mapper.write_u8(0x8000, 0xFE);
    cpu.register_x = 0x01;
    cpu.mapper.write_u8(0x00FF, 0x34);
    cpu.mapper.write_u8(0x0000, 0x12);
    assert_eq!(AddressingModes::IndexedIndirectX.get_operand_address(&mut cpu), 0x1234);
}

#[test]
fn page_crossing_only_for_indexed_modes() {
    let mut cpu = cpu();
    cpu.program_counter = 0x0000;
    cpu.mapper.write_u16(0x0000, 0x12F0);
    cpu.register_x = 0x10;
    cpu.register_y = 0x0F;
    assert!(AddressingModes::AbsoluteX.is_page_crossed(&mut cpu));
    assert!(!AddressingModes::AbsoluteY.is_page_crossed(&mut cpu));
    assert!(!AddressingModes::Absolute.is_page_crossed(&mut cpu));
    assert!(!AddressingModes::ZeroPageX.is_page_crossed(&mut cpu));
    assert!(!AddressingModes::Implicit.is_page_crossed(&mut cpu));
}

#[test]
fn immediate_operand_is_the_next_byte() {
    let mut cpu = cpu();
    cpu.program_counter = 0x8000;
    cpu.mapper.write_u8(0x8000, 0x42);
    assert_eq!(AddressingModes::Immediate.get_operand(&mut cpu), 0x42);
}
