use lochnes::controller::Controller;
use lochnes::cpu::mappers::{BasicMapper, TestMapper};
use lochnes::memory::Memory;
use lochnes::ppu::PPU;
use lochnes::rom::{Mirroring, Rom};

#[test]
fn test_mapper_test_mem_read() {
    let mut mapper = TestMapper::new();
    mapper.memory[0x00AA] = 12;
    assert_eq!(mapper.read_u8(0x00AA), 12);
}

#[test]
fn test_mapper_test_mem_write() {
    let mut mapper = TestMapper::new();
    mapper.write_u8(0x00AA, 12);
    assert_eq!(mapper.memory[0x00AA], 12);
}

#[test]
fn test_mapper_test_mem_write_u16() {
    let mut mapper = TestMapper::new();
    mapper.write_u16(0x00AA, 0x8000);
    assert_eq!(mapper.memory[0x00AA], 0x00);
    assert_eq!(mapper.memory[0x00AB], 0x80);
}

#[test]
fn test_mapper_test_mem_read_u16() {
    let mut mapper = TestMapper::new();
    mapper.memory[0x00AA] = 0x00;
    mapper.memory[0x00AB] = 0x80;
    assert_eq!(mapper.read_u16(0x00AA), 0x8000);
}

fn console(prg: Vec<u8>) -> BasicMapper {
    let rom = Rom::new(prg, vec![0; 0x2000], 0, Mirroring::Horizontal);
    BasicMapper::new(rom, PPU::new(vec![0; 0x2000]), Controller::new())
}

#[test]
fn basic_mapper_ram_is_mirrored_every_2k() {
    let mut bus = console(vec![0; 0x4000]);
    bus.write_u8(0x0801, 0x42);
    assert_eq!(bus.read_u8(0x0001), 0x42);
    assert_eq!(bus.read_u8(0x1801), 0x42);
    assert_eq!(bus.ram[1], 0x42);
}

#[test]
fn basic_mapper_single_bank_is_mirrored() {
    let mut prg = vec![0; 0x4000];
    prg[0x0010] = 0x77;
    let mut bus = console(prg);
    assert_eq!(bus.read_u8(0x8010), 0x77);
    assert_eq!(bus.read_u8(0xC010), 0x77);
}

#[test]
fn basic_mapper_rom_write_is_ignored() {
    let mut prg = vec![0; 0x8000];
    prg[0x4000] = 0x11;
    let mut bus = console(prg);
    bus.write_u8(0xC000, 0x99);
    assert_eq!(bus.read_u8(0xC000), 0x11);
    assert_eq!(bus.bus_error, None);
}

#[test]
fn basic_mapper_io_registers_read_zero() {
    let mut bus = console(vec![0; 0x4000]);
    bus.write_u8(0x4000, 0x55);
    assert_eq!(bus.read_u8(0x4000), 0);
    assert_eq!(bus.read_u8(0x4017), 0);
    assert_eq!(bus.bus_error, None);
}

#[test]
fn basic_mapper_records_unserved_reads() {
    let mut bus = console(vec![0; 0x4000]);
    assert_eq!(bus.read_u8(0x2000), 0);
    assert_eq!(bus.bus_error, Some(0x2000));
    // Only the first failure is kept.
    bus.read_u8(0x5000);
    assert_eq!(bus.bus_error, Some(0x2000));
}

#[test]
fn basic_mapper_unmapped_read_is_recorded() {
    let mut bus = console(vec![0; 0x4000]);
    bus.read_u8(0x6000);
    assert_eq!(bus.bus_error, Some(0x6000));
}

#[test]
fn basic_mapper_ppu_registers_are_mirrored_every_8_bytes() {
    let mut bus = console(vec![0; 0x4000]);
    // Address register through a mirror, then data.
    bus.write_u8(0x3FFE, 0x21);
    bus.write_u8(0x2006, 0x08);
    bus.write_u8(0x2007, 0x5A);
    assert_eq!(bus.ppu.vram[0x108], 0x5A);
    // Reading status leaves vertical blank.
    assert_eq!(bus.read_u8(0x200A), 0b1010_0000);
    assert_eq!(bus.ppu.status.value, 0b0010_0000);
}

#[test]
fn basic_mapper_controller_port() {
    let mut bus = console(vec![0; 0x4000]);
    bus.controller.press_button(Controller::BUTTON_A);
    bus.write_u8(0x4016, 1);
    bus.write_u8(0x4016, 0);
    assert_eq!(bus.read_u8(0x4016), 1);
    assert_eq!(bus.read_u8(0x4016), 0);
}

#[test]
fn basic_mapper_nmi_is_cleared_when_polled() {
    let mut bus = console(vec![0; 0x4000]);
    // The unit powers up in vertical blank: enabling the interrupt raises it.
    bus.write_u8(0x2000, 0x80);
    assert!(bus.nmi_occured());
    assert!(!bus.nmi_occured());
}

#[test]
fn console_step_ticks_the_picture_unit_once_per_cycle() {
    let mut prg = vec![0xEA; 0x4000];
    // LDA $0200,X crossing a page costs 5 cycles; reset vector to 0x8000.
    prg[0] = 0xBD;
    prg[1] = 0xFF;
    prg[2] = 0x02;
    prg[0x3FFC] = 0x00;
    prg[0x3FFD] = 0x80;
    let mut cpu = lochnes::cpu::CPU::new(console(prg));
    cpu.reset();
    cpu.register_x = 1;
    let first = cpu.step_console().unwrap();
    assert_eq!(first.executed_cycles, 5);
    assert_eq!(cpu.mapper.ppu.cycles, 5);
    let second = cpu.step_console().unwrap();
    assert_eq!(second.executed_cycles, 2);
    assert_eq!(cpu.mapper.ppu.cycles, 7);
    assert_eq!(cpu.program_counter, 0x8004);
}

#[test]
fn console_step_reports_unknown_opcode() {
    let mut prg = vec![0x02; 0x4000];
    prg[0x3FFC] = 0x00;
    prg[0x3FFD] = 0x80;
    let mut cpu = lochnes::cpu::CPU::new(console(prg));
    cpu.reset();
    assert_eq!(cpu.step_console(), Err(lochnes::cpu::CpuError::UnknownOpcode(0x02)));
    assert_eq!(cpu.mapper.ppu.cycles, 0);
}
