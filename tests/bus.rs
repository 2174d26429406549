use lochnes::bus::Bus;

#[test]
fn mod_test_mem_read() {
    let mut bus = Bus::new();
    bus.memory[0x00AA] = 12;
    assert_eq!(bus.mem_read(0x00AA), 12);
}

#[test]
fn mod_test_mem_write() {
    let mut bus = Bus::new();
    bus.mem_write(0x00AA, 12);
    assert_eq!(bus.memory[0x00AA], 12);
}

#[test]
fn mod_test_mem_write_u16() {
    let mut bus = Bus::new();
    bus.mem_write_u16(0x00AA, 0x8000);
    assert_eq!(bus.memory[0x00AA], 0x00);
    assert_eq!(bus.memory[0x00AB], 0x80);
}

#[test]
fn mod_test_mem_read_u16() {
    let mut bus = Bus::new();
    bus.memory[0x00AA] = 0x00;
    bus.memory[0x00AB] = 0x80;
    assert_eq!(bus.mem_read_u16(0x00AA), 0x8000);
}

#[test]
fn bus_word_read_wraps_at_top_of_memory() {
    let mut bus = Bus::new();
    bus.memory[0xFFFF] = 0x34;
    bus.memory[0x0000] = 0x12;
    assert_eq!(bus.mem_read_u16(0xFFFF), 0x1234);
}

#[test]
fn bus_zero_page_word_read_wraps_within_page() {
    let mut bus = Bus::new();
    bus.memory[0x00FF] = 0x34;
    bus.memory[0x0000] = 0x12;
    bus.memory[0x0100] = 0x99;
    assert_eq!(bus.zero_page_read_u16(0xFF), 0x1234);
}

#[test]
fn bus_word_write_wraps_at_top_of_memory() {
    let mut bus = Bus::new();
    bus.mem_write_u16(0xFFFF, 0xBEEF);
    assert_eq!(bus.memory[0xFFFF], 0xEF);
    assert_eq!(bus.memory[0x0000], 0xBE);
}

#[test]
fn cpu_runs_on_a_flat_bus() {
    let mut cpu = lochnes::cpu::CPU::new(Bus::new());
    assert_eq!(cpu.load_and_run(vec![0xA9, 0xC0, 0xAA, 0xE8, 0x00], 100), Ok(true));
    assert_eq!(cpu.register_x, 0xC1);
    assert_eq!(cpu.mapper.memory[0x8000], 0xA9);
}
