use lochnes::cpu::instructions::{decode, InstructionResult};
use lochnes::cpu::mappers::TestMapper;
use lochnes::cpu::{CpuError, CPU, STATUS_FLAG_CARRY, STATUS_FLAG_NEGATIVE, STATUS_FLAG_OVERFLOW, STATUS_FLAG_ZERO};
use lochnes::memory::Memory;

const STEPS: u64 = 1000;

fn cpu() -> CPU<TestMapper> {
    CPU::new(TestMapper::new())
}

#[test]
fn run_update_zero_flag_tests() {
    for (status_register, register, expected) in [(0b0u8, 0b0u8, 0b0000_0010u8), (0b0000_0010, 0b10, 0b0)] {
        let mut cpu = cpu();
        cpu.status = status_register;
        cpu.update_zero_flag(register);
        assert_eq!(cpu.status, expected, "input ({}, {})", status_register, register);
    }
}

#[test]
fn lda_correctly_sets_negative_flag() {
    let program = vec![0xa9, 0x05, 0x00];
    let mut cpu = cpu();
    assert_eq!(cpu.load_and_run(program, STEPS), Ok(true));
    assert!(cpu.status & 0b0000_0010 == 0b00);
    assert!(cpu.status & 0b1000_0000 == 0);
}

#[test]
fn tax_correctly_updates_register_x() {
    let program = vec![0xa9, 010, 0xAA, 0x00];
    let mut cpu = cpu();
    cpu.load_and_run(program, STEPS).unwrap();
    assert!(cpu.register_a == cpu.register_x);
}

#[test]
fn tax_correctly_sets_zero_flag() {
    let mut cpu = cpu();
    cpu.register_a = 0;
    let program = vec![0xAA, 0x00];
    cpu.load_and_run(program, STEPS).unwrap();
    assert!(cpu.status & 0b0000_0010 == 0b10);
}

#[test]
fn tax_correctly_sets_negative_flag() {
    let mut cpu = cpu();
    cpu.register_a = 0x05;
    let program = vec![0xAA, 0x00];
    cpu.load_and_run(program, STEPS).unwrap();
    assert!(cpu.status & 0b0000_0010 == 0b00);
    assert!(cpu.status & 0b1000_0000 == 0);
}

#[test]
fn inx_increments_the_x_register() {
    let mut cpu = cpu();
    cpu.register_x = 0x00;
    let program = vec![0xe8, 0x00];
    cpu.load_and_run(program, STEPS).unwrap();
    assert_eq!(cpu.register_x, 0x01);
}

#[test]
fn test_5_ops_working_together() {
    let mut cpu = cpu();
    assert_eq!(cpu.load_and_run(vec![0xa9, 0xc0, 0xaa, 0xe8, 0x00], STEPS), Ok(true));
    assert_eq!(cpu.register_x, 0xc1);
    // Halted on the break opcode, just past it.
    assert_eq!(cpu.program_counter, 0x8005);
}

#[test]
fn test_inx_overflow() {
    let mut cpu = cpu();
    cpu.register_x = 0xff;
    cpu.load_and_run(vec![0xe8, 0xe8, 0x00], STEPS).unwrap();
    assert_eq!(cpu.register_x, 1)
}

#[test]
fn test_load() {
    let mut cpu = cpu();
    cpu.program_counter = 0x8000;
    let program = vec![0xAA, 0x35, 0xFF, 0x00];
    cpu.load(program);
    assert_eq!(0xAA, cpu.mapper.read_u8(0x8000));
    assert_eq!(0x35, cpu.mapper.read_u8(0x8001));
    assert_eq!(0xFF, cpu.mapper.read_u8(0x8002));
    assert_eq!(0x00, cpu.mapper.read_u8(0x8003));
}

#[test]
fn test_update_zero_flag() {
    for (register, expected) in [(0b0u8, 0b0000_0010u8), (0b10, 0b0)] {
        let mut cpu = cpu();
        cpu.update_zero_flag(register);
        assert_eq!(cpu.status, expected);
    }
}

struct Snapshot {
    pc: u16,
    s: u8,
    a: u8,
    x: u8,
    y: u8,
    p: u8,
    ram: Vec<(u16, u8)>,
}

fn build(snapshot: &Snapshot) -> CPU<TestMapper> {
    let mut mapper = TestMapper::new();
    for &(address, value) in &snapshot.ram {
        mapper.write_u8(address, value);
    }
    let mut cpu = CPU::new(mapper);
    cpu.program_counter = snapshot.pc;
    cpu.stack_pointer = snapshot.s;
    cpu.register_a = snapshot.a;
    cpu.register_x = snapshot.x;
    cpu.register_y = snapshot.y;
    cpu.status = snapshot.p;
    cpu
}

fn run_vector(initial: Snapshot, expected: Snapshot, cycles: u8) {
    let mut cpu = build(&initial);
    let wanted = build(&expected);
    let result = cpu.execute_next_instruction();
    assert_eq!(result, Ok(InstructionResult { executed_cycles: cycles }));
    assert_eq!(cpu.program_counter, wanted.program_counter);
    assert_eq!(cpu.register_a, wanted.register_a);
    assert_eq!(cpu.status, wanted.status, "NV_BDIZC expected {:08b} actual {:08b}", wanted.status, cpu.status);
    assert_eq!(cpu.register_x, wanted.register_x);
    assert_eq!(cpu.register_y, wanted.register_y);
    assert_eq!(cpu.stack_pointer, wanted.stack_pointer);
    assert!(cpu.mapper == wanted.mapper, "memories don't match");
}

#[test]
fn test_example() {
    // Conformance vector "03 6e 78": SLO (zero page, X).
    run_vector(
        Snapshot {
            pc: 63085,
            s: 16,
            a: 140,
            x: 122,
            y: 205,
            p: 38,
            ram: vec![(63085, 3), (63086, 110), (63087, 120), (110, 248), (232, 110), (233, 246)],
        },
        Snapshot {
            pc: 63087,
            s: 16,
            a: 220,
            x: 122,
            y: 205,
            p: 164,
            ram: vec![(110, 248), (232, 110), (233, 246), (63085, 3), (63086, 220), (63087, 120)],
        },
        8,
    );
}

#[test]
fn conformance_lda_absolute_x_page_cross() {
    // LDA $12F0,X with X = 0x20 reads 0x1310 and costs one extra cycle.
    run_vector(
        Snapshot { pc: 0x0400, s: 0xFD, a: 0, x: 0x20, y: 0, p: 0x24, ram: vec![(0x0400, 0xBD), (0x0401, 0xF0), (0x0402, 0x12), (0x1310, 0x80)] },
        Snapshot { pc: 0x0403, s: 0xFD, a: 0x80, x: 0x20, y: 0, p: 0xA4, ram: vec![(0x0400, 0xBD), (0x0401, 0xF0), (0x0402, 0x12), (0x1310, 0x80)] },
        5,
    );
}

#[test]
fn conformance_sta_absolute_x_has_no_page_penalty() {
    run_vector(
        Snapshot { pc: 0x0400, s: 0xFD, a: 0x5A, x: 0x20, y: 0, p: 0x24, ram: vec![(0x0400, 0x9D), (0x0401, 0xF0), (0x0402, 0x12)] },
        Snapshot { pc: 0x0403, s: 0xFD, a: 0x5A, x: 0x20, y: 0, p: 0x24, ram: vec![(0x0400, 0x9D), (0x0401, 0xF0), (0x0402, 0x12), (0x1310, 0x5A)] },
        5,
    );
}

#[test]
fn conformance_lda_indirect_indexed_y_page_cross() {
    run_vector(
        Snapshot { pc: 0x0400, s: 0xFD, a: 0, x: 0, y: 0x10, p: 0x24, ram: vec![(0x0400, 0xB1), (0x0401, 0x40), (0x0040, 0xF8), (0x0041, 0x20), (0x2108, 0x01)] },
        Snapshot { pc: 0x0402, s: 0xFD, a: 0x01, x: 0, y: 0x10, p: 0x24, ram: vec![(0x0400, 0xB1), (0x0401, 0x40), (0x0040, 0xF8), (0x0041, 0x20), (0x2108, 0x01)] },
        6,
    );
}

#[test]
fn unknown_opcode_is_an_error() {
    let mut cpu = cpu();
    cpu.mapper.write_u8(0x8000, 0x02);
    assert_eq!(cpu.execute_next_instruction(), Err(CpuError::UnknownOpcode(0x02)));
    assert_eq!(cpu.program_counter, 0x8001);
    assert_eq!(decode(0x02), None);
}

#[test]
fn load_and_run_stops_at_step_limit() {
    let mut cpu = cpu();
    // JMP $8000 forever.
    assert_eq!(cpu.load_and_run(vec![0x4C, 0x00, 0x80], 10), Ok(false));
    assert_eq!(cpu.program_counter, 0x8000);
}

#[test]
fn load_and_run_reports_unknown_opcode() {
    let mut cpu = cpu();
    assert_eq!(cpu.load_and_run(vec![0xE8, 0xFF, 0x00], STEPS), Err(CpuError::UnknownOpcode(0xFF)));
    assert_eq!(cpu.register_x, 1);
}

#[test]
fn reset_reads_the_reset_vector() {
    let mut cpu = cpu();
    cpu.mapper.write_u16(0xFFFC, 0xC123);
    cpu.register_a = 5;
    cpu.register_x = 6;
    cpu.status = 0xFF;
    cpu.reset();
    assert_eq!(cpu.program_counter, 0xC123);
    assert_eq!((cpu.register_a, cpu.register_x, cpu.status), (0, 0, 0));
}

#[test]
fn flags_from_adc_example() {
    let mut cpu = cpu();
    cpu.register_a = 0x7F;
    cpu.load_and_run(vec![0x18, 0x69, 0x01, 0x00], STEPS).unwrap();
    assert_eq!(cpu.register_a, 0x80);
    assert_ne!(cpu.status & STATUS_FLAG_OVERFLOW, 0);
    assert_ne!(cpu.status & STATUS_FLAG_NEGATIVE, 0);
    assert_eq!(cpu.status & STATUS_FLAG_CARRY, 0);
}

#[test]
fn adc_with_carry_set_overflows() {
    let mut cpu = cpu();
    cpu.register_a = 0x7F;
    cpu.load_and_run(vec![0x38, 0x69, 0x01, 0x00], STEPS).unwrap();
    assert_eq!(cpu.register_a, 0x81);
    assert_ne!(cpu.status & STATUS_FLAG_OVERFLOW, 0);
}

#[test]
fn sbc_zero_minus_one_with_carry_clear() {
    // 0x00 - 0x01 with carry clear (borrow): 0xFF - 1 = 0xFE.
    let mut cpu = cpu();
    cpu.load_and_run(vec![0x18, 0xE9, 0x01, 0x00], STEPS).unwrap();
    assert_eq!(cpu.register_a, 0xFE);
    // With carry set there is no borrow: 0x00 - 0x01 = 0xFF.
    let mut cpu = self::cpu();
    cpu.load_and_run(vec![0x38, 0xE9, 0x01, 0x00], STEPS).unwrap();
    assert_eq!(cpu.register_a, 0xFF);
    assert_ne!(cpu.status & STATUS_FLAG_NEGATIVE, 0);
    assert_eq!(cpu.status & STATUS_FLAG_CARRY, 0);
    assert_eq!(cpu.status & STATUS_FLAG_OVERFLOW, 0);
}

#[test]
fn adc_then_sbc_restores_accumulator() {
    for (a, b) in [(0x00u8, 0x01u8), (0x7F, 0x01), (0xFF, 0xFF), (0x35, 0xC8)] {
        let mut cpu = cpu();
        cpu.register_a = a;
        // CLC; ADC #b; SEC; SBC #b; BRK
        cpu.load_and_run(vec![0x18, 0x69, b, 0x38, 0xE9, b, 0x00], STEPS).unwrap();
        assert_eq!(cpu.register_a, a);
    }
}

#[test]
fn zero_negative_update_twice_is_stable() {
    for value in [0x00u8, 0x01, 0x80, 0xFF] {
        let mut once = cpu();
        once.status = 0b0101_0101;
        once.update_zero_flag(value);
        once.update_negative_flag(value);
        let mut twice = cpu();
        twice.status = 0b0101_0101;
        for _ in 0..2 {
            twice.update_zero_flag(value);
            twice.update_negative_flag(value);
        }
        assert_eq!(once.status, twice.status);
        assert_eq!(once.status & STATUS_FLAG_ZERO != 0, value == 0);
    }
}

fn branch_from(opcode_address: u16, opcode: u8, distance: u8, status: u8) -> (CPU<TestMapper>, u8) {
    let mut cpu = cpu();
    cpu.mapper.write_u8(opcode_address, opcode);
    cpu.mapper.write_u8(opcode_address.wrapping_add(1), distance);
    cpu.program_counter = opcode_address;
    cpu.status = status;
    let cycles = cpu.execute_next_instruction().unwrap().executed_cycles;
    (cpu, cycles)
}

#[test]
fn branch_forward_displacement() {
    // BNE with the zero flag clear; the PC after the operand is 0xE004.
    let (cpu, cycles) = branch_from(0xE002, 0xD0, 0x06, 0);
    assert_eq!(cpu.program_counter, 0xE00A);
    assert_eq!(cycles, 3);
}

#[test]
fn branch_backward_displacement() {
    // PC after the operand is 0xE009; -6 lands on 0xE003.
    let (cpu, cycles) = branch_from(0xE007, 0xD0, 0xFA, 0);
    assert_eq!(cpu.program_counter, 0xE003);
    assert_eq!(cycles, 3);
}

#[test]
fn branch_not_taken() {
    let (cpu, cycles) = branch_from(0xE002, 0xD0, 0x06, STATUS_FLAG_ZERO);
    assert_eq!(cpu.program_counter, 0xE004);
    assert_eq!(cycles, 2);
}

#[test]
fn branch_across_page_costs_two_more() {
    let (cpu, cycles) = branch_from(0xE0F0, 0xF0, 0x20, STATUS_FLAG_ZERO);
    assert_eq!(cpu.program_counter, 0xE112);
    assert_eq!(cycles, 4);
    let (cpu, cycles) = branch_from(0xE002, 0x90, 0x80, 0);
    assert_eq!(cpu.program_counter, 0xDF84);
    assert_eq!(cycles, 4);
}

#[test]
fn jmp_indirect_page_boundary_bug() {
    let mut cpu = cpu();
    cpu.mapper.write_u8(0x0400, 0x6C);
    cpu.mapper.write_u16(0x0401, 0x02FF);
    cpu.mapper.write_u8(0x02FF, 0x34);
    cpu.mapper.write_u8(0x0200, 0x12);
    cpu.mapper.write_u8(0x0300, 0x56);
    cpu.program_counter = 0x0400;
    assert_eq!(cpu.execute_next_instruction(), Ok(InstructionResult { executed_cycles: 5 }));
    assert_eq!(cpu.program_counter, 0x1234);
}

#[test]
fn stack_wraps_after_256_pushes() {
    let mut cpu = cpu();
    assert_eq!(cpu.stack_pointer, 0xFF);
    // 256 x (LDA #i; PHA), then 256 x PLA, then BRK.
    let mut program = Vec::new();
    for i in 0..256u32 {
        program.extend_from_slice(&[0xA9, i as u8, 0x48]);
    }
    program.extend(std::iter::repeat(0x68).take(256));
    program.push(0x00);
    let mut pushed = self::cpu();
    assert_eq!(pushed.load_and_run(program[..768].to_vec(), STEPS), Ok(true));
    assert_eq!(pushed.stack_pointer, 0xFF);
    cpu.load_and_run(program, STEPS).unwrap();
    assert_eq!(cpu.stack_pointer, 0xFF);
    // The last pull returns the first byte pushed.
    assert_eq!(cpu.register_a, 0);
}

#[test]
fn jsr_and_rts_round_trip() {
    let mut cpu = cpu();
    // 8000: JSR 8005; 8003: INX; BRK; 8005: INY; RTS
    cpu.load_and_run(vec![0x20, 0x05, 0x80, 0xE8, 0x00, 0xC8, 0x60], STEPS).unwrap();
    assert_eq!((cpu.register_x, cpu.register_y), (1, 1));
    assert_eq!(cpu.stack_pointer, 0xFF);
    assert_eq!(cpu.mapper.read_u8(0x01FF), 0x80);
    assert_eq!(cpu.mapper.read_u8(0x01FE), 0x02);
}

#[test]
fn brk_pushes_state_and_jumps_through_vector() {
    let mut cpu = cpu();
    cpu.mapper.write_u16(0xFFFE, 0x9000);
    cpu.mapper.write_u8(0x8000, 0x00);
    cpu.status = STATUS_FLAG_CARRY;
    assert_eq!(cpu.execute_next_instruction(), Ok(InstructionResult { executed_cycles: 7 }));
    assert_eq!(cpu.program_counter, 0x9000);
    assert_eq!(cpu.mapper.read_u8(0x01FF), 0x80);
    assert_eq!(cpu.mapper.read_u8(0x01FE), 0x02);
    assert_eq!(cpu.mapper.read_u8(0x01FD), 0b0011_0001);
    assert_eq!(cpu.status, 0b0000_0101);
    assert_eq!(cpu.stack_pointer, 0xFC);
}

#[test]
fn rti_restores_status_and_pc() {
    let mut cpu = cpu();
    cpu.mapper.write_u16(0xFFFE, 0x9000);
    cpu.mapper.write_u8(0x8000, 0x00);
    cpu.mapper.write_u8(0x9000, 0x40);
    cpu.status = STATUS_FLAG_CARRY;
    cpu.execute_next_instruction().unwrap();
    cpu.execute_next_instruction().unwrap();
    assert_eq!(cpu.program_counter, 0x8002);
    // Bit 5 set, break clear.
    assert_eq!(cpu.status, 0b0010_0001);
}

#[test]
fn plp_clears_break_and_sets_bit_5() {
    let mut cpu = cpu();
    cpu.mapper.write_u8(0x01FF, 0b1101_0000);
    cpu.stack_pointer = 0xFE;
    cpu.mapper.write_u8(0x8000, 0x28);
    cpu.execute_next_instruction().unwrap();
    assert_eq!(cpu.status, 0b1110_0000);
}

#[test]
fn shifts_and_rotations() {
    let mut cpu = cpu();
    cpu.register_a = 0b1000_0001;
    // ASL A; ROL A; LSR A; ROR A
    cpu.load_and_run(vec![0x0A, 0x2A, 0x4A, 0x6A, 0x00], STEPS).unwrap();
    // ASL: 0x02 C=1; ROL: 0x05 C=0; LSR: 0x02 C=1; ROR: 0x81 C=0
    assert_eq!(cpu.register_a, 0x81);
    assert_eq!(cpu.status & STATUS_FLAG_CARRY, 0);
}

#[test]
fn compare_sets_carry_zero_negative() {
    let mut cpu = cpu();
    cpu.register_a = 0x10;
    cpu.load_and_run(vec![0xC9, 0x10, 0x00], STEPS).unwrap();
    assert_eq!(cpu.status & (STATUS_FLAG_CARRY | STATUS_FLAG_ZERO), STATUS_FLAG_CARRY | STATUS_FLAG_ZERO);
    let mut cpu = self::cpu();
    cpu.register_a = 0x10;
    cpu.load_and_run(vec![0xC9, 0x20, 0x00], STEPS).unwrap();
    assert_eq!(cpu.status & (STATUS_FLAG_CARRY | STATUS_FLAG_NEGATIVE), STATUS_FLAG_NEGATIVE);
}

#[test]
fn inc_dec_memory_wrap() {
    let mut cpu = cpu();
    cpu.mapper.write_u8(0x0010, 0xFF);
    // INC $10; DEC $11
    cpu.load_and_run(vec![0xE6, 0x10, 0xC6, 0x11, 0x00], STEPS).unwrap();
    assert_eq!(cpu.mapper.read_u8(0x0010), 0x00);
    assert_eq!(cpu.mapper.read_u8(0x0011), 0xFF);
    assert_ne!(cpu.status & STATUS_FLAG_NEGATIVE, 0);
}

#[test]
fn bit_takes_flags_from_operand() {
    let mut cpu = cpu();
    cpu.mapper.write_u8(0x0010, 0b1100_0000);
    cpu.register_a = 0x01;
    cpu.load_and_run(vec![0x24, 0x10, 0x00], STEPS).unwrap();
    assert_eq!(cpu.status & 0b1100_0010, 0b1100_0010);
}

#[test]
fn transfers_and_stack_pointer() {
    let mut cpu = cpu();
    // LDX #$80; TXS; TSX; TXA
    cpu.load_and_run(vec![0xA2, 0x80, 0x9A, 0xBA, 0x8A, 0x00], STEPS).unwrap();
    assert_eq!(cpu.stack_pointer, 0x80);
    assert_eq!(cpu.register_a, 0x80);
    assert_ne!(cpu.status & STATUS_FLAG_NEGATIVE, 0);
}
