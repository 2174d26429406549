use vstd::prelude::*;

use crate::cpu::addressing_modes::AddressingModes;
use crate::cpu::{
    branch_crosses_page, flag, signed, with_flag, zero_negative, CpuError, FlagStates, Register, CPU,
    INTERRUPT_VECTOR, STATUS_FLAG_BREAK_COMMAND, STATUS_FLAG_CARRY, STATUS_FLAG_DECIMAL,
    STATUS_FLAG_INTERRUPT_DISABLE, STATUS_FLAG_NEGATIVE, STATUS_FLAG_OVERFLOW, STATUS_FLAG_UNUSED,
    STATUS_FLAG_ZERO,
};
use crate::memory::{add16, add8, Memory};

verus! {

/// The instruction set's mnemonics (with `SLO`, an undocumented one that
/// programs rely on).
#[derive(Debug, Clone, Copy, PartialEq, Eq)]
pub enum Mnemonic {
    ADC,
    AND,
    ASL,
    BCC,
    BCS,
    BEQ,
    BIT,
    BMI,
    BNE,
    BPL,
    BRK,
    BVC,
    BVS,
    CLC,
    CLD,
    CLI,
    CLV,
    CMP,
    CPX,
    CPY,
    DEC,
    DEX,
    DEY,
    EOR,
    INC,
    INX,
    INY,
    JMP,
    JSR,
    LDA,
    LDX,
    LDY,
    LSR,
    NOP,
    ORA,
    PHA,
    PHP,
    PLA,
    PLP,
    ROL,
    ROR,
    RTI,
    RTS,
    SBC,
    SEC,
    SED,
    SEI,
    SLO,
    STA,
    STX,
    STY,
    TAX,
    TAY,
    TSX,
    TXA,
    TXS,
    TYA,
}

/// An opcode's descriptor: mnemonic, length in bytes, addressing mode and
/// base cycle cost.
#[derive(Debug, Clone, Copy, PartialEq, Eq)]
pub struct Instruction {
    pub opcode: u8,
    pub name: Mnemonic,
    pub bytes: u8,
    pub addressing_mode: AddressingModes,
    pub cycles: u8,
}

/// What a step cost.
#[derive(Debug, Clone, Copy, PartialEq, Eq)]
pub struct InstructionResult {
    pub executed_cycles: u8,
}

/// The opcode table: the descriptor of each supported opcode.
pub open spec fn instruction_spec(opcode: u8) -> Option<Instruction> {
    match opcode {
        0x69 => Some(Instruction { opcode: 0x69, name: Mnemonic::ADC, bytes: 2, addressing_mode: AddressingModes::Immediate, cycles: 2 }),
        0x65 => Some(Instruction { opcode: 0x65, name: Mnemonic::ADC, bytes: 2, addressing_mode: AddressingModes::ZeroPage, cycles: 3 }),
        0x75 => Some(Instruction { opcode: 0x75, name: Mnemonic::ADC, bytes: 2, addressing_mode: AddressingModes::ZeroPageX, cycles: 4 }),
        0x6D => Some(Instruction { opcode: 0x6D, name: Mnemonic::ADC, bytes: 3, addressing_mode: AddressingModes::Absolute, cycles: 4 }),
        0x7D => Some(Instruction { opcode: 0x7D, name: Mnemonic::ADC, bytes: 3, addressing_mode: AddressingModes::AbsoluteX, cycles: 4 }),
        0x79 => Some(Instruction { opcode: 0x79, name: Mnemonic::ADC, bytes: 3, addressing_mode: AddressingModes::AbsoluteY, cycles: 4 }),
        0x61 => Some(Instruction { opcode: 0x61, name: Mnemonic::ADC, bytes: 2, addressing_mode: AddressingModes::IndexedIndirectX, cycles: 6 }),
        0x71 => Some(Instruction { opcode: 0x71, name: Mnemonic::ADC, bytes: 2, addressing_mode: AddressingModes::IndirectIndexedY, cycles: 5 }),
        0x29 => Some(Instruction { opcode: 0x29, name: Mnemonic::AND, bytes: 2, addressing_mode: AddressingModes::Immediate, cycles: 2 }),
        0x25 => Some(Instruction { opcode: 0x25, name: Mnemonic::AND, bytes: 2, addressing_mode: AddressingModes::ZeroPage, cycles: 3 }),
        0x35 => Some(Instruction { opcode: 0x35, name: Mnemonic::AND, bytes: 2, addressing_mode: AddressingModes::ZeroPageX, cycles: 4 }),
        0x2D => Some(Instruction { opcode: 0x2D, name: Mnemonic::AND, bytes: 3, addressing_mode: AddressingModes::Absolute, cycles: 4 }),
        0x3D => Some(Instruction { opcode: 0x3D, name: Mnemonic::AND, bytes: 3, addressing_mode: AddressingModes::AbsoluteX, cycles: 4 }),
        0x39 => Some(Instruction { opcode: 0x39, name: Mnemonic::AND, bytes: 3, addressing_mode: AddressingModes::AbsoluteY, cycles: 4 }),
        0x21 => Some(Instruction { opcode: 0x21, name: Mnemonic::AND, bytes: 2, addressing_mode: AddressingModes::IndexedIndirectX, cycles: 6 }),
        0x31 => Some(Instruction { opcode: 0x31, name: Mnemonic::AND, bytes: 2, addressing_mode: AddressingModes::IndirectIndexedY, cycles: 5 }),
        0x0A => Some(Instruction { opcode: 0x0A, name: Mnemonic::ASL, bytes: 1, addressing_mode: AddressingModes::Accumulator, cycles: 2 }),
        0x06 => Some(Instruction { opcode: 0x06, name: Mnemonic::ASL, bytes: 2, addressing_mode: AddressingModes::ZeroPage, cycles: 5 }),
        0x16 => Some(Instruction { opcode: 0x16, name: Mnemonic::ASL, bytes: 2, addressing_mode: AddressingModes::ZeroPageX, cycles: 6 }),
        0x0E => Some(Instruction { opcode: 0x0E, name: Mnemonic::ASL, bytes: 3, addressing_mode: AddressingModes::Absolute, cycles: 6 }),
        0x1E => Some(Instruction { opcode: 0x1E, name: Mnemonic::ASL, bytes: 3, addressing_mode: AddressingModes::AbsoluteX, cycles: 7 }),
        0x90 => Some(Instruction { opcode: 0x90, name: Mnemonic::BCC, bytes: 2, addressing_mode: AddressingModes::Relative, cycles: 2 }),
        0xB0 => Some(Instruction { opcode: 0xB0, name: Mnemonic::BCS, bytes: 2, addressing_mode: AddressingModes::Relative, cycles: 2 }),
        0xF0 => Some(Instruction { opcode: 0xF0, name: Mnemonic::BEQ, bytes: 2, addressing_mode: AddressingModes::Relative, cycles: 2 }),
        0x24 => Some(Instruction { opcode: 0x24, name: Mnemonic::BIT, bytes: 2, addressing_mode: AddressingModes::ZeroPage, cycles: 3 }),
        0x2C => Some(Instruction { opcode: 0x2C, name: Mnemonic::BIT, bytes: 3, addressing_mode: AddressingModes::Absolute, cycles: 4 }),
        0x30 => Some(Instruction { opcode: 0x30, name: Mnemonic::BMI, bytes: 2, addressing_mode: AddressingModes::Relative, cycles: 2 }),
        0xD0 => Some(Instruction { opcode: 0xD0, name: Mnemonic::BNE, bytes: 2, addressing_mode: AddressingModes::Relative, cycles: 2 }),
        0x10 => Some(Instruction { opcode: 0x10, name: Mnemonic::BPL, bytes: 2, addressing_mode: AddressingModes::Relative, cycles: 2 }),
        0x00 => Some(Instruction { opcode: 0x00, name: Mnemonic::BRK, bytes: 1, addressing_mode: AddressingModes::Implicit, cycles: 7 }),
        0x50 => Some(Instruction { opcode: 0x50, name: Mnemonic::BVC, bytes: 2, addressing_mode: AddressingModes::Relative, cycles: 2 }),
        0x70 => Some(Instruction { opcode: 0x70, name: Mnemonic::BVS, bytes: 2, addressing_mode: AddressingModes::Relative, cycles: 2 }),
        0x18 => Some(Instruction { opcode: 0x18, name: Mnemonic::CLC, bytes: 1, addressing_mode: AddressingModes::Implicit, cycles: 2 }),
        0xD8 => Some(Instruction { opcode: 0xD8, name: Mnemonic::CLD, bytes: 1, addressing_mode: AddressingModes::Implicit, cycles: 2 }),
        0x58 => Some(Instruction { opcode: 0x58, name: Mnemonic::CLI, bytes: 1, addressing_mode: AddressingModes::Implicit, cycles: 2 }),
        0xB8 => Some(Instruction { opcode: 0xB8, name: Mnemonic::CLV, bytes: 1, addressing_mode: AddressingModes::Implicit, cycles: 2 }),
        0xC9 => Some(Instruction { opcode: 0xC9, name: Mnemonic::CMP, bytes: 2, addressing_mode: AddressingModes::Immediate, cycles: 2 }),
        0xC5 => Some(Instruction { opcode: 0xC5, name: Mnemonic::CMP, bytes: 2, addressing_mode: AddressingModes::ZeroPage, cycles: 3 }),
        0xD5 => Some(Instruction { opcode: 0xD5, name: Mnemonic::CMP, bytes: 2, addressing_mode: AddressingModes::ZeroPageX, cycles: 4 }),
        0xCD => Some(Instruction { opcode: 0xCD, name: Mnemonic::CMP, bytes: 3, addressing_mode: AddressingModes::Absolute, cycles: 4 }),
        0xDD => Some(Instruction { opcode: 0xDD, name: Mnemonic::CMP, bytes: 3, addressing_mode: AddressingModes::AbsoluteX, cycles: 4 }),
        0xD9 => Some(Instruction { opcode: 0xD9, name: Mnemonic::CMP, bytes: 3, addressing_mode: AddressingModes::AbsoluteY, cycles: 4 }),
        0xC1 => Some(Instruction { opcode: 0xC1, name: Mnemonic::CMP, bytes: 2, addressing_mode: AddressingModes::IndexedIndirectX, cycles: 6 }),
        0xD1 => Some(Instruction { opcode: 0xD1, name: Mnemonic::CMP, bytes: 2, addressing_mode: AddressingModes::IndirectIndexedY, cycles: 5 }),
        0xE0 => Some(Instruction { opcode: 0xE0, name: Mnemonic::CPX, bytes: 2, addressing_mode: AddressingModes::Immediate, cycles: 2 }),
        0xE4 => Some(Instruction { opcode: 0xE4, name: Mnemonic::CPX, bytes: 2, addressing_mode: AddressingModes::ZeroPage, cycles: 3 }),
        0xEC => Some(Instruction { opcode: 0xEC, name: Mnemonic::CPX, bytes: 3, addressing_mode: AddressingModes::Absolute, cycles: 4 }),
        0xC0 => Some(Instruction { opcode: 0xC0, name: Mnemonic::CPY, bytes: 2, addressing_mode: AddressingModes::Immediate, cycles: 2 }),
        0xC4 => Some(Instruction { opcode: 0xC4, name: Mnemonic::CPY, bytes: 2, addressing_mode: AddressingModes::ZeroPage, cycles: 3 }),
        0xCC => Some(Instruction { opcode: 0xCC, name: Mnemonic::CPY, bytes: 3, addressing_mode: AddressingModes::Absolute, cycles: 4 }),
        0xC6 => Some(Instruction { opcode: 0xC6, name: Mnemonic::DEC, bytes: 2, addressing_mode: AddressingModes::ZeroPage, cycles: 5 }),
        0xD6 => Some(Instruction { opcode: 0xD6, name: Mnemonic::DEC, bytes: 2, addressing_mode: AddressingModes::ZeroPageX, cycles: 6 }),
        0xCE => Some(Instruction { opcode: 0xCE, name: Mnemonic::DEC, bytes: 3, addressing_mode: AddressingModes::Absolute, cycles: 6 }),
        0xDE => Some(Instruction { opcode: 0xDE, name: Mnemonic::DEC, bytes: 3, addressing_mode: AddressingModes::AbsoluteX, cycles: 7 }),
        0xCA => Some(Instruction { opcode: 0xCA, name: Mnemonic::DEX, bytes: 1, addressing_mode: AddressingModes::Implicit, cycles: 2 }),
        0x88 => Some(Instruction { opcode: 0x88, name: Mnemonic::DEY, bytes: 1, addressing_mode: AddressingModes::Implicit, cycles: 2 }),
        0x49 => Some(Instruction { opcode: 0x49, name: Mnemonic::EOR, bytes: 2, addressing_mode: AddressingModes::Immediate, cycles: 2 }),
        0x45 => Some(Instruction { opcode: 0x45, name: Mnemonic::EOR, bytes: 2, addressing_mode: AddressingModes::ZeroPage, cycles: 3 }),
        0x55 => Some(Instruction { opcode: 0x55, name: Mnemonic::EOR, bytes: 2, addressing_mode: AddressingModes::ZeroPageX, cycles: 4 }),
        0x4D => Some(Instruction { opcode: 0x4D, name: Mnemonic::EOR, bytes: 3, addressing_mode: AddressingModes::Absolute, cycles: 4 }),
        0x5D => Some(Instruction { opcode: 0x5D, name: Mnemonic::EOR, bytes: 3, addressing_mode: AddressingModes::AbsoluteX, cycles: 4 }),
        0x59 => Some(Instruction { opcode: 0x59, name: Mnemonic::EOR, bytes: 3, addressing_mode: AddressingModes::AbsoluteY, cycles: 4 }),
        0x41 => Some(Instruction { opcode: 0x41, name: Mnemonic::EOR, bytes: 2, addressing_mode: AddressingModes::IndexedIndirectX, cycles: 6 }),
        0x51 => Some(Instruction { opcode: 0x51, name: Mnemonic::EOR, bytes: 2, addressing_mode: AddressingModes::IndirectIndexedY, cycles: 5 }),
        0xE6 => Some(Instruction { opcode: 0xE6, name: Mnemonic::INC, bytes: 2, addressing_mode: AddressingModes::ZeroPage, cycles: 5 }),
        0xF6 => Some(Instruction { opcode: 0xF6, name: Mnemonic::INC, bytes: 2, addressing_mode: AddressingModes::ZeroPageX, cycles: 6 }),
        0xEE => Some(Instruction { opcode: 0xEE, name: Mnemonic::INC, bytes: 3, addressing_mode: AddressingModes::Absolute, cycles: 6 }),
        0xFE => Some(Instruction { opcode: 0xFE, name: Mnemonic::INC, bytes: 3, addressing_mode: AddressingModes::AbsoluteX, cycles: 7 }),
        0xE8 => Some(Instruction { opcode: 0xE8, name: Mnemonic::INX, bytes: 1, addressing_mode: AddressingModes::Implicit, cycles: 2 }),
        0xC8 => Some(Instruction { opcode: 0xC8, name: Mnemonic::INY, bytes: 1, addressing_mode: AddressingModes::Implicit, cycles: 2 }),
        0x4C => Some(Instruction { opcode: 0x4C, name: Mnemonic::JMP, bytes: 3, addressing_mode: AddressingModes::Absolute, cycles: 3 }),
        0x6C => Some(Instruction { opcode: 0x6C, name: Mnemonic::JMP, bytes: 3, addressing_mode: AddressingModes::Indirect, cycles: 5 }),
        0x20 => Some(Instruction { opcode: 0x20, name: Mnemonic::JSR, bytes: 3, addressing_mode: AddressingModes::Absolute, cycles: 6 }),
        0xA9 => Some(Instruction { opcode: 0xA9, name: Mnemonic::LDA, bytes: 2, addressing_mode: AddressingModes::Immediate, cycles: 2 }),
        0xA5 => Some(Instruction { opcode: 0xA5, name: Mnemonic::LDA, bytes: 2, addressing_mode: AddressingModes::ZeroPage, cycles: 3 }),
        0xB5 => Some(Instruction { opcode: 0xB5, name: Mnemonic::LDA, bytes: 2, addressing_mode: AddressingModes::ZeroPageX, cycles: 4 }),
        0xAD => Some(Instruction { opcode: 0xAD, name: Mnemonic::LDA, bytes: 3, addressing_mode: AddressingModes::Absolute, cycles: 4 }),
        0xBD => Some(Instruction { opcode: 0xBD, name: Mnemonic::LDA, bytes: 3, addressing_mode: AddressingModes::AbsoluteX, cycles: 4 }),
        0xB9 => Some(Instruction { opcode: 0xB9, name: Mnemonic::LDA, bytes: 3, addressing_mode: AddressingModes::AbsoluteY, cycles: 4 }),
        0xA1 => Some(Instruction { opcode: 0xA1, name: Mnemonic::LDA, bytes: 2, addressing_mode: AddressingModes::IndexedIndirectX, cycles: 6 }),
        0xB1 => Some(Instruction { opcode: 0xB1, name: Mnemonic::LDA, bytes: 2, addressing_mode: AddressingModes::IndirectIndexedY, cycles: 5 }),
        0xA2 => Some(Instruction { opcode: 0xA2, name: Mnemonic::LDX, bytes: 2, addressing_mode: AddressingModes::Immediate, cycles: 2 }),
        0xA6 => Some(Instruction { opcode: 0xA6, name: Mnemonic::LDX, bytes: 2, addressing_mode: AddressingModes::ZeroPage, cycles: 3 }),
        0xB6 => Some(Instruction { opcode: 0xB6, name: Mnemonic::LDX, bytes: 2, addressing_mode: AddressingModes::ZeroPageY, cycles: 4 }),
        0xAE => Some(Instruction { opcode: 0xAE, name: Mnemonic::LDX, bytes: 3, addressing_mode: AddressingModes::Absolute, cycles: 4 }),
        0xBE => Some(Instruction { opcode: 0xBE, name: Mnemonic::LDX, bytes: 3, addressing_mode: AddressingModes::AbsoluteY, cycles: 4 }),
        0xA0 => Some(Instruction { opcode: 0xA0, name: Mnemonic::LDY, bytes: 2, addressing_mode: AddressingModes::Immediate, cycles: 2 }),
        0xA4 => Some(Instruction { opcode: 0xA4, name: Mnemonic::LDY, bytes: 2, addressing_mode: AddressingModes::ZeroPage, cycles: 3 }),
        0xB4 => Some(Instruction { opcode: 0xB4, name: Mnemonic::LDY, bytes: 2, addressing_mode: AddressingModes::ZeroPageX, cycles: 4 }),
        0xAC => Some(Instruction { opcode: 0xAC, name: Mnemonic::LDY, bytes: 3, addressing_mode: AddressingModes::Absolute, cycles: 4 }),
        0xBC => Some(Instruction { opcode: 0xBC, name: Mnemonic::LDY, bytes: 3, addressing_mode: AddressingModes::AbsoluteX, cycles: 4 }),
        0x4A => Some(Instruction { opcode: 0x4A, name: Mnemonic::LSR, bytes: 1, addressing_mode: AddressingModes::Accumulator, cycles: 2 }),
        0x46 => Some(Instruction { opcode: 0x46, name: Mnemonic::LSR, bytes: 2, addressing_mode: AddressingModes::ZeroPage, cycles: 5 }),
        0x56 => Some(Instruction { opcode: 0x56, name: Mnemonic::LSR, bytes: 2, addressing_mode: AddressingModes::ZeroPageX, cycles: 6 }),
        0x4E => Some(Instruction { opcode: 0x4E, name: Mnemonic::LSR, bytes: 3, addressing_mode: AddressingModes::Absolute, cycles: 6 }),
        0x5E => Some(Instruction { opcode: 0x5E, name: Mnemonic::LSR, bytes: 3, addressing_mode: AddressingModes::AbsoluteX, cycles: 7 }),
        0xEA => Some(Instruction { opcode: 0xEA, name: Mnemonic::NOP, bytes: 1, addressing_mode: AddressingModes::Implicit, cycles: 2 }),
        0x09 => Some(Instruction { opcode: 0x09, name: Mnemonic::ORA, bytes: 2, addressing_mode: AddressingModes::Immediate, cycles: 2 }),
        0x05 => Some(Instruction { opcode: 0x05, name: Mnemonic::ORA, bytes: 2, addressing_mode: AddressingModes::ZeroPage, cycles: 3 }),
        0x15 => Some(Instruction { opcode: 0x15, name: Mnemonic::ORA, bytes: 2, addressing_mode: AddressingModes::ZeroPageX, cycles: 4 }),
        0x0D => Some(Instruction { opcode: 0x0D, name: Mnemonic::ORA, bytes: 3, addressing_mode: AddressingModes::Absolute, cycles: 4 }),
        0x1D => Some(Instruction { opcode: 0x1D, name: Mnemonic::ORA, bytes: 3, addressing_mode: AddressingModes::AbsoluteX, cycles: 4 }),
        0x19 => Some(Instruction { opcode: 0x19, name: Mnemonic::ORA, bytes: 3, addressing_mode: AddressingModes::AbsoluteY, cycles: 4 }),
        0x01 => Some(Instruction { opcode: 0x01, name: Mnemonic::ORA, bytes: 2, addressing_mode: AddressingModes::IndexedIndirectX, cycles: 6 }),
        0x11 => Some(Instruction { opcode: 0x11, name: Mnemonic::ORA, bytes: 2, addressing_mode: AddressingModes::IndirectIndexedY, cycles: 5 }),
        0x48 => Some(Instruction { opcode: 0x48, name: Mnemonic::PHA, bytes: 1, addressing_mode: AddressingModes::Implicit, cycles: 3 }),
        0x08 => Some(Instruction { opcode: 0x08, name: Mnemonic::PHP, bytes: 1, addressing_mode: AddressingModes::Implicit, cycles: 3 }),
        0x68 => Some(Instruction { opcode: 0x68, name: Mnemonic::PLA, bytes: 1, addressing_mode: AddressingModes::Implicit, cycles: 4 }),
        0x28 => Some(Instruction { opcode: 0x28, name: Mnemonic::PLP, bytes: 1, addressing_mode: AddressingModes::Implicit, cycles: 4 }),
        0x2A => Some(Instruction { opcode: 0x2A, name: Mnemonic::ROL, bytes: 1, addressing_mode: AddressingModes::Accumulator, cycles: 2 }),
        0x26 => Some(Instruction { opcode: 0x26, name: Mnemonic::ROL, bytes: 2, addressing_mode: AddressingModes::ZeroPage, cycles: 5 }),
        0x36 => Some(Instruction { opcode: 0x36, name: Mnemonic::ROL, bytes: 2, addressing_mode: AddressingModes::ZeroPageX, cycles: 6 }),
        0x2E => Some(Instruction { opcode: 0x2E, name: Mnemonic::ROL, bytes: 3, addressing_mode: AddressingModes::Absolute, cycles: 6 }),
        0x3E => Some(Instruction { opcode: 0x3E, name: Mnemonic::ROL, bytes: 3, addressing_mode: AddressingModes::AbsoluteX, cycles: 7 }),
        0x6A => Some(Instruction { opcode: 0x6A, name: Mnemonic::ROR, bytes: 1, addressing_mode: AddressingModes::Accumulator, cycles: 2 }),
        0x66 => Some(Instruction { opcode: 0x66, name: Mnemonic::ROR, bytes: 2, addressing_mode: AddressingModes::ZeroPage, cycles: 5 }),
        0x76 => Some(Instruction { opcode: 0x76, name: Mnemonic::ROR, bytes: 2, addressing_mode: AddressingModes::ZeroPageX, cycles: 6 }),
        0x6E => Some(Instruction { opcode: 0x6E, name: Mnemonic::ROR, bytes: 3, addressing_mode: AddressingModes::Absolute, cycles: 6 }),
        0x7E => Some(Instruction { opcode: 0x7E, name: Mnemonic::ROR, bytes: 3, addressing_mode: AddressingModes::AbsoluteX, cycles: 7 }),
        0x40 => Some(Instruction { opcode: 0x40, name: Mnemonic::RTI, bytes: 1, addressing_mode: AddressingModes::Implicit, cycles: 6 }),
        0x60 => Some(Instruction { opcode: 0x60, name: Mnemonic::RTS, bytes: 1, addressing_mode: AddressingModes::Implicit, cycles: 6 }),
        0xE9 => Some(Instruction { opcode: 0xE9, name: Mnemonic::SBC, bytes: 2, addressing_mode: AddressingModes::Immediate, cycles: 2 }),
        0xE5 => Some(Instruction { opcode: 0xE5, name: Mnemonic::SBC, bytes: 2, addressing_mode: AddressingModes::ZeroPage, cycles: 3 }),
        0xF5 => Some(Instruction { opcode: 0xF5, name: Mnemonic::SBC, bytes: 2, addressing_mode: AddressingModes::ZeroPageX, cycles: 4 }),
        0xED => Some(Instruction { opcode: 0xED, name: Mnemonic::SBC, bytes: 3, addressing_mode: AddressingModes::Absolute, cycles: 4 }),
        0xFD => Some(Instruction { opcode: 0xFD, name: Mnemonic::SBC, bytes: 3, addressing_mode: AddressingModes::AbsoluteX, cycles: 4 }),
        0xF9 => Some(Instruction { opcode: 0xF9, name: Mnemonic::SBC, bytes: 3, addressing_mode: AddressingModes::AbsoluteY, cycles: 4 }),
        0xE1 => Some(Instruction { opcode: 0xE1, name: Mnemonic::SBC, bytes: 2, addressing_mode: AddressingModes::IndexedIndirectX, cycles: 6 }),
        0xF1 => Some(Instruction { opcode: 0xF1, name: Mnemonic::SBC, bytes: 2, addressing_mode: AddressingModes::IndirectIndexedY, cycles: 5 }),
        0x38 => Some(Instruction { opcode: 0x38, name: Mnemonic::SEC, bytes: 1, addressing_mode: AddressingModes::Implicit, cycles: 2 }),
        0xF8 => Some(Instruction { opcode: 0xF8, name: Mnemonic::SED, bytes: 1, addressing_mode: AddressingModes::Implicit, cycles: 2 }),
        0x78 => Some(Instruction { opcode: 0x78, name: Mnemonic::SEI, bytes: 1, addressing_mode: AddressingModes::Implicit, cycles: 2 }),
        0x85 => Some(Instruction { opcode: 0x85, name: Mnemonic::STA, bytes: 2, addressing_mode: AddressingModes::ZeroPage, cycles: 3 }),
        0x95 => Some(Instruction { opcode: 0x95, name: Mnemonic::STA, bytes: 2, addressing_mode: AddressingModes::ZeroPageX, cycles: 4 }),
        0x8D => Some(Instruction { opcode: 0x8D, name: Mnemonic::STA, bytes: 3, addressing_mode: AddressingModes::Absolute, cycles: 4 }),
        0x9D => Some(Instruction { opcode: 0x9D, name: Mnemonic::STA, bytes: 3, addressing_mode: AddressingModes::AbsoluteX, cycles: 5 }),
        0x99 => Some(Instruction { opcode: 0x99, name: Mnemonic::STA, bytes: 3, addressing_mode: AddressingModes::AbsoluteY, cycles: 5 }),
        0x81 => Some(Instruction { opcode: 0x81, name: Mnemonic::STA, bytes: 2, addressing_mode: AddressingModes::IndexedIndirectX, cycles: 6 }),
        0x91 => Some(Instruction { opcode: 0x91, name: Mnemonic::STA, bytes: 2, addressing_mode: AddressingModes::IndirectIndexedY, cycles: 6 }),
        0x86 => Some(Instruction { opcode: 0x86, name: Mnemonic::STX, bytes: 2, addressing_mode: AddressingModes::ZeroPage, cycles: 3 }),
        0x96 => Some(Instruction { opcode: 0x96, name: Mnemonic::STX, bytes: 2, addressing_mode: AddressingModes::ZeroPageY, cycles: 4 }),
        0x8E => Some(Instruction { opcode: 0x8E, name: Mnemonic::STX, bytes: 3, addressing_mode: AddressingModes::Absolute, cycles: 4 }),
        0x84 => Some(Instruction { opcode: 0x84, name: Mnemonic::STY, bytes: 2, addressing_mode: AddressingModes::ZeroPage, cycles: 3 }),
        0x94 => Some(Instruction { opcode: 0x94, name: Mnemonic::STY, bytes: 2, addressing_mode: AddressingModes::ZeroPageX, cycles: 4 }),
        0x8C => Some(Instruction { opcode: 0x8C, name: Mnemonic::STY, bytes: 3, addressing_mode: AddressingModes::Absolute, cycles: 4 }),
        0xAA => Some(Instruction { opcode: 0xAA, name: Mnemonic::TAX, bytes: 1, addressing_mode: AddressingModes::Implicit, cycles: 2 }),
        0xA8 => Some(Instruction { opcode: 0xA8, name: Mnemonic::TAY, bytes: 1, addressing_mode: AddressingModes::Implicit, cycles: 2 }),
        0xBA => Some(Instruction { opcode: 0xBA, name: Mnemonic::TSX, bytes: 1, addressing_mode: AddressingModes::Implicit, cycles: 2 }),
        0x8A => Some(Instruction { opcode: 0x8A, name: Mnemonic::TXA, bytes: 1, addressing_mode: AddressingModes::Implicit, cycles: 2 }),
        0x9A => Some(Instruction { opcode: 0x9A, name: Mnemonic::TXS, bytes: 1, addressing_mode: AddressingModes::Implicit, cycles: 2 }),
        0x98 => Some(Instruction { opcode: 0x98, name: Mnemonic::TYA, bytes: 1, addressing_mode: AddressingModes::Implicit, cycles: 2 }),
        0x07 => Some(Instruction { opcode: 0x07, name: Mnemonic::SLO, bytes: 2, addressing_mode: AddressingModes::ZeroPage, cycles: 5 }),
        0x17 => Some(Instruction { opcode: 0x17, name: Mnemonic::SLO, bytes: 2, addressing_mode: AddressingModes::ZeroPageX, cycles: 6 }),
        0x0F => Some(Instruction { opcode: 0x0F, name: Mnemonic::SLO, bytes: 3, addressing_mode: AddressingModes::Absolute, cycles: 6 }),
        0x1F => Some(Instruction { opcode: 0x1F, name: Mnemonic::SLO, bytes: 3, addressing_mode: AddressingModes::AbsoluteX, cycles: 7 }),
        0x1B => Some(Instruction { opcode: 0x1B, name: Mnemonic::SLO, bytes: 3, addressing_mode: AddressingModes::AbsoluteY, cycles: 7 }),
        0x03 => Some(Instruction { opcode: 0x03, name: Mnemonic::SLO, bytes: 2, addressing_mode: AddressingModes::IndexedIndirectX, cycles: 8 }),
        0x13 => Some(Instruction { opcode: 0x13, name: Mnemonic::SLO, bytes: 2, addressing_mode: AddressingModes::IndirectIndexedY, cycles: 8 }),
        _ => None,
    }
}

/// Looks `opcode` up in the opcode table.
pub fn decode(opcode: u8) -> (r: Option<Instruction>)
    ensures
        r == instruction_spec(opcode),
        r matches Some(i) ==> i.well_formed(),
{
    match opcode {
        0x69 => Some(Instruction { opcode: 0x69, name: Mnemonic::ADC, bytes: 2, addressing_mode: AddressingModes::Immediate, cycles: 2 }),
        0x65 => Some(Instruction { opcode: 0x65, name: Mnemonic::ADC, bytes: 2, addressing_mode: AddressingModes::ZeroPage, cycles: 3 }),
        0x75 => Some(Instruction { opcode: 0x75, name: Mnemonic::ADC, bytes: 2, addressing_mode: AddressingModes::ZeroPageX, cycles: 4 }),
        0x6D => Some(Instruction { opcode: 0x6D, name: Mnemonic::ADC, bytes: 3, addressing_mode: AddressingModes::Absolute, cycles: 4 }),
        0x7D => Some(Instruction { opcode: 0x7D, name: Mnemonic::ADC, bytes: 3, addressing_mode: AddressingModes::AbsoluteX, cycles: 4 }),
        0x79 => Some(Instruction { opcode: 0x79, name: Mnemonic::ADC, bytes: 3, addressing_mode: AddressingModes::AbsoluteY, cycles: 4 }),
        0x61 => Some(Instruction { opcode: 0x61, name: Mnemonic::ADC, bytes: 2, addressing_mode: AddressingModes::IndexedIndirectX, cycles: 6 }),
        0x71 => Some(Instruction { opcode: 0x71, name: Mnemonic::ADC, bytes: 2, addressing_mode: AddressingModes::IndirectIndexedY, cycles: 5 }),
        0x29 => Some(Instruction { opcode: 0x29, name: Mnemonic::AND, bytes: 2, addressing_mode: AddressingModes::Immediate, cycles: 2 }),
        0x25 => Some(Instruction { opcode: 0x25, name: Mnemonic::AND, bytes: 2, addressing_mode: AddressingModes::ZeroPage, cycles: 3 }),
        0x35 => Some(Instruction { opcode: 0x35, name: Mnemonic::AND, bytes: 2, addressing_mode: AddressingModes::ZeroPageX, cycles: 4 }),
        0x2D => Some(Instruction { opcode: 0x2D, name: Mnemonic::AND, bytes: 3, addressing_mode: AddressingModes::Absolute, cycles: 4 }),
        0x3D => Some(Instruction { opcode: 0x3D, name: Mnemonic::AND, bytes: 3, addressing_mode: AddressingModes::AbsoluteX, cycles: 4 }),
        0x39 => Some(Instruction { opcode: 0x39, name: Mnemonic::AND, bytes: 3, addressing_mode: AddressingModes::AbsoluteY, cycles: 4 }),
        0x21 => Some(Instruction { opcode: 0x21, name: Mnemonic::AND, bytes: 2, addressing_mode: AddressingModes::IndexedIndirectX, cycles: 6 }),
        0x31 => Some(Instruction { opcode: 0x31, name: Mnemonic::AND, bytes: 2, addressing_mode: AddressingModes::IndirectIndexedY, cycles: 5 }),
        0x0A => Some(Instruction { opcode: 0x0A, name: Mnemonic::ASL, bytes: 1, addressing_mode: AddressingModes::Accumulator, cycles: 2 }),
        0x06 => Some(Instruction { opcode: 0x06, name: Mnemonic::ASL, bytes: 2, addressing_mode: AddressingModes::ZeroPage, cycles: 5 }),
        0x16 => Some(Instruction { opcode: 0x16, name: Mnemonic::ASL, bytes: 2, addressing_mode: AddressingModes::ZeroPageX, cycles: 6 }),
        0x0E => Some(Instruction { opcode: 0x0E, name: Mnemonic::ASL, bytes: 3, addressing_mode: AddressingModes::Absolute, cycles: 6 }),
        0x1E => Some(Instruction { opcode: 0x1E, name: Mnemonic::ASL, bytes: 3, addressing_mode: AddressingModes::AbsoluteX, cycles: 7 }),
        0x90 => Some(Instruction { opcode: 0x90, name: Mnemonic::BCC, bytes: 2, addressing_mode: AddressingModes::Relative, cycles: 2 }),
        0xB0 => Some(Instruction { opcode: 0xB0, name: Mnemonic::BCS, bytes: 2, addressing_mode: AddressingModes::Relative, cycles: 2 }),
        0xF0 => Some(Instruction { opcode: 0xF0, name: Mnemonic::BEQ, bytes: 2, addressing_mode: AddressingModes::Relative, cycles: 2 }),
        0x24 => Some(Instruction { opcode: 0x24, name: Mnemonic::BIT, bytes: 2, addressing_mode: AddressingModes::ZeroPage, cycles: 3 }),
        0x2C => Some(Instruction { opcode: 0x2C, name: Mnemonic::BIT, bytes: 3, addressing_mode: AddressingModes::Absolute, cycles: 4 }),
        0x30 => Some(Instruction { opcode: 0x30, name: Mnemonic::BMI, bytes: 2, addressing_mode: AddressingModes::Relative, cycles: 2 }),
        0xD0 => Some(Instruction { opcode: 0xD0, name: Mnemonic::BNE, bytes: 2, addressing_mode: AddressingModes::Relative, cycles: 2 }),
        0x10 => Some(Instruction { opcode: 0x10, name: Mnemonic::BPL, bytes: 2, addressing_mode: AddressingModes::Relative, cycles: 2 }),
        0x00 => Some(Instruction { opcode: 0x00, name: Mnemonic::BRK, bytes: 1, addressing_mode: AddressingModes::Implicit, cycles: 7 }),
        0x50 => Some(Instruction { opcode: 0x50, name: Mnemonic::BVC, bytes: 2, addressing_mode: AddressingModes::Relative, cycles: 2 }),
        0x70 => Some(Instruction { opcode: 0x70, name: Mnemonic::BVS, bytes: 2, addressing_mode: AddressingModes::Relative, cycles: 2 }),
        0x18 => Some(Instruction { opcode: 0x18, name: Mnemonic::CLC, bytes: 1, addressing_mode: AddressingModes::Implicit, cycles: 2 }),
        0xD8 => Some(Instruction { opcode: 0xD8, name: Mnemonic::CLD, bytes: 1, addressing_mode: AddressingModes::Implicit, cycles: 2 }),
        0x58 => Some(Instruction { opcode: 0x58, name: Mnemonic::CLI, bytes: 1, addressing_mode: AddressingModes::Implicit, cycles: 2 }),
        0xB8 => Some(Instruction { opcode: 0xB8, name: Mnemonic::CLV, bytes: 1, addressing_mode: AddressingModes::Implicit, cycles: 2 }),
        0xC9 => Some(Instruction { opcode: 0xC9, name: Mnemonic::CMP, bytes: 2, addressing_mode: AddressingModes::Immediate, cycles: 2 }),
        0xC5 => Some(Instruction { opcode: 0xC5, name: Mnemonic::CMP, bytes: 2, addressing_mode: AddressingModes::ZeroPage, cycles: 3 }),
        0xD5 => Some(Instruction { opcode: 0xD5, name: Mnemonic::CMP, bytes: 2, addressing_mode: AddressingModes::ZeroPageX, cycles: 4 }),
        0xCD => Some(Instruction { opcode: 0xCD, name: Mnemonic::CMP, bytes: 3, addressing_mode: AddressingModes::Absolute, cycles: 4 }),
        0xDD => Some(Instruction { opcode: 0xDD, name: Mnemonic::CMP, bytes: 3, addressing_mode: AddressingModes::AbsoluteX, cycles: 4 }),
        0xD9 => Some(Instruction { opcode: 0xD9, name: Mnemonic::CMP, bytes: 3, addressing_mode: AddressingModes::AbsoluteY, cycles: 4 }),
        0xC1 => Some(Instruction { opcode: 0xC1, name: Mnemonic::CMP, bytes: 2, addressing_mode: AddressingModes::IndexedIndirectX, cycles: 6 }),
        0xD1 => Some(Instruction { opcode: 0xD1, name: Mnemonic::CMP, bytes: 2, addressing_mode: AddressingModes::IndirectIndexedY, cycles: 5 }),
        0xE0 => Some(Instruction { opcode: 0xE0, name: Mnemonic::CPX, bytes: 2, addressing_mode: AddressingModes::Immediate, cycles: 2 }),
        0xE4 => Some(Instruction { opcode: 0xE4, name: Mnemonic::CPX, bytes: 2, addressing_mode: AddressingModes::ZeroPage, cycles: 3 }),
        0xEC => Some(Instruction { opcode: 0xEC, name: Mnemonic::CPX, bytes: 3, addressing_mode: AddressingModes::Absolute, cycles: 4 }),
        0xC0 => Some(Instruction { opcode: 0xC0, name: Mnemonic::CPY, bytes: 2, addressing_mode: AddressingModes::Immediate, cycles: 2 }),
        0xC4 => Some(Instruction { opcode: 0xC4, name: Mnemonic::CPY, bytes: 2, addressing_mode: AddressingModes::ZeroPage, cycles: 3 }),
        0xCC => Some(Instruction { opcode: 0xCC, name: Mnemonic::CPY, bytes: 3, addressing_mode: AddressingModes::Absolute, cycles: 4 }),
        0xC6 => Some(Instruction { opcode: 0xC6, name: Mnemonic::DEC, bytes: 2, addressing_mode: AddressingModes::ZeroPage, cycles: 5 }),
        0xD6 => Some(Instruction { opcode: 0xD6, name: Mnemonic::DEC, bytes: 2, addressing_mode: AddressingModes::ZeroPageX, cycles: 6 }),
        0xCE => Some(Instruction { opcode: 0xCE, name: Mnemonic::DEC, bytes: 3, addressing_mode: AddressingModes::Absolute, cycles: 6 }),
        0xDE => Some(Instruction { opcode: 0xDE, name: Mnemonic::DEC, bytes: 3, addressing_mode: AddressingModes::AbsoluteX, cycles: 7 }),
        0xCA => Some(Instruction { opcode: 0xCA, name: Mnemonic::DEX, bytes: 1, addressing_mode: AddressingModes::Implicit, cycles: 2 }),
        0x88 => Some(Instruction { opcode: 0x88, name: Mnemonic::DEY, bytes: 1, addressing_mode: AddressingModes::Implicit, cycles: 2 }),
        0x49 => Some(Instruction { opcode: 0x49, name: Mnemonic::EOR, bytes: 2, addressing_mode: AddressingModes::Immediate, cycles: 2 }),
        0x45 => Some(Instruction { opcode: 0x45, name: Mnemonic::EOR, bytes: 2, addressing_mode: AddressingModes::ZeroPage, cycles: 3 }),
        0x55 => Some(Instruction { opcode: 0x55, name: Mnemonic::EOR, bytes: 2, addressing_mode: AddressingModes::ZeroPageX, cycles: 4 }),
        0x4D => Some(Instruction { opcode: 0x4D, name: Mnemonic::EOR, bytes: 3, addressing_mode: AddressingModes::Absolute, cycles: 4 }),
        0x5D => Some(Instruction { opcode: 0x5D, name: Mnemonic::EOR, bytes: 3, addressing_mode: AddressingModes::AbsoluteX, cycles: 4 }),
        0x59 => Some(Instruction { opcode: 0x59, name: Mnemonic::EOR, bytes: 3, addressing_mode: AddressingModes::AbsoluteY, cycles: 4 }),
        0x41 => Some(Instruction { opcode: 0x41, name: Mnemonic::EOR, bytes: 2, addressing_mode: AddressingModes::IndexedIndirectX, cycles: 6 }),
        0x51 => Some(Instruction { opcode: 0x51, name: Mnemonic::EOR, bytes: 2, addressing_mode: AddressingModes::IndirectIndexedY, cycles: 5 }),
        0xE6 => Some(Instruction { opcode: 0xE6, name: Mnemonic::INC, bytes: 2, addressing_mode: AddressingModes::ZeroPage, cycles: 5 }),
        0xF6 => Some(Instruction { opcode: 0xF6, name: Mnemonic::INC, bytes: 2, addressing_mode: AddressingModes::ZeroPageX, cycles: 6 }),
        0xEE => Some(Instruction { opcode: 0xEE, name: Mnemonic::INC, bytes: 3, addressing_mode: AddressingModes::Absolute, cycles: 6 }),
        0xFE => Some(Instruction { opcode: 0xFE, name: Mnemonic::INC, bytes: 3, addressing_mode: AddressingModes::AbsoluteX, cycles: 7 }),
        0xE8 => Some(Instruction { opcode: 0xE8, name: Mnemonic::INX, bytes: 1, addressing_mode: AddressingModes::Implicit, cycles: 2 }),
        0xC8 => Some(Instruction { opcode: 0xC8, name: Mnemonic::INY, bytes: 1, addressing_mode: AddressingModes::Implicit, cycles: 2 }),
        0x4C => Some(Instruction { opcode: 0x4C, name: Mnemonic::JMP, bytes: 3, addressing_mode: AddressingModes::Absolute, cycles: 3 }),
        0x6C => Some(Instruction { opcode: 0x6C, name: Mnemonic::JMP, bytes: 3, addressing_mode: AddressingModes::Indirect, cycles: 5 }),
        0x20 => Some(Instruction { opcode: 0x20, name: Mnemonic::JSR, bytes: 3, addressing_mode: AddressingModes::Absolute, cycles: 6 }),
        0xA9 => Some(Instruction { opcode: 0xA9, name: Mnemonic::LDA, bytes: 2, addressing_mode: AddressingModes::Immediate, cycles: 2 }),
        0xA5 => Some(Instruction { opcode: 0xA5, name: Mnemonic::LDA, bytes: 2, addressing_mode: AddressingModes::ZeroPage, cycles: 3 }),
        0xB5 => Some(Instruction { opcode: 0xB5, name: Mnemonic::LDA, bytes: 2, addressing_mode: AddressingModes::ZeroPageX, cycles: 4 }),
        0xAD => Some(Instruction { opcode: 0xAD, name: Mnemonic::LDA, bytes: 3, addressing_mode: AddressingModes::Absolute, cycles: 4 }),
        0xBD => Some(Instruction { opcode: 0xBD, name: Mnemonic::LDA, bytes: 3, addressing_mode: AddressingModes::AbsoluteX, cycles: 4 }),
        0xB9 => Some(Instruction { opcode: 0xB9, name: Mnemonic::LDA, bytes: 3, addressing_mode: AddressingModes::AbsoluteY, cycles: 4 }),
        0xA1 => Some(Instruction { opcode: 0xA1, name: Mnemonic::LDA, bytes: 2, addressing_mode: AddressingModes::IndexedIndirectX, cycles: 6 }),
        0xB1 => Some(Instruction { opcode: 0xB1, name: Mnemonic::LDA, bytes: 2, addressing_mode: AddressingModes::IndirectIndexedY, cycles: 5 }),
        0xA2 => Some(Instruction { opcode: 0xA2, name: Mnemonic::LDX, bytes: 2, addressing_mode: AddressingModes::Immediate, cycles: 2 }),
        0xA6 => Some(Instruction { opcode: 0xA6, name: Mnemonic::LDX, bytes: 2, addressing_mode: AddressingModes::ZeroPage, cycles: 3 }),
        0xB6 => Some(Instruction { opcode: 0xB6, name: Mnemonic::LDX, bytes: 2, addressing_mode: AddressingModes::ZeroPageY, cycles: 4 }),
        0xAE => Some(Instruction { opcode: 0xAE, name: Mnemonic::LDX, bytes: 3, addressing_mode: AddressingModes::Absolute, cycles: 4 }),
        0xBE => Some(Instruction { opcode: 0xBE, name: Mnemonic::LDX, bytes: 3, addressing_mode: AddressingModes::AbsoluteY, cycles: 4 }),
        0xA0 => Some(Instruction { opcode: 0xA0, name: Mnemonic::LDY, bytes: 2, addressing_mode: AddressingModes::Immediate, cycles: 2 }),
        0xA4 => Some(Instruction { opcode: 0xA4, name: Mnemonic::LDY, bytes: 2, addressing_mode: AddressingModes::ZeroPage, cycles: 3 }),
        0xB4 => Some(Instruction { opcode: 0xB4, name: Mnemonic::LDY, bytes: 2, addressing_mode: AddressingModes::ZeroPageX, cycles: 4 }),
        0xAC => Some(Instruction { opcode: 0xAC, name: Mnemonic::LDY, bytes: 3, addressing_mode: AddressingModes::Absolute, cycles: 4 }),
        0xBC => Some(Instruction { opcode: 0xBC, name: Mnemonic::LDY, bytes: 3, addressing_mode: AddressingModes::AbsoluteX, cycles: 4 }),
        0x4A => Some(Instruction { opcode: 0x4A, name: Mnemonic::LSR, bytes: 1, addressing_mode: AddressingModes::Accumulator, cycles: 2 }),
        0x46 => Some(Instruction { opcode: 0x46, name: Mnemonic::LSR, bytes: 2, addressing_mode: AddressingModes::ZeroPage, cycles: 5 }),
        0x56 => Some(Instruction { opcode: 0x56, name: Mnemonic::LSR, bytes: 2, addressing_mode: AddressingModes::ZeroPageX, cycles: 6 }),
        0x4E => Some(Instruction { opcode: 0x4E, name: Mnemonic::LSR, bytes: 3, addressing_mode: AddressingModes::Absolute, cycles: 6 }),
        0x5E => Some(Instruction { opcode: 0x5E, name: Mnemonic::LSR, bytes: 3, addressing_mode: AddressingModes::AbsoluteX, cycles: 7 }),
        0xEA => Some(Instruction { opcode: 0xEA, name: Mnemonic::NOP, bytes: 1, addressing_mode: AddressingModes::Implicit, cycles: 2 }),
        0x09 => Some(Instruction { opcode: 0x09, name: Mnemonic::ORA, bytes: 2, addressing_mode: AddressingModes::Immediate, cycles: 2 }),
        0x05 => Some(Instruction { opcode: 0x05, name: Mnemonic::ORA, bytes: 2, addressing_mode: AddressingModes::ZeroPage, cycles: 3 }),
        0x15 => Some(Instruction { opcode: 0x15, name: Mnemonic::ORA, bytes: 2, addressing_mode: AddressingModes::ZeroPageX, cycles: 4 }),
        0x0D => Some(Instruction { opcode: 0x0D, name: Mnemonic::ORA, bytes: 3, addressing_mode: AddressingModes::Absolute, cycles: 4 }),
        0x1D => Some(Instruction { opcode: 0x1D, name: Mnemonic::ORA, bytes: 3, addressing_mode: AddressingModes::AbsoluteX, cycles: 4 }),
        0x19 => Some(Instruction { opcode: 0x19, name: Mnemonic::ORA, bytes: 3, addressing_mode: AddressingModes::AbsoluteY, cycles: 4 }),
        0x01 => Some(Instruction { opcode: 0x01, name: Mnemonic::ORA, bytes: 2, addressing_mode: AddressingModes::IndexedIndirectX, cycles: 6 }),
        0x11 => Some(Instruction { opcode: 0x11, name: Mnemonic::ORA, bytes: 2, addressing_mode: AddressingModes::IndirectIndexedY, cycles: 5 }),
        0x48 => Some(Instruction { opcode: 0x48, name: Mnemonic::PHA, bytes: 1, addressing_mode: AddressingModes::Implicit, cycles: 3 }),
        0x08 => Some(Instruction { opcode: 0x08, name: Mnemonic::PHP, bytes: 1, addressing_mode: AddressingModes::Implicit, cycles: 3 }),
        0x68 => Some(Instruction { opcode: 0x68, name: Mnemonic::PLA, bytes: 1, addressing_mode: AddressingModes::Implicit, cycles: 4 }),
        0x28 => Some(Instruction { opcode: 0x28, name: Mnemonic::PLP, bytes: 1, addressing_mode: AddressingModes::Implicit, cycles: 4 }),
        0x2A => Some(Instruction { opcode: 0x2A, name: Mnemonic::ROL, bytes: 1, addressing_mode: AddressingModes::Accumulator, cycles: 2 }),
        0x26 => Some(Instruction { opcode: 0x26, name: Mnemonic::ROL, bytes: 2, addressing_mode: AddressingModes::ZeroPage, cycles: 5 }),
        0x36 => Some(Instruction { opcode: 0x36, name: Mnemonic::ROL, bytes: 2, addressing_mode: AddressingModes::ZeroPageX, cycles: 6 }),
        0x2E => Some(Instruction { opcode: 0x2E, name: Mnemonic::ROL, bytes: 3, addressing_mode: AddressingModes::Absolute, cycles: 6 }),
        0x3E => Some(Instruction { opcode: 0x3E, name: Mnemonic::ROL, bytes: 3, addressing_mode: AddressingModes::AbsoluteX, cycles: 7 }),
        0x6A => Some(Instruction { opcode: 0x6A, name: Mnemonic::ROR, bytes: 1, addressing_mode: AddressingModes::Accumulator, cycles: 2 }),
        0x66 => Some(Instruction { opcode: 0x66, name: Mnemonic::ROR, bytes: 2, addressing_mode: AddressingModes::ZeroPage, cycles: 5 }),
        0x76 => Some(Instruction { opcode: 0x76, name: Mnemonic::ROR, bytes: 2, addressing_mode: AddressingModes::ZeroPageX, cycles: 6 }),
        0x6E => Some(Instruction { opcode: 0x6E, name: Mnemonic::ROR, bytes: 3, addressing_mode: AddressingModes::Absolute, cycles: 6 }),
        0x7E => Some(Instruction { opcode: 0x7E, name: Mnemonic::ROR, bytes: 3, addressing_mode: AddressingModes::AbsoluteX, cycles: 7 }),
        0x40 => Some(Instruction { opcode: 0x40, name: Mnemonic::RTI, bytes: 1, addressing_mode: AddressingModes::Implicit, cycles: 6 }),
        0x60 => Some(Instruction { opcode: 0x60, name: Mnemonic::RTS, bytes: 1, addressing_mode: AddressingModes::Implicit, cycles: 6 }),
        0xE9 => Some(Instruction { opcode: 0xE9, name: Mnemonic::SBC, bytes: 2, addressing_mode: AddressingModes::Immediate, cycles: 2 }),
        0xE5 => Some(Instruction { opcode: 0xE5, name: Mnemonic::SBC, bytes: 2, addressing_mode: AddressingModes::ZeroPage, cycles: 3 }),
        0xF5 => Some(Instruction { opcode: 0xF5, name: Mnemonic::SBC, bytes: 2, addressing_mode: AddressingModes::ZeroPageX, cycles: 4 }),
        0xED => Some(Instruction { opcode: 0xED, name: Mnemonic::SBC, bytes: 3, addressing_mode: AddressingModes::Absolute, cycles: 4 }),
        0xFD => Some(Instruction { opcode: 0xFD, name: Mnemonic::SBC, bytes: 3, addressing_mode: AddressingModes::AbsoluteX, cycles: 4 }),
        0xF9 => Some(Instruction { opcode: 0xF9, name: Mnemonic::SBC, bytes: 3, addressing_mode: AddressingModes::AbsoluteY, cycles: 4 }),
        0xE1 => Some(Instruction { opcode: 0xE1, name: Mnemonic::SBC, bytes: 2, addressing_mode: AddressingModes::IndexedIndirectX, cycles: 6 }),
        0xF1 => Some(Instruction { opcode: 0xF1, name: Mnemonic::SBC, bytes: 2, addressing_mode: AddressingModes::IndirectIndexedY, cycles: 5 }),
        0x38 => Some(Instruction { opcode: 0x38, name: Mnemonic::SEC, bytes: 1, addressing_mode: AddressingModes::Implicit, cycles: 2 }),
        0xF8 => Some(Instruction { opcode: 0xF8, name: Mnemonic::SED, bytes: 1, addressing_mode: AddressingModes::Implicit, cycles: 2 }),
        0x78 => Some(Instruction { opcode: 0x78, name: Mnemonic::SEI, bytes: 1, addressing_mode: AddressingModes::Implicit, cycles: 2 }),
        0x85 => Some(Instruction { opcode: 0x85, name: Mnemonic::STA, bytes: 2, addressing_mode: AddressingModes::ZeroPage, cycles: 3 }),
        0x95 => Some(Instruction { opcode: 0x95, name: Mnemonic::STA, bytes: 2, addressing_mode: AddressingModes::ZeroPageX, cycles: 4 }),
        0x8D => Some(Instruction { opcode: 0x8D, name: Mnemonic::STA, bytes: 3, addressing_mode: AddressingModes::Absolute, cycles: 4 }),
        0x9D => Some(Instruction { opcode: 0x9D, name: Mnemonic::STA, bytes: 3, addressing_mode: AddressingModes::AbsoluteX, cycles: 5 }),
        0x99 => Some(Instruction { opcode: 0x99, name: Mnemonic::STA, bytes: 3, addressing_mode: AddressingModes::AbsoluteY, cycles: 5 }),
        0x81 => Some(Instruction { opcode: 0x81, name: Mnemonic::STA, bytes: 2, addressing_mode: AddressingModes::IndexedIndirectX, cycles: 6 }),
        0x91 => Some(Instruction { opcode: 0x91, name: Mnemonic::STA, bytes: 2, addressing_mode: AddressingModes::IndirectIndexedY, cycles: 6 }),
        0x86 => Some(Instruction { opcode: 0x86, name: Mnemonic::STX, bytes: 2, addressing_mode: AddressingModes::ZeroPage, cycles: 3 }),
        0x96 => Some(Instruction { opcode: 0x96, name: Mnemonic::STX, bytes: 2, addressing_mode: AddressingModes::ZeroPageY, cycles: 4 }),
        0x8E => Some(Instruction { opcode: 0x8E, name: Mnemonic::STX, bytes: 3, addressing_mode: AddressingModes::Absolute, cycles: 4 }),
        0x84 => Some(Instruction { opcode: 0x84, name: Mnemonic::STY, bytes: 2, addressing_mode: AddressingModes::ZeroPage, cycles: 3 }),
        0x94 => Some(Instruction { opcode: 0x94, name: Mnemonic::STY, bytes: 2, addressing_mode: AddressingModes::ZeroPageX, cycles: 4 }),
        0x8C => Some(Instruction { opcode: 0x8C, name: Mnemonic::STY, bytes: 3, addressing_mode: AddressingModes::Absolute, cycles: 4 }),
        0xAA => Some(Instruction { opcode: 0xAA, name: Mnemonic::TAX, bytes: 1, addressing_mode: AddressingModes::Implicit, cycles: 2 }),
        0xA8 => Some(Instruction { opcode: 0xA8, name: Mnemonic::TAY, bytes: 1, addressing_mode: AddressingModes::Implicit, cycles: 2 }),
        0xBA => Some(Instruction { opcode: 0xBA, name: Mnemonic::TSX, bytes: 1, addressing_mode: AddressingModes::Implicit, cycles: 2 }),
        0x8A => Some(Instruction { opcode: 0x8A, name: Mnemonic::TXA, bytes: 1, addressing_mode: AddressingModes::Implicit, cycles: 2 }),
        0x9A => Some(Instruction { opcode: 0x9A, name: Mnemonic::TXS, bytes: 1, addressing_mode: AddressingModes::Implicit, cycles: 2 }),
        0x98 => Some(Instruction { opcode: 0x98, name: Mnemonic::TYA, bytes: 1, addressing_mode: AddressingModes::Implicit, cycles: 2 }),
        0x07 => Some(Instruction { opcode: 0x07, name: Mnemonic::SLO, bytes: 2, addressing_mode: AddressingModes::ZeroPage, cycles: 5 }),
        0x17 => Some(Instruction { opcode: 0x17, name: Mnemonic::SLO, bytes: 2, addressing_mode: AddressingModes::ZeroPageX, cycles: 6 }),
        0x0F => Some(Instruction { opcode: 0x0F, name: Mnemonic::SLO, bytes: 3, addressing_mode: AddressingModes::Absolute, cycles: 6 }),
        0x1F => Some(Instruction { opcode: 0x1F, name: Mnemonic::SLO, bytes: 3, addressing_mode: AddressingModes::AbsoluteX, cycles: 7 }),
        0x1B => Some(Instruction { opcode: 0x1B, name: Mnemonic::SLO, bytes: 3, addressing_mode: AddressingModes::AbsoluteY, cycles: 7 }),
        0x03 => Some(Instruction { opcode: 0x03, name: Mnemonic::SLO, bytes: 2, addressing_mode: AddressingModes::IndexedIndirectX, cycles: 8 }),
        0x13 => Some(Instruction { opcode: 0x13, name: Mnemonic::SLO, bytes: 2, addressing_mode: AddressingModes::IndirectIndexedY, cycles: 8 }),
        _ => None,
    }
}

/// Whether an addressing mode suits a mnemonic: those that read an operand
/// need one, those that write memory or jump need an address.
pub open spec fn mode_fits(name: Mnemonic, mode: AddressingModes) -> bool {
    match name {
        Mnemonic::ADC | Mnemonic::AND | Mnemonic::ASL | Mnemonic::BIT | Mnemonic::CMP
        | Mnemonic::CPX | Mnemonic::CPY | Mnemonic::EOR | Mnemonic::LDA | Mnemonic::LDX
        | Mnemonic::LDY | Mnemonic::LSR | Mnemonic::ORA | Mnemonic::ROL | Mnemonic::ROR
        | Mnemonic::SBC => !(mode is Implicit),
        Mnemonic::DEC | Mnemonic::INC | Mnemonic::JMP | Mnemonic::SLO | Mnemonic::STA
        | Mnemonic::STX | Mnemonic::STY => mode.has_address(),
        Mnemonic::JSR => mode is Absolute,
        _ => true,
    }
}

impl Instruction {
    /// A descriptor that `execute` can run.
    pub open spec fn well_formed(self) -> bool {
        &&& 1 <= self.bytes <= 3
        &&& self.cycles <= 8
        &&& mode_fits(self.name, self.addressing_mode)
    }
}

/// The base cycle cost, plus one when `extra`.
pub open spec fn cycles_with(ins: Instruction, extra: bool) -> u8 {
    (ins.cycles + if extra { 1int } else { 0int }) as u8
}

/// `a + b + carry` on bytes: the result byte, the carry out, and the signed
/// overflow (both inputs of one sign, the result of the other).
pub open spec fn add_with_carry(a: u8, b: u8, carry: bool) -> (u8, bool, bool) {
    let sum = a + b + if carry { 1int } else { 0int };
    let r = (sum % 256) as u8;
    (r, sum > 255, a & 0x80 == b & 0x80 && r & 0x80 != a & 0x80)
}

/// `SBC` (the addition of the operand's complement) undoes `ADC` when its
/// carry-in is the complement of the one `ADC` used:
/// `a + b + c - b - (1 - c) == a` modulo 256.
pub proof fn lemma_adc_sbc_round_trip(a: u8, b: u8, carry: bool)
    ensures
        add_with_carry(add_with_carry(a, b, carry).0, !b, !carry).0 == a,
{
    assert(!b == 255 - b) by (bit_vector);
    let c: int = if carry { 1 } else { 0 };
    let x = (a + b + c) % 256;
    assert((x + (255 - b) + (1 - c)) % 256 == a) by {
        vstd::arithmetic::div_mod::lemma_add_mod_noop(a + b + c, 256 - b - c, 256);
        vstd::arithmetic::div_mod::lemma_mod_self_0(256);
    }
}

/// The bitwise operations between the accumulator and an operand.
#[derive(Debug, Clone, Copy, PartialEq, Eq)]
pub enum Logic {
    And,
    Or,
    Xor,
}

pub open spec fn logic_value(op: Logic, a: u8, b: u8) -> u8 {
    match op {
        Logic::And => a & b,
        Logic::Or => a | b,
        Logic::Xor => a ^ b,
    }
}

/// The shifts and rotations.
#[derive(Debug, Clone, Copy, PartialEq, Eq)]
pub enum Shift {
    Left,
    Right,
    RotateLeft,
    RotateRight,
}

/// A shift's result byte and the bit shifted out into the carry.
pub open spec fn shift_value(op: Shift, v: u8, carry: bool) -> (u8, bool) {
    match op {
        Shift::Left => (v << 1u8, v & 0x80 != 0),
        Shift::Right => (v >> 1u8, v & 1 != 0),
        Shift::RotateLeft => (if carry { (v << 1u8) | 1 } else { (v << 1u8) & 0xFE }, v & 0x80 != 0),
        Shift::RotateRight => (if carry { (v >> 1u8) | 0x80 } else { (v >> 1u8) & 0x7F }, v & 1 != 0),
    }
}

/// Register loads (`LDA`, `LDX`, `LDY`).
pub open spec fn load_spec<M: Memory>(ins: Instruction, s: CPU<M>, r: Register) -> (CPU<M>, u8) {
    let (v, crossed, s1) = ins.addressing_mode.operand_spec(s);
    (s1.with_register(r, v).with_status(zero_negative(s1.status, v)), cycles_with(ins, crossed))
}

/// Bitwise operations into the accumulator (`AND`, `ORA`, `EOR`).
pub open spec fn logic_spec<M: Memory>(ins: Instruction, s: CPU<M>, op: Logic) -> (CPU<M>, u8) {
    let (v, crossed, s1) = ins.addressing_mode.operand_spec(s);
    let r = logic_value(op, s1.register_a, v);
    (s1.with_register(Register::A, r).with_status(zero_negative(s1.status, r)), cycles_with(ins, crossed))
}

/// `ADC`, and `SBC` as the addition of the operand's complement.
pub open spec fn arithmetic_spec<M: Memory>(ins: Instruction, s: CPU<M>, subtract: bool) -> (CPU<M>, u8) {
    let (v, crossed, s1) = ins.addressing_mode.operand_spec(s);
    let b = if subtract { !v } else { v };
    let (r, carry, overflow) = add_with_carry(s1.register_a, b, flag(s1.status, STATUS_FLAG_CARRY));
    let status = with_flag(with_flag(s1.status, STATUS_FLAG_CARRY, carry), STATUS_FLAG_OVERFLOW, overflow);
    (s1.with_register(Register::A, r).with_status(zero_negative(status, r)), cycles_with(ins, crossed))
}

/// Comparisons (`CMP`, `CPX`, `CPY`): carry iff the register is at least the
/// operand; zero and negative from their wrapped difference.
pub open spec fn compare_spec<M: Memory>(ins: Instruction, s: CPU<M>, r: Register) -> (CPU<M>, u8) {
    let (v, crossed, s1) = ins.addressing_mode.operand_spec(s);
    let reg = s1.register(r);
    let status = with_flag(s1.status, STATUS_FLAG_CARRY, reg >= v);
    (s1.with_status(zero_negative(status, add8(reg, 256 - v))), cycles_with(ins, crossed))
}

/// `BIT`: zero from accumulator AND operand, negative and overflow from
/// bits 7 and 6 of the operand.
pub open spec fn bit_spec<M: Memory>(ins: Instruction, s: CPU<M>) -> (CPU<M>, u8) {
    let (v, crossed, s1) = ins.addressing_mode.operand_spec(s);
    let st1 = with_flag(s1.status, STATUS_FLAG_ZERO, s1.register_a & v == 0);
    let st2 = with_flag(st1, STATUS_FLAG_NEGATIVE, v & 0x80 != 0);
    (s1.with_status(with_flag(st2, STATUS_FLAG_OVERFLOW, v & 0x40 != 0)), ins.cycles)
}

/// Shifts and rotations of the accumulator or of a memory byte.
pub open spec fn shift_spec<M: Memory>(ins: Instruction, s: CPU<M>, op: Shift) -> (CPU<M>, u8) {
    let carry_in = flag(s.status, STATUS_FLAG_CARRY);
    if ins.addressing_mode is Accumulator {
        let (r, carry) = shift_value(op, s.register_a, carry_in);
        let status = with_flag(zero_negative(s.status, r), STATUS_FLAG_CARRY, carry);
        (s.with_register(Register::A, r).with_status(status), ins.cycles)
    } else {
        let (address, _, s1) = ins.addressing_mode.address_spec(s);
        let (v, s2) = s1.read_spec(address);
        let (r, carry) = shift_value(op, v, carry_in);
        let s3 = s2.write_spec(address, r);
        (s3.with_status(with_flag(zero_negative(s3.status, r), STATUS_FLAG_CARRY, carry)), ins.cycles)
    }
}

/// `SLO`: shift a memory byte left, then OR it into the accumulator.
pub open spec fn slo_spec<M: Memory>(ins: Instruction, s: CPU<M>) -> (CPU<M>, u8) {
    let (address, _, s1) = ins.addressing_mode.address_spec(s);
    let (v, s2) = s1.read_spec(address);
    let (r, carry) = shift_value(Shift::Left, v, false);
    let s3 = s2.write_spec(address, r);
    let a = s3.register_a | r;
    let status = zero_negative(with_flag(s3.status, STATUS_FLAG_CARRY, carry), a);
    (s3.with_register(Register::A, a).with_status(status), ins.cycles)
}

/// `INC` and `DEC`: add `delta` (modulo 256) to a memory byte.
pub open spec fn step_memory_spec<M: Memory>(ins: Instruction, s: CPU<M>, delta: u8) -> (CPU<M>, u8) {
    let (address, _, s1) = ins.addressing_mode.address_spec(s);
    let (v, s2) = s1.read_spec(address);
    let r = add8(v, delta as int);
    let s3 = s2.write_spec(address, r);
    (s3.with_status(zero_negative(s3.status, r)), ins.cycles)
}

/// `INX`, `INY`, `DEX`, `DEY`: add `delta` (modulo 256) to a register.
pub open spec fn step_register_spec<M: Memory>(ins: Instruction, s: CPU<M>, r: Register, delta: u8) -> (CPU<M>, u8) {
    let v = add8(s.register(r), delta as int);
    (s.with_register(r, v).with_status(zero_negative(s.status, v)), ins.cycles)
}

/// Stores (`STA`, `STX`, `STY`).
pub open spec fn store_spec<M: Memory>(ins: Instruction, s: CPU<M>, r: Register) -> (CPU<M>, u8) {
    let (address, _, s1) = ins.addressing_mode.address_spec(s);
    (s1.write_spec(address, s.register(r)), ins.cycles)
}

/// Transfers between registers; all but a transfer into the stack pointer
/// set zero and negative from the value.
pub open spec fn transfer_spec<M: Memory>(ins: Instruction, s: CPU<M>, from: Register, to: Register) -> (CPU<M>, u8) {
    let v = s.register(from);
    if to is StackPointer {
        (s.with_register(to, v), ins.cycles)
    } else {
        (s.with_register(to, v).with_status(zero_negative(s.status, v)), ins.cycles)
    }
}

/// Flag instructions: set or clear the flag of `mask`.
pub open spec fn flag_spec<M: Memory>(ins: Instruction, s: CPU<M>, mask: u8, on: bool) -> (CPU<M>, u8) {
    (s.with_status(with_flag(s.status, mask, on)), ins.cycles)
}

/// Conditional branches: taken when the flag of `mask` is `when_set`; a
/// taken branch costs one more cycle, two if it leaves the page.
pub open spec fn branch_spec<M: Memory>(ins: Instruction, s: CPU<M>, mask: u8, when_set: bool) -> (CPU<M>, u8) {
    if flag(s.status, mask) == when_set {
        let (distance, s1) = s.read_spec(s.program_counter);
        let crossed = branch_crosses_page(s.program_counter, distance);
        (
            s1.with_pc(add16(s.program_counter, signed(distance))),
            (ins.cycles + 1 + if crossed { 1int } else { 0int }) as u8,
        )
    } else {
        (s, ins.cycles)
    }
}

/// The status as `PHP` and `BRK` push it: break and bit 5 set.
pub open spec fn pushed_status(status: u8) -> u8 {
    status | STATUS_FLAG_BREAK_COMMAND | STATUS_FLAG_UNUSED
}

/// The status as `PLP` and `RTI` restore it: bit 5 set, break clear.
pub open spec fn pulled_status(v: u8) -> u8 {
    with_flag(v | STATUS_FLAG_UNUSED, STATUS_FLAG_BREAK_COMMAND, false)
}

/// `BRK`: push the address past the padding byte and the status (break
/// set), disable interrupts, and jump through the interrupt vector.
pub open spec fn brk_spec<M: Memory>(ins: Instruction, s: CPU<M>) -> (CPU<M>, u8) {
    let (vector, s1) = s.read_word_spec(INTERRUPT_VECTOR);
    let s2 = s1.push_word_spec(add16(s.program_counter, 1)).push_spec(pushed_status(s.status));
    (s2.with_status(with_flag(s2.status, STATUS_FLAG_INTERRUPT_DISABLE, true)).with_pc(vector), ins.cycles)
}

/// `JSR`: push the address of the call's last byte, then jump to the
/// absolute address in its operand.
pub open spec fn jsr_spec<M: Memory>(ins: Instruction, s: CPU<M>) -> (CPU<M>, u8) {
    let s1 = s.push_word_spec(add16(s.program_counter, 1));
    let (address, s2) = s1.read_word_spec(s.program_counter);
    (s2.with_pc(address), ins.cycles)
}

/// `RTS`: pull the return address and step past it.
pub open spec fn rts_spec<M: Memory>(ins: Instruction, s: CPU<M>) -> (CPU<M>, u8) {
    let (w, s1) = s.pop_word_spec();
    (s1.with_pc(add16(w, 1)), ins.cycles)
}

/// `RTI`: pull the status, then the return address.
pub open spec fn rti_spec<M: Memory>(ins: Instruction, s: CPU<M>) -> (CPU<M>, u8) {
    let (v, s1) = s.pop_spec();
    let (w, s2) = s1.with_status(pulled_status(v)).pop_word_spec();
    (s2.with_pc(w), ins.cycles)
}

/// Stack instructions and those that change the flow of control.
pub open spec fn control_spec<M: Memory>(ins: Instruction, s: CPU<M>) -> (CPU<M>, u8) {
    match ins.name {
        Mnemonic::PHA => (s.push_spec(s.register_a), ins.cycles),
        Mnemonic::PHP => (s.push_spec(pushed_status(s.status)), ins.cycles),
        Mnemonic::PLA => {
            let (v, s1) = s.pop_spec();
            (s1.with_register(Register::A, v).with_status(zero_negative(s1.status, v)), ins.cycles)
        },
        Mnemonic::PLP => {
            let (v, s1) = s.pop_spec();
            (s1.with_status(pulled_status(v)), ins.cycles)
        },
        Mnemonic::BRK => brk_spec(ins, s),
        Mnemonic::JMP => {
            let (address, _, s1) = ins.addressing_mode.address_spec(s);
            (s1.with_pc(address), ins.cycles)
        },
        Mnemonic::JSR => jsr_spec(ins, s),
        Mnemonic::RTS => rts_spec(ins, s),
        Mnemonic::RTI => rti_spec(ins, s),
        _ => (s, ins.cycles),
    }
}

/// What executing `ins` does, with the program counter at its first
/// operand byte: the new state and the cycles spent.
pub open spec fn execute_spec<M: Memory>(ins: Instruction, s: CPU<M>) -> (CPU<M>, u8) {
    match ins.name {
        Mnemonic::LDA => load_spec(ins, s, Register::A),
        Mnemonic::LDX => load_spec(ins, s, Register::X),
        Mnemonic::LDY => load_spec(ins, s, Register::Y),
        Mnemonic::AND => logic_spec(ins, s, Logic::And),
        Mnemonic::ORA => logic_spec(ins, s, Logic::Or),
        Mnemonic::EOR => logic_spec(ins, s, Logic::Xor),
        Mnemonic::ADC => arithmetic_spec(ins, s, false),
        Mnemonic::SBC => arithmetic_spec(ins, s, true),
        Mnemonic::CMP => compare_spec(ins, s, Register::A),
        Mnemonic::CPX => compare_spec(ins, s, Register::X),
        Mnemonic::CPY => compare_spec(ins, s, Register::Y),
        Mnemonic::BIT => bit_spec(ins, s),
        Mnemonic::ASL => shift_spec(ins, s, Shift::Left),
        Mnemonic::LSR => shift_spec(ins, s, Shift::Right),
        Mnemonic::ROL => shift_spec(ins, s, Shift::RotateLeft),
        Mnemonic::ROR => shift_spec(ins, s, Shift::RotateRight),
        Mnemonic::SLO => slo_spec(ins, s),
        Mnemonic::INC => step_memory_spec(ins, s, 1),
        Mnemonic::DEC => step_memory_spec(ins, s, 255),
        Mnemonic::INX => step_register_spec(ins, s, Register::X, 1),
        Mnemonic::INY => step_register_spec(ins, s, Register::Y, 1),
        Mnemonic::DEX => step_register_spec(ins, s, Register::X, 255),
        Mnemonic::DEY => step_register_spec(ins, s, Register::Y, 255),
        Mnemonic::STA => store_spec(ins, s, Register::A),
        Mnemonic::STX => store_spec(ins, s, Register::X),
        Mnemonic::STY => store_spec(ins, s, Register::Y),
        Mnemonic::TAX => transfer_spec(ins, s, Register::A, Register::X),
        Mnemonic::TAY => transfer_spec(ins, s, Register::A, Register::Y),
        Mnemonic::TSX => transfer_spec(ins, s, Register::StackPointer, Register::X),
        Mnemonic::TXA => transfer_spec(ins, s, Register::X, Register::A),
        Mnemonic::TXS => transfer_spec(ins, s, Register::X, Register::StackPointer),
        Mnemonic::TYA => transfer_spec(ins, s, Register::Y, Register::A),
        Mnemonic::CLC => flag_spec(ins, s, STATUS_FLAG_CARRY, false),
        Mnemonic::CLD => flag_spec(ins, s, STATUS_FLAG_DECIMAL, false),
        Mnemonic::CLI => flag_spec(ins, s, STATUS_FLAG_INTERRUPT_DISABLE, false),
        Mnemonic::CLV => flag_spec(ins, s, STATUS_FLAG_OVERFLOW, false),
        Mnemonic::SEC => flag_spec(ins, s, STATUS_FLAG_CARRY, true),
        Mnemonic::SED => flag_spec(ins, s, STATUS_FLAG_DECIMAL, true),
        Mnemonic::SEI => flag_spec(ins, s, STATUS_FLAG_INTERRUPT_DISABLE, true),
        Mnemonic::BCC => branch_spec(ins, s, STATUS_FLAG_CARRY, false),
        Mnemonic::BCS => branch_spec(ins, s, STATUS_FLAG_CARRY, true),
        Mnemonic::BNE => branch_spec(ins, s, STATUS_FLAG_ZERO, false),
        Mnemonic::BEQ => branch_spec(ins, s, STATUS_FLAG_ZERO, true),
        Mnemonic::BPL => branch_spec(ins, s, STATUS_FLAG_NEGATIVE, false),
        Mnemonic::BMI => branch_spec(ins, s, STATUS_FLAG_NEGATIVE, true),
        Mnemonic::BVC => branch_spec(ins, s, STATUS_FLAG_OVERFLOW, false),
        Mnemonic::BVS => branch_spec(ins, s, STATUS_FLAG_OVERFLOW, true),
        _ => control_spec(ins, s),
    }
}

/// The program counter after an instruction: jumps and calls set it
/// themselves; every other instruction steps past its operand bytes.
pub open spec fn advance_spec<M: Memory>(ins: Instruction, s: CPU<M>) -> CPU<M> {
    if ins.name is JMP || ins.name is JSR {
        s
    } else {
        s.with_pc(add16(s.program_counter, ins.bytes - 1))
    }
}

/// Executing a fetched `opcode` (the program counter just past it): look it
/// up, execute it and move the program counter on. An opcode not in the
/// table is an error and changes nothing more.
pub open spec fn execute_opcode_spec<M: Memory>(s: CPU<M>, opcode: u8) -> Result<(CPU<M>, u8), CpuError> {
    match instruction_spec(opcode) {
        None => Err(CpuError::UnknownOpcode(opcode)),
        Some(ins) => {
            let (s2, cycles) = execute_spec(ins, s);
            Ok((advance_spec(ins, s2), cycles))
        },
    }
}

/// One step: fetch the opcode at the program counter and execute it.
pub open spec fn step_spec<M: Memory>(s: CPU<M>) -> Result<(CPU<M>, u8), CpuError> {
    let (opcode, s1) = s.fetch_spec();
    execute_opcode_spec(s1, opcode)
}

/// The state after at most `fuel` steps that stop at the first `BRK`
/// opcode fetched (without servicing it), and whether they stopped there.
pub open spec fn run_spec<M: Memory>(s: CPU<M>, fuel: nat) -> (CPU<M>, Result<bool, CpuError>)
    decreases fuel,
{
    if fuel == 0 {
        (s, Ok(false))
    } else {
        let (opcode, s1) = s.fetch_spec();
        if opcode == BRK_OPCODE {
            (s1, Ok(true))
        } else {
            match execute_opcode_spec(s1, opcode) {
                Err(e) => (s1, Err(e)),
                Ok((s2, _)) => run_spec(s2, (fuel - 1) as nat),
            }
        }
    }
}

/// The opcode of `BRK`.
pub const BRK_OPCODE: u8 = 0x00;

impl Instruction {
    /// Executes this instruction with the program counter at its first
    /// operand byte; the program counter is moved on by the caller.
    pub fn execute<M: Memory>(&self, cpu: &mut CPU<M>) -> (r: InstructionResult)
        requires
            self.well_formed(),
        ensures
            (*final(cpu), r.executed_cycles) == execute_spec(*self, *old(cpu)),
    {
        match self.name {
            Mnemonic::LDA => load_register(self, cpu, Register::A),
            Mnemonic::LDX => load_register(self, cpu, Register::X),
            Mnemonic::LDY => load_register(self, cpu, Register::Y),
            Mnemonic::AND => logic_into_a(self, cpu, Logic::And),
            Mnemonic::ORA => logic_into_a(self, cpu, Logic::Or),
            Mnemonic::EOR => logic_into_a(self, cpu, Logic::Xor),
            Mnemonic::ADC => adc(self, cpu),
            Mnemonic::SBC => sbc(self, cpu),
            Mnemonic::CMP => compare_register(self, cpu, Register::A),
            Mnemonic::CPX => compare_register(self, cpu, Register::X),
            Mnemonic::CPY => compare_register(self, cpu, Register::Y),
            Mnemonic::BIT => bit(self, cpu),
            Mnemonic::ASL => shift_operand(self, cpu, Shift::Left),
            Mnemonic::LSR => shift_operand(self, cpu, Shift::Right),
            Mnemonic::ROL => shift_operand(self, cpu, Shift::RotateLeft),
            Mnemonic::ROR => shift_operand(self, cpu, Shift::RotateRight),
            Mnemonic::SLO => slo(self, cpu),
            Mnemonic::INC => step_memory(self, cpu, 1),
            Mnemonic::DEC => step_memory(self, cpu, 255),
            Mnemonic::INX => step_register(self, cpu, Register::X, 1),
            Mnemonic::INY => step_register(self, cpu, Register::Y, 1),
            Mnemonic::DEX => step_register(self, cpu, Register::X, 255),
            Mnemonic::DEY => step_register(self, cpu, Register::Y, 255),
            Mnemonic::STA => store_register(self, cpu, Register::A),
            Mnemonic::STX => store_register(self, cpu, Register::X),
            Mnemonic::STY => store_register(self, cpu, Register::Y),
            Mnemonic::TAX => transfer(self, cpu, Register::A, Register::X),
            Mnemonic::TAY => transfer(self, cpu, Register::A, Register::Y),
            Mnemonic::TSX => transfer(self, cpu, Register::StackPointer, Register::X),
            Mnemonic::TXA => transfer(self, cpu, Register::X, Register::A),
            Mnemonic::TXS => transfer(self, cpu, Register::X, Register::StackPointer),
            Mnemonic::TYA => transfer(self, cpu, Register::Y, Register::A),
            Mnemonic::CLC => change_flag(self, cpu, STATUS_FLAG_CARRY, false),
            Mnemonic::CLD => change_flag(self, cpu, STATUS_FLAG_DECIMAL, false),
            Mnemonic::CLI => change_flag(self, cpu, STATUS_FLAG_INTERRUPT_DISABLE, false),
            Mnemonic::CLV => change_flag(self, cpu, STATUS_FLAG_OVERFLOW, false),
            Mnemonic::SEC => change_flag(self, cpu, STATUS_FLAG_CARRY, true),
            Mnemonic::SED => change_flag(self, cpu, STATUS_FLAG_DECIMAL, true),
            Mnemonic::SEI => change_flag(self, cpu, STATUS_FLAG_INTERRUPT_DISABLE, true),
            Mnemonic::BCC => branch_if(self, cpu, STATUS_FLAG_CARRY, false),
            Mnemonic::BCS => branch_if(self, cpu, STATUS_FLAG_CARRY, true),
            Mnemonic::BNE => branch_if(self, cpu, STATUS_FLAG_ZERO, false),
            Mnemonic::BEQ => branch_if(self, cpu, STATUS_FLAG_ZERO, true),
            Mnemonic::BPL => branch_if(self, cpu, STATUS_FLAG_NEGATIVE, false),
            Mnemonic::BMI => branch_if(self, cpu, STATUS_FLAG_NEGATIVE, true),
            Mnemonic::BVC => branch_if(self, cpu, STATUS_FLAG_OVERFLOW, false),
            Mnemonic::BVS => branch_if(self, cpu, STATUS_FLAG_OVERFLOW, true),
            Mnemonic::PHA => pha(self, cpu),
            Mnemonic::PHP => php(self, cpu),
            Mnemonic::PLA => pla(self, cpu),
            Mnemonic::PLP => plp(self, cpu),
            Mnemonic::BRK => brk(self, cpu),
            Mnemonic::JMP => jmp(self, cpu),
            Mnemonic::JSR => jsr(self, cpu),
            Mnemonic::RTS => rts(self, cpu),
            Mnemonic::RTI => rti(self, cpu),
            Mnemonic::NOP => nop(self, cpu),
        }
    }
}

fn penalty(crossed: bool) -> (r: u8)
    ensures
        r == if crossed { 1u8 } else { 0u8 },
{
    if crossed {
        1
    } else {
        0
    }
}

fn load_register<M: Memory>(instruction: &Instruction, cpu: &mut CPU<M>, r: Register) -> (res: InstructionResult)
    requires
        !(instruction.addressing_mode is Implicit),
        instruction.cycles <= 8,
    ensures
        (*final(cpu), res.executed_cycles) == load_spec(*instruction, *old(cpu), r),
{
    let (operand, crossed) = instruction.addressing_mode.read_operand(cpu);
    cpu.set_register(r, operand);
    cpu.update_zero_negative(operand);
    InstructionResult { executed_cycles: instruction.cycles + penalty(crossed) }
}

fn logic_into_a<M: Memory>(instruction: &Instruction, cpu: &mut CPU<M>, op: Logic) -> (res: InstructionResult)
    requires
        !(instruction.addressing_mode is Implicit),
        instruction.cycles <= 8,
    ensures
        (*final(cpu), res.executed_cycles) == logic_spec(*instruction, *old(cpu), op),
{
    let (operand, crossed) = instruction.addressing_mode.read_operand(cpu);
    let result = match op {
        Logic::And => cpu.register_a & operand,
        Logic::Or => cpu.register_a | operand,
        Logic::Xor => cpu.register_a ^ operand,
    };
    cpu.register_a = result;
    cpu.update_zero_negative(result);
    InstructionResult { executed_cycles: instruction.cycles + penalty(crossed) }
}

fn add_with_carry_into_a<M: Memory>(instruction: &Instruction, cpu: &mut CPU<M>, subtract: bool) -> (res: InstructionResult)
    requires
        !(instruction.addressing_mode is Implicit),
        instruction.cycles <= 8,
    ensures
        (*final(cpu), res.executed_cycles) == arithmetic_spec(*instruction, *old(cpu), subtract),
{
    let (operand, crossed) = instruction.addressing_mode.read_operand(cpu);
    let value = if subtract {
        !operand
    } else {
        operand
    };
    let carry_in: u16 = match cpu.get_flag_state(STATUS_FLAG_CARRY) {
        FlagStates::SET => 1,
        FlagStates::CLEAR => 0,
    };
    let a = cpu.register_a;
    let sum: u16 = a as u16 + value as u16 + carry_in;
    let result = (sum % 256) as u8;
    let overflow = a & 0x80 == value & 0x80 && result & 0x80 != a & 0x80;
    cpu.register_a = result;
    cpu.assign_flag(STATUS_FLAG_CARRY, sum > 255);
    cpu.assign_flag(STATUS_FLAG_OVERFLOW, overflow);
    cpu.update_zero_negative(result);
    InstructionResult { executed_cycles: instruction.cycles + penalty(crossed) }
}

fn compare_register<M: Memory>(instruction: &Instruction, cpu: &mut CPU<M>, r: Register) -> (res: InstructionResult)
    requires
        !(instruction.addressing_mode is Implicit),
        instruction.cycles <= 8,
    ensures
        (*final(cpu), res.executed_cycles) == compare_spec(*instruction, *old(cpu), r),
{
    let (operand, crossed) = instruction.addressing_mode.read_operand(cpu);
    let register = cpu.get_register(r);
    let difference = ((register as u16 + 256 - operand as u16) % 256) as u8;
    cpu.assign_flag(STATUS_FLAG_CARRY, register >= operand);
    cpu.update_zero_negative(difference);
    InstructionResult { executed_cycles: instruction.cycles + penalty(crossed) }
}

fn shift_operand<M: Memory>(instruction: &Instruction, cpu: &mut CPU<M>, op: Shift) -> (res: InstructionResult)
    requires
        !(instruction.addressing_mode is Implicit),
    ensures
        (*final(cpu), res.executed_cycles) == shift_spec(*instruction, *old(cpu), op),
{
    let carry_in = matches!(cpu.get_flag_state(STATUS_FLAG_CARRY), FlagStates::SET);
    match instruction.addressing_mode {
        AddressingModes::Accumulator => {
            let (result, carry) = shift_byte(op, cpu.register_a, carry_in);
            cpu.register_a = result;
            cpu.update_zero_negative(result);
            cpu.assign_flag(STATUS_FLAG_CARRY, carry);
        },
        _ => {
            let (address, _) = instruction.addressing_mode.resolve(cpu);
            let operand = cpu.mem_read(address);
            let (result, carry) = shift_byte(op, operand, carry_in);
            cpu.mem_write(address, result);
            cpu.update_zero_negative(result);
            cpu.assign_flag(STATUS_FLAG_CARRY, carry);
        },
    }
    InstructionResult { executed_cycles: instruction.cycles }
}

fn shift_byte(op: Shift, v: u8, carry: bool) -> (r: (u8, bool))
    ensures
        r == shift_value(op, v, carry),
{
    match op {
        Shift::Left => (v << 1u8, v & 0x80 != 0),
        Shift::Right => (v >> 1u8, v & 1 != 0),
        Shift::RotateLeft => {
            let r = if carry {
                (v << 1u8) | 1
            } else {
                (v << 1u8) & 0xFE
            };
            (r, v & 0x80 != 0)
        },
        Shift::RotateRight => {
            let r = if carry {
                (v >> 1u8) | 0x80
            } else {
                (v >> 1u8) & 0x7F
            };
            (r, v & 1 != 0)
        },
    }
}

fn step_memory<M: Memory>(instruction: &Instruction, cpu: &mut CPU<M>, delta: u8) -> (res: InstructionResult)
    requires
        instruction.addressing_mode.has_address(),
    ensures
        (*final(cpu), res.executed_cycles) == step_memory_spec(*instruction, *old(cpu), delta),
{
    let (address, _) = instruction.addressing_mode.resolve(cpu);
    let result = cpu.mem_read(address).wrapping_add(delta);
    cpu.mem_write(address, result);
    cpu.update_zero_negative(result);
    InstructionResult { executed_cycles: instruction.cycles }
}

fn step_register<M: Memory>(instruction: &Instruction, cpu: &mut CPU<M>, r: Register, delta: u8) -> (res: InstructionResult)
    ensures
        (*final(cpu), res.executed_cycles) == step_register_spec(*instruction, *old(cpu), r, delta),
{
    let result = cpu.get_register(r).wrapping_add(delta);
    cpu.set_register(r, result);
    cpu.update_zero_negative(result);
    InstructionResult { executed_cycles: instruction.cycles }
}

fn store_register<M: Memory>(instruction: &Instruction, cpu: &mut CPU<M>, r: Register) -> (res: InstructionResult)
    requires
        instruction.addressing_mode.has_address(),
    ensures
        (*final(cpu), res.executed_cycles) == store_spec(*instruction, *old(cpu), r),
{
    let value = cpu.get_register(r);
    let (address, _) = instruction.addressing_mode.resolve(cpu);
    cpu.mem_write(address, value);
    InstructionResult { executed_cycles: instruction.cycles }
}

fn transfer<M: Memory>(instruction: &Instruction, cpu: &mut CPU<M>, from: Register, to: Register) -> (res: InstructionResult)
    ensures
        (*final(cpu), res.executed_cycles) == transfer_spec(*instruction, *old(cpu), from, to),
{
    let value = cpu.get_register(from);
    cpu.set_register(to, value);
    if !matches!(to, Register::StackPointer) {
        cpu.update_zero_negative(value);
    }
    InstructionResult { executed_cycles: instruction.cycles }
}

fn change_flag<M: Memory>(instruction: &Instruction, cpu: &mut CPU<M>, mask: u8, on: bool) -> (res: InstructionResult)
    ensures
        (*final(cpu), res.executed_cycles) == flag_spec(*instruction, *old(cpu), mask, on),
{
    cpu.assign_flag(mask, on);
    InstructionResult { executed_cycles: instruction.cycles }
}

fn branch_if<M: Memory>(instruction: &Instruction, cpu: &mut CPU<M>, mask: u8, when_set: bool) -> (res: InstructionResult)
    requires
        instruction.cycles <= 8,
    ensures
        (*final(cpu), res.executed_cycles) == branch_spec(*instruction, *old(cpu), mask, when_set),
{
    if matches!(cpu.get_flag_state(mask), FlagStates::SET) == when_set {
        let distance = cpu.mem_read(cpu.program_counter);
        let crossed = cpu.branch_off_program_counter(distance);
        InstructionResult { executed_cycles: instruction.cycles + 1 + penalty(crossed) }
    } else {
        InstructionResult { executed_cycles: instruction.cycles }
    }
}

fn adc<M: Memory>(instruction: &Instruction, cpu: &mut CPU<M>) -> (res: InstructionResult)
    requires
        !(instruction.addressing_mode is Implicit),
        instruction.cycles <= 8,
    ensures
        (*final(cpu), res.executed_cycles) == arithmetic_spec(*instruction, *old(cpu), false),
{
    add_with_carry_into_a(instruction, cpu, false)
}

fn sbc<M: Memory>(instruction: &Instruction, cpu: &mut CPU<M>) -> (res: InstructionResult)
    requires
        !(instruction.addressing_mode is Implicit),
        instruction.cycles <= 8,
    ensures
        (*final(cpu), res.executed_cycles) == arithmetic_spec(*instruction, *old(cpu), true),
{
    add_with_carry_into_a(instruction, cpu, true)
}

fn bit<M: Memory>(instruction: &Instruction, cpu: &mut CPU<M>) -> (res: InstructionResult)
    requires
        !(instruction.addressing_mode is Implicit),
    ensures
        (*final(cpu), res.executed_cycles) == bit_spec(*instruction, *old(cpu)),
{
    let operand = instruction.addressing_mode.get_operand(cpu);
    let result = cpu.register_a & operand;
    cpu.update_zero_flag(result);
    cpu.update_negative_flag(operand);
    cpu.assign_flag(STATUS_FLAG_OVERFLOW, operand & 0b0100_0000 != 0);
    InstructionResult { executed_cycles: instruction.cycles }
}

fn slo<M: Memory>(instruction: &Instruction, cpu: &mut CPU<M>) -> (res: InstructionResult)
    requires
        instruction.addressing_mode.has_address(),
    ensures
        (*final(cpu), res.executed_cycles) == slo_spec(*instruction, *old(cpu)),
{
    let (address, _) = instruction.addressing_mode.resolve(cpu);
    let operand = cpu.mem_read(address);
    let (result, carry) = shift_byte(Shift::Left, operand, false);
    cpu.mem_write(address, result);
    cpu.assign_flag(STATUS_FLAG_CARRY, carry);
    cpu.register_a = cpu.register_a | result;
    cpu.update_zero_negative(cpu.register_a);
    InstructionResult { executed_cycles: instruction.cycles }
}

fn pha<M: Memory>(instruction: &Instruction, cpu: &mut CPU<M>) -> (res: InstructionResult)
    requires
        instruction.name is PHA,
    ensures
        (*final(cpu), res.executed_cycles) == control_spec(*instruction, *old(cpu)),
{
    cpu.stack_push(cpu.register_a);
    InstructionResult { executed_cycles: instruction.cycles }
}

fn php<M: Memory>(instruction: &Instruction, cpu: &mut CPU<M>) -> (res: InstructionResult)
    requires
        instruction.name is PHP,
    ensures
        (*final(cpu), res.executed_cycles) == control_spec(*instruction, *old(cpu)),
{
    cpu.stack_push(cpu.status | STATUS_FLAG_BREAK_COMMAND | STATUS_FLAG_UNUSED);
    InstructionResult { executed_cycles: instruction.cycles }
}

fn pla<M: Memory>(instruction: &Instruction, cpu: &mut CPU<M>) -> (res: InstructionResult)
    requires
        instruction.name is PLA,
    ensures
        (*final(cpu), res.executed_cycles) == control_spec(*instruction, *old(cpu)),
{
    cpu.register_a = cpu.stack_pop();
    cpu.update_zero_negative(cpu.register_a);
    InstructionResult { executed_cycles: instruction.cycles }
}

fn plp<M: Memory>(instruction: &Instruction, cpu: &mut CPU<M>) -> (res: InstructionResult)
    requires
        instruction.name is PLP,
    ensures
        (*final(cpu), res.executed_cycles) == control_spec(*instruction, *old(cpu)),
{
    cpu.status = cpu.stack_pop() | STATUS_FLAG_UNUSED;
    cpu.clear_flag(STATUS_FLAG_BREAK_COMMAND);
    InstructionResult { executed_cycles: instruction.cycles }
}

fn brk<M: Memory>(instruction: &Instruction, cpu: &mut CPU<M>) -> (res: InstructionResult)
    requires
        instruction.name is BRK,
    ensures
        (*final(cpu), res.executed_cycles) == brk_spec(*instruction, *old(cpu)),
{
    let status = cpu.status;
    let return_address = cpu.program_counter.wrapping_add(1);
    let interrupt_vector = cpu.read_word(INTERRUPT_VECTOR);
    cpu.stack_push_u16(return_address);
    cpu.stack_push(status | STATUS_FLAG_BREAK_COMMAND | STATUS_FLAG_UNUSED);
    cpu.set_flag(STATUS_FLAG_INTERRUPT_DISABLE);
    cpu.program_counter = interrupt_vector;
    InstructionResult { executed_cycles: instruction.cycles }
}

fn jmp<M: Memory>(instruction: &Instruction, cpu: &mut CPU<M>) -> (res: InstructionResult)
    requires
        instruction.name is JMP,
        instruction.addressing_mode.has_address(),
    ensures
        (*final(cpu), res.executed_cycles) == control_spec(*instruction, *old(cpu)),
{
    cpu.program_counter = instruction.addressing_mode.get_operand_address(cpu);
    InstructionResult { executed_cycles: instruction.cycles }
}

fn jsr<M: Memory>(instruction: &Instruction, cpu: &mut CPU<M>) -> (res: InstructionResult)
    requires
        instruction.name is JSR,
    ensures
        (*final(cpu), res.executed_cycles) == jsr_spec(*instruction, *old(cpu)),
{
    // The pushed address is that of the call's last byte; RTS adds the one.
    let operand_address = cpu.program_counter;
    cpu.stack_push_u16(operand_address.wrapping_add(1));
    let target = cpu.read_word(operand_address);
    cpu.program_counter = target;
    InstructionResult { executed_cycles: instruction.cycles }
}

fn rts<M: Memory>(instruction: &Instruction, cpu: &mut CPU<M>) -> (res: InstructionResult)
    requires
        instruction.name is RTS,
    ensures
        (*final(cpu), res.executed_cycles) == rts_spec(*instruction, *old(cpu)),
{
    cpu.program_counter = cpu.stack_pop_u16().wrapping_add(1);
    InstructionResult { executed_cycles: instruction.cycles }
}

fn rti<M: Memory>(instruction: &Instruction, cpu: &mut CPU<M>) -> (res: InstructionResult)
    requires
        instruction.name is RTI,
    ensures
        (*final(cpu), res.executed_cycles) == rti_spec(*instruction, *old(cpu)),
{
    cpu.status = cpu.stack_pop() | STATUS_FLAG_UNUSED;
    cpu.clear_flag(STATUS_FLAG_BREAK_COMMAND);
    cpu.program_counter = cpu.stack_pop_u16();
    InstructionResult { executed_cycles: instruction.cycles }
}

fn nop<M: Memory>(instruction: &Instruction, cpu: &mut CPU<M>) -> (res: InstructionResult)
    requires
        instruction.name is NOP,
    ensures
        (*final(cpu), res.executed_cycles) == control_spec(*instruction, *old(cpu)),
{
    InstructionResult { executed_cycles: instruction.cycles }
}

} // verus!
