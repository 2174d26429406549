use vstd::prelude::*;

use crate::controller::Controller;
use crate::cpu::instructions::{step_spec, InstructionResult};
use crate::cpu::{CpuError, CPU};
use crate::memory::{add16, add8, word, Memory};
use crate::ppu::registers::{Mask, OAMAddress};
use crate::ppu::PPU;
use crate::rom::Rom;

verus! {

/// A flat 64 KiB RAM: every address reads back what was last written there,
/// and reads have no side effects.
#[derive(Debug, Clone, PartialEq)]
pub struct TestMapper {
    pub memory: [u8; 65536],
}

impl TestMapper {
    pub fn new() -> (r: Self)
        ensures
            forall|a: int| 0 <= a < 65536 ==> r.memory@[a] == 0,
    {
        TestMapper { memory: [0u8; 65536] }
    }
}

impl Memory for TestMapper {
    open spec fn peek(&self, address: u16) -> u8 {
        self.memory@[address as int]
    }

    open spec fn after_read(&self, address: u16) -> Self {
        *self
    }

    open spec fn after_write(&self, address: u16, data: u8) -> Self {
        TestMapper { memory: vstd::array::spec_array_update(self.memory, address as int, data) }
    }

    fn read_u8(&mut self, address: u16) -> (r: u8) {
        self.memory[address as usize]
    }

    fn write_u8(&mut self, address: u16, data: u8) {
        self.memory[address as usize] = data;
    }

    fn read_u16(&mut self, address: u16) -> (r: u16) {
        let low = self.memory[address as usize];
        let high = self.memory[address.wrapping_add(1) as usize];
        low as u16 + 256 * high as u16
    }

    fn zero_page_read_u16(&mut self, address: u8) -> (r: u16) {
        let low = self.memory[address as usize];
        let high = self.memory[address.wrapping_add(1) as usize];
        low as u16 + 256 * high as u16
    }

    fn write_u16(&mut self, address: u16, data: u16) {
        self.memory[address as usize] = (data % 256) as u8;
        self.memory[address.wrapping_add(1) as usize] = (data / 256) as u8;
    }
}

pub const RAM_START: u16 = 0x0000;

pub const RAM_MIRRORS_END: u16 = 0x1FFF;

pub const PPU_REGISTERS_START: u16 = 0x2000;

pub const PPU_REGISTERS_MIRRORS_END: u16 = 0x3FFF;

/// The joypad port.
pub const CONTROLLER_PORT: u16 = 0x4016;

/// The last of the audio and I/O registers, which are not emulated.
pub const IO_REGISTERS_END: u16 = 0x4017;

pub const ROM_START: u16 = 0x8000;

/// Size of one bank of program memory; a one-bank cartridge is mirrored.
pub const PRG_BANK_SIZE: u16 = 0x4000;

/// Offset into program memory of CPU address `address` (0x8000 or above):
/// a single 16 KiB bank appears twice.
pub open spec fn rom_offset(prg_len: nat, address: u16) -> int {
    let offset = address - ROM_START;
    if prg_len == PRG_BANK_SIZE && offset >= PRG_BANK_SIZE {
        offset % PRG_BANK_SIZE as int
    } else {
        offset
    }
}

/// The console's CPU bus: 2 KiB of work RAM mirrored up to 0x1FFF, the
/// picture unit's eight registers mirrored up to 0x3FFF, the joypad port,
/// silent audio and I/O registers, and cartridge program memory from 0x8000.
///
/// A read that the hardware cannot serve (a write-only picture register, or
/// an address mapped to nothing) returns 0 and is recorded in `bus_error`,
/// which the driver treats as fatal. Writes to read-only places are ignored.
pub struct BasicMapper {
    pub ram: [u8; 2048],
    pub rom: Rom,
    pub ppu: PPU,
    pub controller: Controller,
    /// The first address whose read could not be served.
    pub bus_error: Option<u16>,
}

impl BasicMapper {
    pub fn new(rom: Rom, ppu: PPU, controller: Controller) -> (r: Self)
        ensures
            forall|i: int| 0 <= i < 2048 ==> r.ram@[i] == 0,
            r.rom == rom,
            r.ppu == ppu,
            r.controller == controller,
            r.bus_error is None,
    {
        BasicMapper { ram: [0u8; 2048], rom, ppu, controller, bus_error: None }
    }

    /// The program-memory byte at CPU address `address` (0 past its end).
    pub open spec fn rom_byte(self, address: u16) -> u8 {
        let offset = rom_offset(self.rom.prg_rom@.len(), address);
        if offset < self.rom.prg_rom@.len() {
            self.rom.prg_rom@[offset]
        } else {
            0
        }
    }

    /// This bus with `address` recorded as a failed read, unless one was
    /// recorded before.
    pub open spec fn failed(self, address: u16) -> Self {
        BasicMapper { bus_error: if self.bus_error is Some { self.bus_error } else { Some(address) }, ..self }
    }

    fn calculate_rom_address(&self, address: u16) -> (r: usize)
        requires
            address >= ROM_START,
        ensures
            r == rom_offset(self.rom.prg_rom@.len(), address),
    {
        let offset = address - ROM_START;
        if self.rom.prg_rom.len() == PRG_BANK_SIZE as usize && offset >= PRG_BANK_SIZE {
            (offset % PRG_BANK_SIZE) as usize
        } else {
            offset as usize
        }
    }

    /// Reports whether the picture unit raised its interrupt since the last
    /// call, and clears it.
    pub fn nmi_occured(&mut self) -> (r: bool)
        ensures
            r == old(self).ppu.nmi_triggered,
            *final(self) == (BasicMapper {
                ppu: PPU { nmi_triggered: false, ..old(self).ppu },
                ..*old(self)
            }),
    {
        let nmi_occured = self.ppu.nmi_triggered;
        self.ppu.nmi_triggered = false;
        nmi_occured
    }

    fn fail(&mut self, address: u16)
        ensures
            *final(self) == old(self).failed(address),
    {
        if self.bus_error.is_none() {
            self.bus_error = Some(address);
        }
    }
}

impl CPU<BasicMapper> {
    /// One step of the console: runs an instruction, then gives the picture
    /// unit one dot for each cycle the instruction took.
    pub fn step_console(&mut self) -> (r: Result<InstructionResult, CpuError>)
        ensures
            ({
                match step_spec(*old(self)) {
                    Ok((s, cycles)) => {
                        let (ppu, frame) = s.mapper.ppu.after_ticks(cycles as nat);
                        &&& r == Ok::<InstructionResult, CpuError>(
                            InstructionResult { executed_cycles: cycles },
                        )
                        &&& final(self).mapper.ppu == (PPU { frame: final(self).mapper.ppu.frame, ..ppu })
                        &&& final(self).mapper.ppu.frame.bytes@ == frame
                        &&& *final(self) == (CPU {
                            mapper: BasicMapper { ppu: final(self).mapper.ppu, ..s.mapper },
                            ..s
                        })
                    },
                    Err(e) => r == Err::<InstructionResult, CpuError>(e) && *final(self)
                        == old(self).fetch_spec().1,
                }
            }),
    {
        match self.execute_next_instruction() {
            Ok(result) => {
                self.mapper.ppu.tick_n(result.executed_cycles);
                Ok(result)
            },
            Err(e) => Err(e),
        }
    }
}

impl Memory for BasicMapper {
    open spec fn peek(&self, address: u16) -> u8 {
        if address <= RAM_MIRRORS_END {
            self.ram@[(address % 2048) as int]
        } else if address <= PPU_REGISTERS_MIRRORS_END {
            if address % 8 == 2 {
                self.ppu.read_status_spec().0
            } else if address % 8 == 7 {
                self.ppu.read_data_spec().0
            } else {
                0
            }
        } else if address == CONTROLLER_PORT {
            self.controller.read_spec().0
        } else if address >= ROM_START {
            self.rom_byte(address)
        } else {
            0
        }
    }

    open spec fn after_read(&self, address: u16) -> Self {
        if address <= RAM_MIRRORS_END {
            *self
        } else if address <= PPU_REGISTERS_MIRRORS_END {
            if address % 8 == 2 {
                BasicMapper { ppu: self.ppu.read_status_spec().1, ..*self }
            } else if address % 8 == 7 {
                BasicMapper { ppu: self.ppu.read_data_spec().1, ..*self }
            } else {
                self.failed(address)
            }
        } else if address == CONTROLLER_PORT {
            BasicMapper { controller: self.controller.read_spec().1, ..*self }
        } else if address <= IO_REGISTERS_END || address >= ROM_START {
            *self
        } else {
            self.failed(address)
        }
    }

    open spec fn after_write(&self, address: u16, data: u8) -> Self {
        if address <= RAM_MIRRORS_END {
            BasicMapper {
                ram: vstd::array::spec_array_update(self.ram, (address % 2048) as int, data),
                ..*self
            }
        } else if address <= PPU_REGISTERS_MIRRORS_END {
            let register = address % 8;
            if register == 0 {
                BasicMapper { ppu: self.ppu.write_control_spec(data), ..*self }
            } else if register == 1 {
                BasicMapper { ppu: PPU { mask: Mask { value: data }, ..self.ppu }, ..*self }
            } else if register == 3 {
                BasicMapper { ppu: PPU { oamaddr: OAMAddress { value: data }, ..self.ppu }, ..*self }
            } else if register == 6 {
                BasicMapper { ppu: self.ppu.write_address_spec(data), ..*self }
            } else if register == 7 {
                BasicMapper { ppu: self.ppu.write_data_spec(data), ..*self }
            } else {
                *self
            }
        } else if address == CONTROLLER_PORT {
            BasicMapper { controller: self.controller.write_spec(data), ..*self }
        } else {
            *self
        }
    }

    fn read_u8(&mut self, address: u16) -> (r: u8) {
        if address <= RAM_MIRRORS_END {
            self.ram[(address % 2048) as usize]
        } else if address <= PPU_REGISTERS_MIRRORS_END {
            match address % 8 {
                2 => self.ppu.read_status(),
                7 => self.ppu.read_data(),
                _ => {
                    // The other registers are write-only.
                    self.fail(address);
                    0
                },
            }
        } else if address == CONTROLLER_PORT {
            self.controller.read_u8()
        } else if address >= ROM_START {
            let offset = self.calculate_rom_address(address);
            if offset < self.rom.prg_rom.len() {
                self.rom.prg_rom[offset]
            } else {
                0
            }
        } else if address <= IO_REGISTERS_END {
            // Audio and I/O registers are not emulated and read as 0.
            0
        } else {
            self.fail(address);
            0
        }
    }

    fn write_u8(&mut self, address: u16, data: u8) {
        if address <= RAM_MIRRORS_END {
            self.ram[(address % 2048) as usize] = data;
        } else if address <= PPU_REGISTERS_MIRRORS_END {
            match address % 8 {
                0 => self.ppu.write_control(data),
                1 => self.ppu.write_mask(data),
                3 => self.ppu.write_oam_address(data),
                6 => self.ppu.write_address(data),
                7 => self.ppu.write_data(data),
                // Status is read-only; sprite data and scroll are not emulated.
                _ => {},
            }
        } else if address == CONTROLLER_PORT {
            self.controller.write(data);
        }
        // Anything else is read-only or not emulated: the write is dropped.
    }

    fn read_u16(&mut self, address: u16) -> (r: u16) {
        let low = self.read_u8(address);
        let high = self.read_u8(address.wrapping_add(1));
        low as u16 + 256 * high as u16
    }

    fn zero_page_read_u16(&mut self, address: u8) -> (r: u16) {
        let low = self.read_u8(address as u16);
        let high = self.read_u8(address.wrapping_add(1) as u16);
        low as u16 + 256 * high as u16
    }

    fn write_u16(&mut self, address: u16, data: u16) {
        self.write_u8(address, (data % 256) as u8);
        self.write_u8(address.wrapping_add(1), (data / 256) as u8);
    }
}

} // verus!
