use vstd::prelude::*;

use crate::memory::{add16, add8, word, Memory};

verus! {

/// A flat 64 KiB memory addressed byte by byte.
#[derive(Debug, Clone, PartialEq)]
pub struct Bus {
    pub memory: [u8; 65536],
}

impl Bus {
    /// A memory of zeros.
    pub fn new() -> (r: Self)
        ensures
            forall|a: int| 0 <= a < 65536 ==> r.memory@[a] == 0,
    {
        Bus { memory: [0u8; 65536] }
    }

    pub fn mem_read(&self, address: u16) -> (r: u8)
        ensures
            r == self.memory@[address as int],
    {
        self.memory[address as usize]
    }

    pub fn mem_write(&mut self, address: u16, data: u8)
        ensures
            final(self).memory@ == old(self).memory@.update(address as int, data),
    {
        self.memory[address as usize] = data;
    }

    /// The little-endian word at `address`, its high byte at `address + 1`
    /// (wrapping at the top of the address space).
    pub fn mem_read_u16(&self, address: u16) -> (r: u16)
        ensures
            r == word(self.memory@[address as int], self.memory@[add16(address, 1) as int]),
    {
        let low = self.memory[address as usize];
        let high = self.memory[address.wrapping_add(1) as usize];
        low as u16 + 256 * high as u16
    }

    /// The little-endian word at `address` on the zero page, its high byte
    /// at `address + 1` wrapped within the page.
    pub fn zero_page_read_u16(&self, address: u8) -> (r: u16)
        ensures
            r == word(self.memory@[address as int], self.memory@[add8(address, 1) as int]),
    {
        let low = self.memory[address as usize];
        let high = self.memory[address.wrapping_add(1) as usize];
        low as u16 + 256 * high as u16
    }

    /// Writes the low byte of `data` at `address`, the high byte after it.
    pub fn mem_write_u16(&mut self, address: u16, data: u16)
        ensures
            final(self).memory@ == old(self).memory@.update(address as int, (data % 256) as u8).update(
                add16(address, 1) as int,
                (data / 256) as u8,
            ),
    {
        self.memory[address as usize] = (data % 256) as u8;
        self.memory[address.wrapping_add(1) as usize] = (data / 256) as u8;
    }
}

impl Memory for Bus {
    open spec fn peek(&self, address: u16) -> u8 {
        self.memory@[address as int]
    }

    open spec fn after_read(&self, address: u16) -> Self {
        *self
    }

    open spec fn after_write(&self, address: u16, data: u8) -> Self {
        Bus { memory: vstd::array::spec_array_update(self.memory, address as int, data) }
    }

    fn read_u8(&mut self, address: u16) -> (r: u8) {
        self.mem_read(address)
    }

    fn write_u8(&mut self, address: u16, data: u8) {
        self.memory[address as usize] = data;
    }

    fn read_u16(&mut self, address: u16) -> (r: u16) {
        self.mem_read_u16(address)
    }

    fn zero_page_read_u16(&mut self, address: u8) -> (r: u16) {
        let low = self.memory[address as usize];
        let high = self.memory[address.wrapping_add(1) as usize];
        low as u16 + 256 * high as u16
    }

    fn write_u16(&mut self, address: u16, data: u16) {
        self.memory[address as usize] = (data % 256) as u8;
        self.memory[address.wrapping_add(1) as usize] = (data / 256) as u8;
    }
}

} // verus!
