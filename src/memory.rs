use vstd::prelude::*;

verus! {

/// The little-endian word made of a low and a high byte.
pub open spec fn word(low: u8, high: u8) -> u16 {
    (low as int + 256 * high as int) as u16
}

/// `a + b` on 16-bit addresses, wrapping modulo 65536.
pub open spec fn add16(a: u16, b: int) -> u16 {
    ((a as int + b) % 0x10000) as u16
}

/// `a + b` on bytes, wrapping modulo 256.
pub open spec fn add8(a: u8, b: int) -> u8 {
    ((a as int + b) % 0x100) as u8
}

/// `a + b` on bytes, wrapping modulo 256.
pub fn wrapping_add8(a: u8, b: u8) -> (r: u8)
    ensures
        r == add8(a, b as int),
{
    a.wrapping_add(b)
}

/// A 16-bit address space that the CPU reads and writes a byte at a time.
///
/// A memory is modelled by three spec functions: the byte a read returns, the
/// state after that read (device registers may change when read), and the
/// state after a write.
pub trait Memory: Sized {
    /// The byte that a read of `address` returns in this state.
    spec fn peek(&self, address: u16) -> u8;

    /// The state after a read of `address`.
    spec fn after_read(&self, address: u16) -> Self;

    /// The state after `data` is written to `address`.
    spec fn after_write(&self, address: u16, data: u8) -> Self;

    fn read_u8(&mut self, address: u16) -> (r: u8)
        ensures
            r == old(self).peek(address),
            *final(self) == old(self).after_read(address),
    ;

    fn write_u8(&mut self, address: u16, data: u8)
        ensures
            *final(self) == old(self).after_write(address, data),
    ;

    /// Reads the low byte at `address`, then the high byte at `address + 1`
    /// (wrapping at the top of the address space).
    fn read_u16(&mut self, address: u16) -> (r: u16)
        ensures
            r == word(
                old(self).peek(address),
                old(self).after_read(address).peek(add16(address, 1)),
            ),
            *final(self) == old(self).after_read(address).after_read(add16(address, 1)),
    ;

    /// Reads a word from the zero page: the high byte comes from
    /// `address + 1` wrapped within the page.
    fn zero_page_read_u16(&mut self, address: u8) -> (r: u16)
        ensures
            r == word(
                old(self).peek(address as u16),
                old(self).after_read(address as u16).peek(add8(address, 1) as u16),
            ),
            *final(self) == old(self).after_read(address as u16).after_read(
                add8(address, 1) as u16,
            ),
    ;

    /// Writes the low byte of `data` to `address`, then the high byte to
    /// `address + 1` (wrapping at the top of the address space).
    fn write_u16(&mut self, address: u16, data: u16)
        ensures
            *final(self) == old(self).after_write(address, (data % 256) as u8).after_write(
                add16(address, 1),
                (data / 256) as u8,
            ),
    ;
}

} // verus!
