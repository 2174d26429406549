use vstd::prelude::*;

verus! {

/// An 8-bit register of the picture unit.
pub trait Register8: Sized {
    spec fn value_spec(&self) -> u8;

    fn read_u8(&self) -> (r: u8)
        ensures
            r == self.value_spec(),
    ;

    fn write_u8(&mut self, data: u8)
        ensures
            final(self).value_spec() == data,
    ;
}

/// A 16-bit register of the picture unit; the unit decides which byte a
/// CPU write goes to.
pub trait Register16: Sized {
    spec fn value_spec(&self) -> u16;

    fn read_u16(&self) -> (r: u16)
        ensures
            r == self.value_spec(),
    ;

    fn write_u16(&mut self, data: u16)
        ensures
            final(self).value_spec() == data,
    ;
}

/// The VRAM address that data reads and writes go to.
pub struct Address {
    pub value: u16,
}

impl Address {
    pub fn new(value: u16) -> (r: Self)
        ensures
            r.value == value,
    {
        Address { value }
    }
}

impl Register16 for Address {
    open spec fn value_spec(&self) -> u16 {
        self.value
    }

    fn read_u16(&self) -> (r: u16) {
        self.value
    }

    fn write_u16(&mut self, data: u16) {
        self.value = data;
    }
}

/// The control register: nametable base, address increment, pattern tables,
/// and whether vertical blank raises a non-maskable interrupt.
pub struct Control {
    pub value: u8,
}

impl Control {
    pub fn new(value: u8) -> (r: Self)
        ensures
            r.value == value,
    {
        Control { value }
    }

    /// Bits 0-1 select one of four nametables, 0x400 bytes apart from 0x2000.
    pub open spec fn nametable_base_spec(self) -> u16 {
        (0x2000 + 0x400 * (self.value % 4)) as u16
    }

    /// Bit 2: add 32 (one row) rather than 1 after each data access.
    pub open spec fn vram_increment_spec(self) -> u16 {
        if self.value & 0b0000_0100 == 0 {
            1
        } else {
            32
        }
    }

    pub open spec fn nmi_enable_spec(self) -> bool {
        self.value & 0b1000_0000 != 0
    }

    pub fn nametable_base(&self) -> (r: u16)
        ensures
            r == self.nametable_base_spec(),
    {
        match self.value % 4 {
            0 => 0x2000,
            1 => 0x2400,
            2 => 0x2800,
            _ => 0x2C00,
        }
    }

    pub fn vram_increment(&self) -> (r: u16)
        ensures
            r == self.vram_increment_spec(),
    {
        if self.value & 0b0000_0100 == 0 {
            1
        } else {
            32
        }
    }

    pub fn nmi_enable(&self) -> (r: bool)
        ensures
            r == self.nmi_enable_spec(),
    {
        self.value & 0b1000_0000 != 0
    }
}

impl Register8 for Control {
    open spec fn value_spec(&self) -> u8 {
        self.value
    }

    fn read_u8(&self) -> (r: u8) {
        self.value
    }

    fn write_u8(&mut self, data: u8) {
        self.value = data;
    }
}

/// The read buffer of the data port: a read returns the byte fetched by the
/// previous one.
pub struct Data {
    pub value: u8,
}

impl Data {
    pub fn new(value: u8) -> (r: Self)
        ensures
            r.value == value,
    {
        Data { value }
    }
}

impl Register8 for Data {
    open spec fn value_spec(&self) -> u8 {
        self.value
    }

    fn read_u8(&self) -> (r: u8) {
        self.value
    }

    fn write_u8(&mut self, data: u8) {
        self.value = data;
    }
}

/// The mask register (what is shown).
pub struct Mask {
    pub value: u8,
}

impl Mask {
    pub fn new(value: u8) -> (r: Self)
        ensures
            r.value == value,
    {
        Mask { value }
    }
}

impl Register8 for Mask {
    open spec fn value_spec(&self) -> u8 {
        self.value
    }

    fn read_u8(&self) -> (r: u8) {
        self.value
    }

    fn write_u8(&mut self, data: u8) {
        self.value = data;
    }
}

/// The sprite-memory address register.
pub struct OAMAddress {
    pub value: u8,
}

impl OAMAddress {
    pub fn new(value: u8) -> (r: Self)
        ensures
            r.value == value,
    {
        OAMAddress { value }
    }
}

impl Register8 for OAMAddress {
    open spec fn value_spec(&self) -> u8 {
        self.value
    }

    fn read_u8(&self) -> (r: u8) {
        self.value
    }

    fn write_u8(&mut self, data: u8) {
        self.value = data;
    }
}

/// The status register; bit 7 is set during vertical blank.
pub struct Status {
    pub value: u8,
}

impl Status {
    pub fn new(value: u8) -> (r: Self)
        ensures
            r.value == value,
    {
        Status { value }
    }

    pub open spec fn in_v_blank_spec(self) -> bool {
        self.value & 0b1000_0000 != 0
    }

    pub fn clear_v_blank(&mut self)
        ensures
            final(self).value == old(self).value & 0b0111_1111,
    {
        self.value = self.value & 0b0111_1111;
    }

    pub fn set_v_blank(&mut self)
        ensures
            final(self).value == old(self).value | 0b1000_0000,
    {
        self.value = self.value | 0b1000_0000;
    }

    pub fn is_in_v_blank(&self) -> (r: bool)
        ensures
            r == self.in_v_blank_spec(),
    {
        self.value & 0b1000_0000 != 0
    }
}

impl Register8 for Status {
    open spec fn value_spec(&self) -> u8 {
        self.value
    }

    fn read_u8(&self) -> (r: u8) {
        self.value
    }

    fn write_u8(&mut self, data: u8) {
        self.value = data;
    }
}

/// Which byte of a two-byte register the next CPU write sets.
#[derive(Debug, Clone, Copy, PartialEq, Eq)]
pub enum WriteToggle {
    FirstWrite,
    SecondWrite,
}

impl WriteToggle {
    pub open spec fn toggled(self) -> WriteToggle {
        match self {
            WriteToggle::FirstWrite => WriteToggle::SecondWrite,
            WriteToggle::SecondWrite => WriteToggle::FirstWrite,
        }
    }

    pub fn toggle(&mut self)
        ensures
            *final(self) == old(self).toggled(),
    {
        match self {
            WriteToggle::FirstWrite => *self = WriteToggle::SecondWrite,
            WriteToggle::SecondWrite => *self = WriteToggle::FirstWrite,
        }
    }
}

} // verus!
