use vstd::prelude::*;

verus! {

pub const RIGHT: u8 = 0b1000_0000;

pub const LEFT: u8 = 0b0100_0000;

pub const DOWN: u8 = 0b0010_0000;

pub const UP: u8 = 0b0001_0000;

pub const START: u8 = 0b0000_1000;

pub const SELECT: u8 = 0b0000_0100;

pub const BUTTON_B: u8 = 0b0000_0010;

pub const BUTTON_A: u8 = 0b0000_0001;

/// While strobe is on, reads report button A and the read position stays at
/// the first button; while off, each read reports the next button.
#[derive(Debug, Clone, Copy, PartialEq, Eq)]
pub enum StrobeMode {
    ON,
    OFF,
}

/// A standard joypad read one button at a time through a serial port.
pub struct Controller {
    pub strobe_mode: StrobeMode,
    /// The button the next read reports (bit number in `status`).
    pub index: u8,
    /// One bit per held button.
    pub status: u8,
}

impl Controller {
    pub const RIGHT: u8 = RIGHT;

    pub const LEFT: u8 = LEFT;

    pub const DOWN: u8 = DOWN;

    pub const UP: u8 = UP;

    pub const START: u8 = START;

    pub const SELECT: u8 = SELECT;

    pub const BUTTON_B: u8 = BUTTON_B;

    pub const BUTTON_A: u8 = BUTTON_A;

    /// What a read returns (1 for pressed, 0 for released), and the
    /// controller after it. Past the eighth button reads report 1.
    pub open spec fn read_spec(self) -> (u8, Controller) {
        if self.index > 7 {
            (1, self)
        } else if self.strobe_mode is ON {
            ((if self.status & BUTTON_A != 0 { 1u8 } else { 0u8 }), self)
        } else {
            (
                (if self.status & (1u8 << self.index) != 0 { 1u8 } else { 0u8 }),
                Controller { index: (self.index + 1) as u8, ..self },
            )
        }
    }

    /// The controller after `data` is written to its port: bit 0 turns
    /// strobe on (and rewinds to the first button) or off.
    pub open spec fn write_spec(self, data: u8) -> Controller {
        if data & 1 == 0 {
            Controller { strobe_mode: StrobeMode::OFF, ..self }
        } else {
            Controller { strobe_mode: StrobeMode::ON, index: 0, ..self }
        }
    }

    /// No button held, strobe off, reading from the first button.
    pub fn new() -> (r: Self)
        ensures
            r == (Controller { strobe_mode: StrobeMode::OFF, index: 0, status: 0 }),
    {
        Controller { strobe_mode: StrobeMode::OFF, index: 0, status: 0b0000_0000 }
    }

    /// Reads the port: 1 if the reported button is pressed, else 0.
    pub fn read_u8(&mut self) -> (r: u8)
        ensures
            (r, *final(self)) == old(self).read_spec(),
    {
        self.read()
    }

    /// Writes the port.
    pub fn write(&mut self, data: u8)
        ensures
            *final(self) == old(self).write_spec(data),
    {
        if data & 1 == 0 {
            self.strobe_mode = StrobeMode::OFF;
        } else {
            self.strobe_mode = StrobeMode::ON;
            self.index = 0;
        }
    }

    fn read(&mut self) -> (r: u8)
        ensures
            (r, *final(self)) == old(self).read_spec(),
    {
        if self.index > 7 {
            return 1;
        }
        let result = match self.strobe_mode {
            StrobeMode::ON => self.status & BUTTON_A,
            StrobeMode::OFF => {
                let mask = 1u8 << self.index;
                self.index = self.index + 1;
                self.status & mask
            },
        };
        if result == 0 {
            0
        } else {
            1
        }
    }

    /// Marks the buttons of `button` as held.
    pub fn press_button(&mut self, button: u8)
        ensures
            *final(self) == (Controller { status: old(self).status | button, ..*old(self) }),
    {
        self.status = self.status | button;
    }

    /// Marks the buttons of `button` as released.
    pub fn release_button(&mut self, button: u8)
        ensures
            *final(self) == (Controller { status: old(self).status & !button, ..*old(self) }),
    {
        self.status = self.status & !button;
    }
}

} // verus!
