use vstd::prelude::*;

verus! {

pub const WIDTH: usize = 256;

pub const HEIGHT: usize = 240;

/// Pixels in a frame.
pub const FRAME_SIZE: usize = 61440;

/// A picture: one byte per pixel, row by row, each a colour index (0 to 63)
/// into the console's system palette.
pub struct Frame {
    pub bytes: [u8; FRAME_SIZE],
}

impl Frame {
    /// A frame of colour 0.
    pub fn new() -> (r: Self)
        ensures
            forall|i: int| 0 <= i < FRAME_SIZE ==> r.bytes@[i] == 0,
    {
        Frame { bytes: [0u8; FRAME_SIZE] }
    }

    /// Sets pixel (`x`, `y`) to `color`.
    pub fn set_pixel(&mut self, x: usize, y: usize, color: u8)
        requires
            x < WIDTH,
            y < HEIGHT,
        ensures
            final(self).bytes@ == old(self).bytes@.update(y * WIDTH + x, color),
    {
        self.bytes[y * WIDTH + x] = color;
    }
}

} // verus!
