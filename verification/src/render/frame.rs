//! The picture handed to the host: 256 by 240 pixels, each the colour
//! number that the palette memory held for it.

use vstd::prelude::*;

verus! {

#[derive(Clone)]
pub struct Frame {
    /// One byte per pixel, row by row from the top left.
    pub data: Vec<u8>,
}

impl Frame {
    pub const WIDTH: usize = 256;

    pub const HEIGHT: usize = 240;

    /// The frame holds exactly one byte per pixel.
    pub open spec fn wf(&self) -> bool {
        self.data@.len() == 256 * 240
    }

    /// The colour of the pixel in column `x` of row `y`.
    pub open spec fn at(&self, x: int, y: int) -> u8 {
        self.data@[y * 256 + x]
    }

    /// A frame of colour 0.
    pub fn new() -> (frame: Frame)
        ensures
            frame.wf(),
            forall|i: int| 0 <= i < 256 * 240 ==> frame.data@[i] == 0,
    {
        let mut data: Vec<u8> = Vec::new();
        while data.len() < 256 * 240
            invariant
                data.len() <= 256 * 240,
                forall|i: int| 0 <= i < data.len() ==> data[i] == 0,
            decreases 256 * 240 - data.len(),
        {
            data.push(0);
        }
        Frame { data }
    }

    /// Colours one pixel; a position outside the frame is ignored.
    pub fn set_pixel(&mut self, x: usize, y: usize, colour: u8)
        requires
            old(self).wf(),
        ensures
            final(self).wf(),
            final(self).data@ == (if x < 256 && y < 240 {
                old(self).data@.update(y * 256 + x, colour)
            } else {
                old(self).data@
            }),
    {
        if x < 256 && y < 240 {
            self.data[y * 256 + x] = colour;
        }
    }

    /// Reads one pixel.
    pub fn pixel(&self, x: usize, y: usize) -> (colour: u8)
        requires
            self.wf(),
            x < 256,
            y < 240,
        ensures
            colour == self.at(x as int, y as int),
    {
        self.data[y * 256 + x]
    }
}

} // verus!
