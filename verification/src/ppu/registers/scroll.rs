//! The scroll register (0x2005): two writes, horizontal then vertical.

use vstd::prelude::*;

verus! {

#[derive(Clone, Copy, Debug, PartialEq, Eq, Structural)]
pub struct ScrollRegister {
    pub scroll_x: u8,
    pub scroll_y: u8,
    /// Set once the horizontal byte of a pair has been written.
    pub latch: bool,
}

impl ScrollRegister {
    /// The register after one write.
    pub open spec fn after_write(self, data: u8) -> ScrollRegister {
        if !self.latch {
            ScrollRegister { scroll_x: data, scroll_y: self.scroll_y, latch: true }
        } else {
            ScrollRegister { scroll_x: self.scroll_x, scroll_y: data, latch: false }
        }
    }

    pub fn new() -> (r: Self)
        ensures
            r == (ScrollRegister { scroll_x: 0, scroll_y: 0, latch: false }),
    {
        ScrollRegister { scroll_x: 0, scroll_y: 0, latch: false }
    }

    pub fn write(&mut self, data: u8)
        ensures
            *final(self) == old(self).after_write(data),
    {
        if !self.latch {
            self.scroll_x = data;
        } else {
            self.scroll_y = data;
        }
        self.latch = !self.latch;
    }

    pub fn reset_latch(&mut self)
        ensures
            final(self).latch == false,
            final(self).scroll_x == old(self).scroll_x,
            final(self).scroll_y == old(self).scroll_y,
    {
        self.latch = false;
    }
}

} // verus!
