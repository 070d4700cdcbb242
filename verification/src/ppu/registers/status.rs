//! The status register (0x2002).
//!
//! ```text
//! VSO. ....
//! 7_______0
//! V - vertical blank has started
//! S - sprite 0 hit
//! O - sprite overflow
//! ```

use vstd::prelude::*;
use crate::flags::{has_all, assigned, contains, assign};

verus! {

#[derive(Clone, Copy, Debug, PartialEq, Eq, Structural)]
pub struct StatusRegister {
    pub bits: u8,
}

impl StatusRegister {
    pub const VERTICAL_BLANK: u8 = 0b1000_0000;

    pub const SPRITE_0_HIT: u8 = 0b0100_0000;

    pub const SPRITE_OVERFLOW: u8 = 0b0010_0000;

    pub const UNUSED_0: u8 = 0b0001_0000;

    pub const UNUSED_1: u8 = 0b0000_1000;

    pub const UNUSED_2: u8 = 0b0000_0100;

    pub const UNUSED_3: u8 = 0b0000_0010;

    pub const UNUSED_4: u8 = 0b0000_0001;

    /// Whether the vertical-blank bit is set.
    pub open spec fn vblank(self) -> bool {
        has_all(self.bits, Self::VERTICAL_BLANK)
    }

    /// The register with the bits of `mask` switched on or off.
    pub open spec fn with(self, mask: u8, on: bool) -> StatusRegister {
        StatusRegister { bits: assigned(self.bits, mask, on) }
    }

    pub fn new() -> (r: Self)
        ensures
            r.bits == 0,
    {
        StatusRegister { bits: 0 }
    }

    pub fn bits(&self) -> (r: u8)
        ensures
            r == self.bits,
    {
        self.bits
    }

    pub fn sprite_overflow(&self) -> (r: bool)
        ensures
            r == has_all(self.bits, Self::SPRITE_OVERFLOW),
    {
        contains(self.bits, Self::SPRITE_OVERFLOW)
    }

    pub fn set_sprite_overflow(&mut self, value: bool)
        ensures
            *final(self) == old(self).with(Self::SPRITE_OVERFLOW, value),
    {
        self.bits = assign(self.bits, Self::SPRITE_OVERFLOW, value);
    }

    pub fn sprite_0_hit(&self) -> (r: bool)
        ensures
            r == has_all(self.bits, Self::SPRITE_0_HIT),
    {
        contains(self.bits, Self::SPRITE_0_HIT)
    }

    pub fn set_sprite_0_hit(&mut self, value: bool)
        ensures
            *final(self) == old(self).with(Self::SPRITE_0_HIT, value),
    {
        self.bits = assign(self.bits, Self::SPRITE_0_HIT, value);
    }

    pub fn in_vertical_blank(&self) -> (r: bool)
        ensures
            r == self.vblank(),
    {
        contains(self.bits, Self::VERTICAL_BLANK)
    }

    pub fn set_vertical_blank(&mut self, value: bool)
        ensures
            *final(self) == old(self).with(Self::VERTICAL_BLANK, value),
    {
        self.bits = assign(self.bits, Self::VERTICAL_BLANK, value);
    }

    pub fn update(&mut self, data: u8)
        ensures
            final(self).bits == data,
    {
        self.bits = data;
    }
}

} // verus!
