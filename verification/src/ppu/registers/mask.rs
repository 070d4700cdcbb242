//! The mask register (0x2001).
//!
//! ```text
//! BGRs bMmG
//! 7_______0
//! B, G, R - colour emphasis
//! s - show sprites
//! b - show background
//! M - show sprites in the leftmost 8 pixels
//! m - show background in the leftmost 8 pixels
//! G - greyscale
//! ```

use vstd::prelude::*;
use crate::flags::{has_all, assigned, contains, assign};

verus! {

#[derive(Clone, Copy, Debug, PartialEq, Eq, Structural)]
pub struct MaskRegister {
    pub bits: u8,
}

impl MaskRegister {
    pub const EMPH_BLUE: u8 = 0b1000_0000;

    pub const EMPH_GREEN: u8 = 0b0100_0000;

    pub const EMPH_RED: u8 = 0b0010_0000;

    pub const SHOW_SPRITES: u8 = 0b0001_0000;

    pub const SHOW_BACKGROUND: u8 = 0b0000_1000;

    pub const SHOW_SPRITES_LEFT: u8 = 0b0000_0100;

    pub const SHOW_BACKGROUND_LEFT: u8 = 0b0000_0010;

    pub const GREYSCALE: u8 = 0b0000_0001;

    pub fn new() -> (r: Self)
        ensures
            r.bits == 0,
    {
        MaskRegister { bits: 0 }
    }

    pub fn bits(&self) -> (r: u8)
        ensures
            r == self.bits,
    {
        self.bits
    }

    /// Switches both the sprite and the background layer off and leaves
    /// the other six bits as they are.
    pub fn disable_rendering(&mut self)
        ensures
            final(self).bits == assigned(
                assigned(old(self).bits, Self::SHOW_SPRITES, false),
                Self::SHOW_BACKGROUND,
                false,
            ),
    {
        self.bits = assign(self.bits, Self::SHOW_SPRITES, false);
        self.bits = assign(self.bits, Self::SHOW_BACKGROUND, false);
    }

    pub fn show_sprites(&self) -> (r: bool)
        ensures
            r == has_all(self.bits, Self::SHOW_SPRITES),
    {
        contains(self.bits, Self::SHOW_SPRITES)
    }

    pub fn show_background(&self) -> (r: bool)
        ensures
            r == has_all(self.bits, Self::SHOW_BACKGROUND),
    {
        contains(self.bits, Self::SHOW_BACKGROUND)
    }

    pub fn is_greyscale(&self) -> (r: bool)
        ensures
            r == has_all(self.bits, Self::GREYSCALE),
    {
        contains(self.bits, Self::GREYSCALE)
    }

    pub fn update(&mut self, data: u8)
        ensures
            final(self).bits == data,
    {
        self.bits = data;
    }
}

} // verus!
