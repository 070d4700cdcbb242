//! The control register (0x2000).
//!
//! ```text
//! VPHB SINN
//! 7_______0
//! V - raise an NMI at the start of vertical blank
//! P - master/slave select
//! H - sprite size (0: 8x8, 1: 8x16)
//! B - background pattern table (0: 0x0000, 1: 0x1000)
//! S - sprite pattern table for 8x8 sprites (0: 0x0000, 1: 0x1000)
//! I - VRAM address step per data access (0: 1, 1: 32)
//! NN - base nametable
//! ```

use vstd::prelude::*;
use crate::flags::{has_all, contains};

verus! {

#[derive(Clone, Copy, Debug, PartialEq, Eq, Structural)]
pub struct ControlRegister {
    pub bits: u8,
}

impl ControlRegister {
    pub const GENERATE_NMI: u8 = 0b1000_0000;

    pub const MASTER_SLAVE_SELECT: u8 = 0b0100_0000;

    pub const SPRITE_SIZE: u8 = 0b0010_0000;

    pub const BACKROUND_PATTERN_ADDR: u8 = 0b0001_0000;

    pub const SPRITE_PATTERN_ADDR: u8 = 0b0000_1000;

    pub const VRAM_ADD_INCREMENT: u8 = 0b0000_0100;

    pub const NAMETABLE2: u8 = 0b0000_0010;

    pub const NAMETABLE1: u8 = 0b0000_0001;

    /// The step by which a data-port access advances the VRAM address.
    pub open spec fn increment(self) -> u8 {
        if has_all(self.bits, Self::VRAM_ADD_INCREMENT) {
            32
        } else {
            1
        }
    }

    /// Whether the start of vertical blank raises an NMI.
    pub open spec fn nmi_enabled(self) -> bool {
        has_all(self.bits, Self::GENERATE_NMI)
    }

    /// Where in character memory the background tiles start.
    pub open spec fn background_bank(self) -> u16 {
        if has_all(self.bits, Self::BACKROUND_PATTERN_ADDR) {
            0x1000
        } else {
            0
        }
    }

    /// Where in character memory the 8x8 sprite tiles start.
    pub open spec fn sprite_bank(self) -> u16 {
        if has_all(self.bits, Self::SPRITE_PATTERN_ADDR) {
            0x1000
        } else {
            0
        }
    }

    pub fn new() -> (r: Self)
        ensures
            r.bits == 0,
    {
        ControlRegister { bits: 0 }
    }

    pub fn bits(&self) -> (r: u8)
        ensures
            r == self.bits,
    {
        self.bits
    }

    pub fn vram_addr_increment(&self) -> (r: u8)
        ensures
            r == self.increment(),
    {
        if !contains(self.bits, Self::VRAM_ADD_INCREMENT) {
            1
        } else {
            32
        }
    }

    pub fn generate_nmi(&self) -> (r: bool)
        ensures
            r == self.nmi_enabled(),
    {
        contains(self.bits, Self::GENERATE_NMI)
    }

    pub fn background_pattern_addr(&self) -> (r: u16)
        ensures
            r == self.background_bank(),
    {
        if !contains(self.bits, Self::BACKROUND_PATTERN_ADDR) {
            0
        } else {
            0x1000
        }
    }

    pub fn sprite_pattern_addr(&self) -> (r: u16)
        ensures
            r == self.sprite_bank(),
    {
        if !contains(self.bits, Self::SPRITE_PATTERN_ADDR) {
            0
        } else {
            0x1000
        }
    }

    pub fn update(&mut self, data: u8)
        ensures
            final(self).bits == data,
    {
        self.bits = data;
    }
}

} // verus!
