//! What a cartridge hands to the core: program bytes, character bytes and
//! the nametable mirroring of the board.

use vstd::prelude::*;

verus! {

/// How the four logical nametables fold onto the two physical ones.
#[allow(non_camel_case_types)]
#[derive(Clone, Copy, Debug, PartialEq, Eq, Structural)]
pub enum Mirroring {
    VERTICAL,
    HORIZONTAL,
}

/// A loaded cartridge image.
#[derive(Clone)]
pub struct Rom {
    pub prg_rom: Vec<u8>,
    pub chr_rom: Vec<u8>,
    pub screen_mirroring: Mirroring,
}

} // verus!
