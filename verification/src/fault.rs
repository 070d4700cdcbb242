//! The conditions under which the emulated machine stops for good.

use vstd::prelude::*;

verus! {

/// A fatal condition. Once one is reported the machine state is no longer
/// meaningful and the host is expected to abandon the run.
#[derive(Clone, Copy, Debug, PartialEq, Eq, Structural)]
pub enum Fault {
    /// The byte fetched at `pc` has no entry in the opcode table.
    UnknownOpcode { code: u8, pc: u16 },
    /// The program counter points where nothing is mapped.
    UnmappedFetch { addr: u16 },
    /// A CPU write landed in cartridge program ROM.
    ProgramRomWrite { addr: u16 },
    /// A CPU read landed beyond the end of the program ROM image.
    ProgramRomRead { addr: u16 },
    /// The PPU data port was read while pointing at a forbidden or unmapped address.
    VideoRead { addr: u16 },
    /// The PPU data port was written while pointing at a forbidden or unmapped address.
    VideoWrite { addr: u16 },
}

/// A fault together with the program counter of the instruction that ran
/// into it.
#[derive(Clone, Copy, Debug, PartialEq, Eq, Structural)]
pub struct Crash {
    pub fault: Fault,
    pub pc: u16,
}

/// A call that returns a value kept to its model: on success the value and
/// the state left behind are the model's; on a fault the fault is the
/// model's, and of the state nothing is said.
pub open spec fn agrees<S, T, E>(model: Result<(S, T), E>, post: S, r: Result<T, E>) -> bool {
    match model {
        Ok((s, v)) => r == Ok::<T, E>(v) && post == s,
        Err(e) => r == Err::<T, E>(e),
    }
}

/// A call that returns nothing kept to its model, as `agrees` does.
pub open spec fn agrees_unit<S>(model: Result<S, Fault>, post: S, r: Result<(), Fault>) -> bool {
    match model {
        Ok(s) => r == Ok::<(), Fault>(()) && post == s,
        Err(e) => r == Err::<(), Fault>(e),
    }
}

} // verus!
