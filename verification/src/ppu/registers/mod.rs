//! The register file the CPU sees at 0x2000-0x2007.

pub mod address;
pub mod control;
pub mod mask;
pub mod scroll;
pub mod status;
