//! The picture processing unit and its memory-mapped registers.

pub mod ppu;
pub mod registers;
