//! A cycle-counting emulator core for an 8-bit console: a 6502-family CPU,
//! its memory bus, the picture processing unit and one controller.
//!
//! The host drives the machine one instruction at a time with
//! [`cpu::CPU::step`]. Every step charges its cycles to the bus, which runs
//! the picture unit three dots per cycle; the step reports when a video
//! field has ended, and the host then draws it with [`render::render`] and
//! refreshes the controller. Whatever cannot go on (an opcode that does not
//! exist, a write to ROM, a forbidden video address) comes back as a
//! [`fault::Fault`].
//!
//! Every type with memory of its own has a view, a plain mathematical
//! value, and every operation is specified as a function on views:
//! `BusState::read`, `PpuState::after_tick`, `CpuState::step` and so on.
//! The module [`theorems`] holds what follows for every program.

pub mod bus;
pub mod cartridge;
pub mod cpu;
pub mod fault;
pub mod flags;
pub mod instructions;
pub mod joypad;
pub mod opcodes;
pub mod ppu;
pub mod render;
pub mod theorems;
pub mod trace;
