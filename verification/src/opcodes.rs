//! The opcode table: for each opcode byte its mnemonic, its length in
//! bytes, its base cycle count and its addressing mode. Mnemonics of
//! unofficial opcodes start with `*`. The table is written row by row, a
//! row holding the sixteen bytes that share a high nibble.

use vstd::prelude::*;
use crate::cpu::AddressingMode;

verus! {

#[derive(Clone, Copy, Debug)]
pub struct OpCode {
    pub code: u8,
    pub mnemonic: &'static str,
    pub len: u8,
    pub cycles: u8,
    pub mode: AddressingMode,
}

impl OpCode {
    pub fn new(code: u8, mnemonic: &'static str, len: u8, cycles: u8, mode: AddressingMode) -> (op:
        Self)
        ensures
            op == (OpCode { code, mnemonic, len, cycles, mode }),
    {
        OpCode { code, mnemonic, len, cycles, mode }
    }

    /// The table. Bytes without an entry cannot be executed.
    pub open spec fn describe(code: u8) -> Option<OpCode> {
        if code < 0x10 {
            row_0(code)
        } else if code < 0x20 {
            row_1(code)
        } else if code < 0x30 {
            row_2(code)
        } else if code < 0x40 {
            row_3(code)
        } else if code < 0x50 {
            row_4(code)
        } else if code < 0x60 {
            row_5(code)
        } else if code < 0x70 {
            row_6(code)
        } else if code < 0x80 {
            row_7(code)
        } else if code < 0x90 {
            row_8(code)
        } else if code < 0xA0 {
            row_9(code)
        } else if code < 0xB0 {
            row_a(code)
        } else if code < 0xC0 {
            row_b(code)
        } else if code < 0xD0 {
            row_c(code)
        } else if code < 0xE0 {
            row_d(code)
        } else if code < 0xF0 {
            row_e(code)
        } else {
            row_f(code)
        }
    }

    /// Looks an opcode byte up in the table.
    pub fn lookup(code: u8) -> (op: Option<OpCode>)
        ensures
            op == OpCode::describe(code),
    {
        if code < 0x10 {
            lookup_row_0(code)
        } else if code < 0x20 {
            lookup_row_1(code)
        } else if code < 0x30 {
            lookup_row_2(code)
        } else if code < 0x40 {
            lookup_row_3(code)
        } else if code < 0x50 {
            lookup_row_4(code)
        } else if code < 0x60 {
            lookup_row_5(code)
        } else if code < 0x70 {
            lookup_row_6(code)
        } else if code < 0x80 {
            lookup_row_7(code)
        } else if code < 0x90 {
            lookup_row_8(code)
        } else if code < 0xA0 {
            lookup_row_9(code)
        } else if code < 0xB0 {
            lookup_row_a(code)
        } else if code < 0xC0 {
            lookup_row_b(code)
        } else if code < 0xD0 {
            lookup_row_c(code)
        } else if code < 0xE0 {
            lookup_row_d(code)
        } else if code < 0xF0 {
            lookup_row_e(code)
        } else {
            lookup_row_f(code)
        }
    }
}

/// Row 0x00 of the table.
pub open spec fn row_0(code: u8) -> Option<OpCode> {
    match code {
        0x00 => Some(OpCode { code: 0x00, mnemonic: "BRK", len: 1, cycles: 7, mode: AddressingMode::NoneAddressing }),
        0x01 => Some(OpCode { code: 0x01, mnemonic: "ORA", len: 2, cycles: 6, mode: AddressingMode::Indirect_X }),
        0x03 => Some(OpCode { code: 0x03, mnemonic: "*SLO", len: 2, cycles: 8, mode: AddressingMode::Indirect_X }),
        0x04 => Some(OpCode { code: 0x04, mnemonic: "*NOP", len: 2, cycles: 3, mode: AddressingMode::ZeroPage }),
        0x05 => Some(OpCode { code: 0x05, mnemonic: "ORA", len: 2, cycles: 3, mode: AddressingMode::ZeroPage }),
        0x06 => Some(OpCode { code: 0x06, mnemonic: "ASL", len: 2, cycles: 5, mode: AddressingMode::ZeroPage }),
        0x07 => Some(OpCode { code: 0x07, mnemonic: "*SLO", len: 2, cycles: 5, mode: AddressingMode::ZeroPage }),
        0x08 => Some(OpCode { code: 0x08, mnemonic: "PHP", len: 1, cycles: 3, mode: AddressingMode::NoneAddressing }),
        0x09 => Some(OpCode { code: 0x09, mnemonic: "ORA", len: 2, cycles: 2, mode: AddressingMode::Immediate }),
        0x0A => Some(OpCode { code: 0x0A, mnemonic: "ASL", len: 1, cycles: 2, mode: AddressingMode::NoneAddressing }),
        0x0B => Some(OpCode { code: 0x0B, mnemonic: "ANC", len: 2, cycles: 2, mode: AddressingMode::Immediate }),
        0x0C => Some(OpCode { code: 0x0C, mnemonic: "*NOP", len: 3, cycles: 4, mode: AddressingMode::Absolute }),
        0x0D => Some(OpCode { code: 0x0D, mnemonic: "ORA", len: 3, cycles: 4, mode: AddressingMode::Absolute }),
        0x0E => Some(OpCode { code: 0x0E, mnemonic: "ASL", len: 3, cycles: 6, mode: AddressingMode::Absolute }),
        0x0F => Some(OpCode { code: 0x0F, mnemonic: "*SLO", len: 3, cycles: 6, mode: AddressingMode::Absolute }),
        _ => None,
    }
}

/// Row 0x10 of the table.
pub open spec fn row_1(code: u8) -> Option<OpCode> {
    match code {
        0x10 => Some(OpCode { code: 0x10, mnemonic: "BPL", len: 2, cycles: 2, mode: AddressingMode::NoneAddressing }),
        0x11 => Some(OpCode { code: 0x11, mnemonic: "ORA", len: 2, cycles: 5, mode: AddressingMode::Indirect_Y }),
        0x13 => Some(OpCode { code: 0x13, mnemonic: "*SLO", len: 2, cycles: 8, mode: AddressingMode::Indirect_Y }),
        0x14 => Some(OpCode { code: 0x14, mnemonic: "*NOP", len: 2, cycles: 4, mode: AddressingMode::ZeroPage_X }),
        0x15 => Some(OpCode { code: 0x15, mnemonic: "ORA", len: 2, cycles: 4, mode: AddressingMode::ZeroPage_X }),
        0x16 => Some(OpCode { code: 0x16, mnemonic: "ASL", len: 2, cycles: 6, mode: AddressingMode::ZeroPage_X }),
        0x17 => Some(OpCode { code: 0x17, mnemonic: "*SLO", len: 2, cycles: 6, mode: AddressingMode::ZeroPage_X }),
        0x18 => Some(OpCode { code: 0x18, mnemonic: "CLC", len: 1, cycles: 2, mode: AddressingMode::NoneAddressing }),
        0x19 => Some(OpCode { code: 0x19, mnemonic: "ORA", len: 3, cycles: 4, mode: AddressingMode::Absolute_Y }),
        0x1A => Some(OpCode { code: 0x1A, mnemonic: "*NOP", len: 1, cycles: 2, mode: AddressingMode::NoneAddressing }),
        0x1B => Some(OpCode { code: 0x1B, mnemonic: "*SLO", len: 3, cycles: 7, mode: AddressingMode::Absolute_Y }),
        0x1C => Some(OpCode { code: 0x1C, mnemonic: "*NOP", len: 3, cycles: 4, mode: AddressingMode::Absolute_X }),
        0x1D => Some(OpCode { code: 0x1D, mnemonic: "ORA", len: 3, cycles: 4, mode: AddressingMode::Absolute_X }),
        0x1E => Some(OpCode { code: 0x1E, mnemonic: "ASL", len: 3, cycles: 7, mode: AddressingMode::Absolute_X }),
        0x1F => Some(OpCode { code: 0x1F, mnemonic: "*SLO", len: 3, cycles: 7, mode: AddressingMode::Absolute_X }),
        _ => None,
    }
}

/// Row 0x20 of the table.
pub open spec fn row_2(code: u8) -> Option<OpCode> {
    match code {
        0x20 => Some(OpCode { code: 0x20, mnemonic: "JSR", len: 3, cycles: 6, mode: AddressingMode::Absolute }),
        0x21 => Some(OpCode { code: 0x21, mnemonic: "AND", len: 2, cycles: 6, mode: AddressingMode::Indirect_X }),
        0x23 => Some(OpCode { code: 0x23, mnemonic: "*RLA", len: 2, cycles: 8, mode: AddressingMode::Indirect_X }),
        0x24 => Some(OpCode { code: 0x24, mnemonic: "BIT", len: 2, cycles: 3, mode: AddressingMode::ZeroPage }),
        0x25 => Some(OpCode { code: 0x25, mnemonic: "AND", len: 2, cycles: 3, mode: AddressingMode::ZeroPage }),
        0x26 => Some(OpCode { code: 0x26, mnemonic: "ROL", len: 2, cycles: 5, mode: AddressingMode::ZeroPage }),
        0x27 => Some(OpCode { code: 0x27, mnemonic: "*RLA", len: 2, cycles: 5, mode: AddressingMode::ZeroPage }),
        0x28 => Some(OpCode { code: 0x28, mnemonic: "PLP", len: 1, cycles: 4, mode: AddressingMode::NoneAddressing }),
        0x29 => Some(OpCode { code: 0x29, mnemonic: "AND", len: 2, cycles: 2, mode: AddressingMode::Immediate }),
        0x2A => Some(OpCode { code: 0x2A, mnemonic: "ROL", len: 1, cycles: 2, mode: AddressingMode::NoneAddressing }),
        0x2B => Some(OpCode { code: 0x2B, mnemonic: "ANC", len: 2, cycles: 2, mode: AddressingMode::Immediate }),
        0x2C => Some(OpCode { code: 0x2C, mnemonic: "BIT", len: 3, cycles: 4, mode: AddressingMode::Absolute }),
        0x2D => Some(OpCode { code: 0x2D, mnemonic: "AND", len: 3, cycles: 4, mode: AddressingMode::Absolute }),
        0x2E => Some(OpCode { code: 0x2E, mnemonic: "ROL", len: 3, cycles: 6, mode: AddressingMode::Absolute }),
        0x2F => Some(OpCode { code: 0x2F, mnemonic: "*RLA", len: 3, cycles: 6, mode: AddressingMode::Absolute }),
        _ => None,
    }
}

/// Row 0x30 of the table.
pub open spec fn row_3(code: u8) -> Option<OpCode> {
    match code {
        0x30 => Some(OpCode { code: 0x30, mnemonic: "BMI", len: 2, cycles: 2, mode: AddressingMode::NoneAddressing }),
        0x31 => Some(OpCode { code: 0x31, mnemonic: "AND", len: 2, cycles: 5, mode: AddressingMode::Indirect_Y }),
        0x33 => Some(OpCode { code: 0x33, mnemonic: "*RLA", len: 2, cycles: 8, mode: AddressingMode::Indirect_Y }),
        0x34 => Some(OpCode { code: 0x34, mnemonic: "*NOP", len: 2, cycles: 4, mode: AddressingMode::ZeroPage_X }),
        0x35 => Some(OpCode { code: 0x35, mnemonic: "AND", len: 2, cycles: 4, mode: AddressingMode::ZeroPage_X }),
        0x36 => Some(OpCode { code: 0x36, mnemonic: "ROL", len: 2, cycles: 6, mode: AddressingMode::ZeroPage_X }),
        0x37 => Some(OpCode { code: 0x37, mnemonic: "*RLA", len: 2, cycles: 6, mode: AddressingMode::ZeroPage_X }),
        0x38 => Some(OpCode { code: 0x38, mnemonic: "SEC", len: 1, cycles: 2, mode: AddressingMode::NoneAddressing }),
        0x39 => Some(OpCode { code: 0x39, mnemonic: "AND", len: 3, cycles: 4, mode: AddressingMode::Absolute_Y }),
        0x3A => Some(OpCode { code: 0x3A, mnemonic: "*NOP", len: 1, cycles: 2, mode: AddressingMode::NoneAddressing }),
        0x3B => Some(OpCode { code: 0x3B, mnemonic: "*RLA", len: 3, cycles: 7, mode: AddressingMode::Absolute_Y }),
        0x3C => Some(OpCode { code: 0x3C, mnemonic: "*NOP", len: 3, cycles: 4, mode: AddressingMode::Absolute_X }),
        0x3D => Some(OpCode { code: 0x3D, mnemonic: "AND", len: 3, cycles: 4, mode: AddressingMode::Absolute_X }),
        0x3E => Some(OpCode { code: 0x3E, mnemonic: "ROL", len: 3, cycles: 7, mode: AddressingMode::Absolute_X }),
        0x3F => Some(OpCode { code: 0x3F, mnemonic: "*RLA", len: 3, cycles: 7, mode: AddressingMode::Absolute_X }),
        _ => None,
    }
}

/// Row 0x40 of the table.
pub open spec fn row_4(code: u8) -> Option<OpCode> {
    match code {
        0x40 => Some(OpCode { code: 0x40, mnemonic: "RTI", len: 1, cycles: 6, mode: AddressingMode::NoneAddressing }),
        0x41 => Some(OpCode { code: 0x41, mnemonic: "EOR", len: 2, cycles: 6, mode: AddressingMode::Indirect_X }),
        0x43 => Some(OpCode { code: 0x43, mnemonic: "*SRE", len: 2, cycles: 8, mode: AddressingMode::Indirect_X }),
        0x44 => Some(OpCode { code: 0x44, mnemonic: "*NOP", len: 2, cycles: 3, mode: AddressingMode::ZeroPage }),
        0x45 => Some(OpCode { code: 0x45, mnemonic: "EOR", len: 2, cycles: 3, mode: AddressingMode::ZeroPage }),
        0x46 => Some(OpCode { code: 0x46, mnemonic: "LSR", len: 2, cycles: 5, mode: AddressingMode::ZeroPage }),
        0x47 => Some(OpCode { code: 0x47, mnemonic: "*SRE", len: 2, cycles: 5, mode: AddressingMode::ZeroPage }),
        0x48 => Some(OpCode { code: 0x48, mnemonic: "PHA", len: 1, cycles: 3, mode: AddressingMode::NoneAddressing }),
        0x49 => Some(OpCode { code: 0x49, mnemonic: "EOR", len: 2, cycles: 2, mode: AddressingMode::Immediate }),
        0x4A => Some(OpCode { code: 0x4A, mnemonic: "LSR", len: 1, cycles: 2, mode: AddressingMode::NoneAddressing }),
        0x4B => Some(OpCode { code: 0x4B, mnemonic: "*ALR", len: 2, cycles: 1, mode: AddressingMode::Immediate }),
        0x4C => Some(OpCode { code: 0x4C, mnemonic: "JMP", len: 3, cycles: 3, mode: AddressingMode::Absolute }),
        0x4D => Some(OpCode { code: 0x4D, mnemonic: "EOR", len: 3, cycles: 4, mode: AddressingMode::Absolute }),
        0x4E => Some(OpCode { code: 0x4E, mnemonic: "LSR", len: 3, cycles: 6, mode: AddressingMode::Absolute }),
        0x4F => Some(OpCode { code: 0x4F, mnemonic: "*SRE", len: 3, cycles: 6, mode: AddressingMode::Absolute }),
        _ => None,
    }
}

/// Row 0x50 of the table.
pub open spec fn row_5(code: u8) -> Option<OpCode> {
    match code {
        0x50 => Some(OpCode { code: 0x50, mnemonic: "BVC", len: 2, cycles: 2, mode: AddressingMode::NoneAddressing }),
        0x51 => Some(OpCode { code: 0x51, mnemonic: "EOR", len: 2, cycles: 5, mode: AddressingMode::Indirect_Y }),
        0x53 => Some(OpCode { code: 0x53, mnemonic: "*SRE", len: 2, cycles: 8, mode: AddressingMode::Indirect_Y }),
        0x54 => Some(OpCode { code: 0x54, mnemonic: "*NOP", len: 2, cycles: 4, mode: AddressingMode::ZeroPage_X }),
        0x55 => Some(OpCode { code: 0x55, mnemonic: "EOR", len: 2, cycles: 4, mode: AddressingMode::ZeroPage_X }),
        0x56 => Some(OpCode { code: 0x56, mnemonic: "LSR", len: 2, cycles: 6, mode: AddressingMode::ZeroPage_X }),
        0x57 => Some(OpCode { code: 0x57, mnemonic: "*SRE", len: 2, cycles: 6, mode: AddressingMode::ZeroPage_X }),
        0x58 => Some(OpCode { code: 0x58, mnemonic: "CLI", len: 1, cycles: 2, mode: AddressingMode::NoneAddressing }),
        0x59 => Some(OpCode { code: 0x59, mnemonic: "EOR", len: 3, cycles: 4, mode: AddressingMode::Absolute_Y }),
        0x5A => Some(OpCode { code: 0x5A, mnemonic: "*NOP", len: 1, cycles: 2, mode: AddressingMode::NoneAddressing }),
        0x5B => Some(OpCode { code: 0x5B, mnemonic: "*SRE", len: 3, cycles: 7, mode: AddressingMode::Absolute_Y }),
        0x5C => Some(OpCode { code: 0x5C, mnemonic: "*NOP", len: 3, cycles: 4, mode: AddressingMode::Absolute_X }),
        0x5D => Some(OpCode { code: 0x5D, mnemonic: "EOR", len: 3, cycles: 4, mode: AddressingMode::Absolute_X }),
        0x5E => Some(OpCode { code: 0x5E, mnemonic: "LSR", len: 3, cycles: 7, mode: AddressingMode::Absolute_X }),
        0x5F => Some(OpCode { code: 0x5F, mnemonic: "*SRE", len: 3, cycles: 7, mode: AddressingMode::Absolute_X }),
        _ => None,
    }
}

/// Row 0x60 of the table.
pub open spec fn row_6(code: u8) -> Option<OpCode> {
    match code {
        0x60 => Some(OpCode { code: 0x60, mnemonic: "RTS", len: 1, cycles: 6, mode: AddressingMode::NoneAddressing }),
        0x61 => Some(OpCode { code: 0x61, mnemonic: "ADC", len: 2, cycles: 6, mode: AddressingMode::Indirect_X }),
        0x63 => Some(OpCode { code: 0x63, mnemonic: "*RRA", len: 2, cycles: 8, mode: AddressingMode::Indirect_X }),
        0x64 => Some(OpCode { code: 0x64, mnemonic: "*NOP", len: 2, cycles: 3, mode: AddressingMode::ZeroPage }),
        0x65 => Some(OpCode { code: 0x65, mnemonic: "ADC", len: 2, cycles: 3, mode: AddressingMode::ZeroPage }),
        0x66 => Some(OpCode { code: 0x66, mnemonic: "ROR", len: 2, cycles: 5, mode: AddressingMode::ZeroPage }),
        0x67 => Some(OpCode { code: 0x67, mnemonic: "*RRA", len: 2, cycles: 5, mode: AddressingMode::ZeroPage }),
        0x68 => Some(OpCode { code: 0x68, mnemonic: "PLA", len: 1, cycles: 4, mode: AddressingMode::NoneAddressing }),
        0x69 => Some(OpCode { code: 0x69, mnemonic: "ADC", len: 2, cycles: 2, mode: AddressingMode::Immediate }),
        0x6A => Some(OpCode { code: 0x6A, mnemonic: "ROR", len: 1, cycles: 2, mode: AddressingMode::NoneAddressing }),
        0x6C => Some(OpCode { code: 0x6C, mnemonic: "JMP", len: 3, cycles: 5, mode: AddressingMode::NoneAddressing }),
        0x6D => Some(OpCode { code: 0x6D, mnemonic: "ADC", len: 3, cycles: 4, mode: AddressingMode::Absolute }),
        0x6E => Some(OpCode { code: 0x6E, mnemonic: "ROR", len: 3, cycles: 6, mode: AddressingMode::Absolute }),
        0x6F => Some(OpCode { code: 0x6F, mnemonic: "*RRA", len: 3, cycles: 6, mode: AddressingMode::Absolute }),
        _ => None,
    }
}

/// Row 0x70 of the table.
pub open spec fn row_7(code: u8) -> Option<OpCode> {
    match code {
        0x70 => Some(OpCode { code: 0x70, mnemonic: "BVS", len: 2, cycles: 2, mode: AddressingMode::NoneAddressing }),
        0x71 => Some(OpCode { code: 0x71, mnemonic: "ADC", len: 2, cycles: 5, mode: AddressingMode::Indirect_Y }),
        0x73 => Some(OpCode { code: 0x73, mnemonic: "*RRA", len: 2, cycles: 8, mode: AddressingMode::Indirect_Y }),
        0x74 => Some(OpCode { code: 0x74, mnemonic: "*NOP", len: 2, cycles: 4, mode: AddressingMode::ZeroPage_X }),
        0x75 => Some(OpCode { code: 0x75, mnemonic: "ADC", len: 2, cycles: 4, mode: AddressingMode::ZeroPage_X }),
        0x76 => Some(OpCode { code: 0x76, mnemonic: "ROR", len: 2, cycles: 6, mode: AddressingMode::ZeroPage_X }),
        0x77 => Some(OpCode { code: 0x77, mnemonic: "*RRA", len: 2, cycles: 6, mode: AddressingMode::ZeroPage_X }),
        0x78 => Some(OpCode { code: 0x78, mnemonic: "SEI", len: 1, cycles: 2, mode: AddressingMode::NoneAddressing }),
        0x79 => Some(OpCode { code: 0x79, mnemonic: "ADC", len: 3, cycles: 4, mode: AddressingMode::Absolute_Y }),
        0x7A => Some(OpCode { code: 0x7A, mnemonic: "*NOP", len: 1, cycles: 2, mode: AddressingMode::NoneAddressing }),
        0x7B => Some(OpCode { code: 0x7B, mnemonic: "*RRA", len: 3, cycles: 7, mode: AddressingMode::Absolute_Y }),
        0x7C => Some(OpCode { code: 0x7C, mnemonic: "*NOP", len: 3, cycles: 4, mode: AddressingMode::Absolute_X }),
        0x7D => Some(OpCode { code: 0x7D, mnemonic: "ADC", len: 3, cycles: 4, mode: AddressingMode::Absolute_X }),
        0x7E => Some(OpCode { code: 0x7E, mnemonic: "ROR", len: 3, cycles: 7, mode: AddressingMode::Absolute_X }),
        0x7F => Some(OpCode { code: 0x7F, mnemonic: "*RRA", len: 3, cycles: 7, mode: AddressingMode::Absolute_X }),
        _ => None,
    }
}

/// Row 0x80 of the table.
pub open spec fn row_8(code: u8) -> Option<OpCode> {
    match code {
        0x80 => Some(OpCode { code: 0x80, mnemonic: "*NOP", len: 2, cycles: 2, mode: AddressingMode::Immediate }),
        0x81 => Some(OpCode { code: 0x81, mnemonic: "STA", len: 2, cycles: 6, mode: AddressingMode::Indirect_X }),
        0x82 => Some(OpCode { code: 0x82, mnemonic: "*NOP", len: 2, cycles: 2, mode: AddressingMode::Immediate }),
        0x83 => Some(OpCode { code: 0x83, mnemonic: "*SAX", len: 2, cycles: 6, mode: AddressingMode::Indirect_X }),
        0x84 => Some(OpCode { code: 0x84, mnemonic: "STY", len: 2, cycles: 3, mode: AddressingMode::ZeroPage }),
        0x85 => Some(OpCode { code: 0x85, mnemonic: "STA", len: 2, cycles: 3, mode: AddressingMode::ZeroPage }),
        0x86 => Some(OpCode { code: 0x86, mnemonic: "STX", len: 2, cycles: 3, mode: AddressingMode::ZeroPage }),
        0x87 => Some(OpCode { code: 0x87, mnemonic: "*SAX", len: 2, cycles: 3, mode: AddressingMode::ZeroPage }),
        0x88 => Some(OpCode { code: 0x88, mnemonic: "DEY", len: 1, cycles: 2, mode: AddressingMode::NoneAddressing }),
        0x89 => Some(OpCode { code: 0x89, mnemonic: "*NOP", len: 2, cycles: 2, mode: AddressingMode::Immediate }),
        0x8A => Some(OpCode { code: 0x8A, mnemonic: "TXA", len: 1, cycles: 2, mode: AddressingMode::NoneAddressing }),
        0x8C => Some(OpCode { code: 0x8C, mnemonic: "STY", len: 3, cycles: 4, mode: AddressingMode::Absolute }),
        0x8D => Some(OpCode { code: 0x8D, mnemonic: "STA", len: 3, cycles: 4, mode: AddressingMode::Absolute }),
        0x8E => Some(OpCode { code: 0x8E, mnemonic: "STX", len: 3, cycles: 4, mode: AddressingMode::Absolute }),
        0x8F => Some(OpCode { code: 0x8F, mnemonic: "*SAX", len: 3, cycles: 4, mode: AddressingMode::Absolute }),
        _ => None,
    }
}

/// Row 0x90 of the table.
pub open spec fn row_9(code: u8) -> Option<OpCode> {
    match code {
        0x90 => Some(OpCode { code: 0x90, mnemonic: "BCC", len: 2, cycles: 2, mode: AddressingMode::NoneAddressing }),
        0x91 => Some(OpCode { code: 0x91, mnemonic: "STA", len: 2, cycles: 6, mode: AddressingMode::Indirect_Y }),
        0x94 => Some(OpCode { code: 0x94, mnemonic: "STY", len: 2, cycles: 4, mode: AddressingMode::ZeroPage_X }),
        0x95 => Some(OpCode { code: 0x95, mnemonic: "STA", len: 2, cycles: 4, mode: AddressingMode::ZeroPage_X }),
        0x96 => Some(OpCode { code: 0x96, mnemonic: "STX", len: 2, cycles: 4, mode: AddressingMode::ZeroPage_Y }),
        0x97 => Some(OpCode { code: 0x97, mnemonic: "*SAX", len: 2, cycles: 4, mode: AddressingMode::ZeroPage_Y }),
        0x98 => Some(OpCode { code: 0x98, mnemonic: "TYA", len: 1, cycles: 2, mode: AddressingMode::NoneAddressing }),
        0x99 => Some(OpCode { code: 0x99, mnemonic: "STA", len: 3, cycles: 5, mode: AddressingMode::Absolute_Y }),
        0x9A => Some(OpCode { code: 0x9A, mnemonic: "TXS", len: 1, cycles: 2, mode: AddressingMode::NoneAddressing }),
        0x9D => Some(OpCode { code: 0x9D, mnemonic: "STA", len: 3, cycles: 5, mode: AddressingMode::Absolute_X }),
        _ => None,
    }
}

/// Row 0xA0 of the table.
pub open spec fn row_a(code: u8) -> Option<OpCode> {
    match code {
        0xA0 => Some(OpCode { code: 0xA0, mnemonic: "LDY", len: 2, cycles: 2, mode: AddressingMode::Immediate }),
        0xA1 => Some(OpCode { code: 0xA1, mnemonic: "LDA", len: 2, cycles: 6, mode: AddressingMode::Indirect_X }),
        0xA2 => Some(OpCode { code: 0xA2, mnemonic: "LDX", len: 2, cycles: 2, mode: AddressingMode::Immediate }),
        0xA3 => Some(OpCode { code: 0xA3, mnemonic: "*LAX", len: 2, cycles: 6, mode: AddressingMode::Indirect_X }),
        0xA4 => Some(OpCode { code: 0xA4, mnemonic: "LDY", len: 2, cycles: 3, mode: AddressingMode::ZeroPage }),
        0xA5 => Some(OpCode { code: 0xA5, mnemonic: "LDA", len: 2, cycles: 3, mode: AddressingMode::ZeroPage }),
        0xA6 => Some(OpCode { code: 0xA6, mnemonic: "LDX", len: 2, cycles: 3, mode: AddressingMode::ZeroPage }),
        0xA7 => Some(OpCode { code: 0xA7, mnemonic: "*LAX", len: 2, cycles: 3, mode: AddressingMode::ZeroPage }),
        0xA8 => Some(OpCode { code: 0xA8, mnemonic: "TAY", len: 1, cycles: 2, mode: AddressingMode::NoneAddressing }),
        0xA9 => Some(OpCode { code: 0xA9, mnemonic: "LDA", len: 2, cycles: 2, mode: AddressingMode::Immediate }),
        0xAA => Some(OpCode { code: 0xAA, mnemonic: "TAX", len: 1, cycles: 2, mode: AddressingMode::NoneAddressing }),
        0xAC => Some(OpCode { code: 0xAC, mnemonic: "LDY", len: 3, cycles: 4, mode: AddressingMode::Absolute }),
        0xAD => Some(OpCode { code: 0xAD, mnemonic: "LDA", len: 3, cycles: 4, mode: AddressingMode::Absolute }),
        0xAE => Some(OpCode { code: 0xAE, mnemonic: "LDX", len: 3, cycles: 4, mode: AddressingMode::Absolute }),
        0xAF => Some(OpCode { code: 0xAF, mnemonic: "*LAX", len: 3, cycles: 4, mode: AddressingMode::Absolute }),
        _ => None,
    }
}

/// Row 0xB0 of the table.
pub open spec fn row_b(code: u8) -> Option<OpCode> {
    match code {
        0xB0 => Some(OpCode { code: 0xB0, mnemonic: "BCS", len: 2, cycles: 2, mode: AddressingMode::NoneAddressing }),
        0xB1 => Some(OpCode { code: 0xB1, mnemonic: "LDA", len: 2, cycles: 5, mode: AddressingMode::Indirect_Y }),
        0xB3 => Some(OpCode { code: 0xB3, mnemonic: "*LAX", len: 2, cycles: 5, mode: AddressingMode::Indirect_Y }),
        0xB4 => Some(OpCode { code: 0xB4, mnemonic: "LDY", len: 2, cycles: 4, mode: AddressingMode::ZeroPage_X }),
        0xB5 => Some(OpCode { code: 0xB5, mnemonic: "LDA", len: 2, cycles: 4, mode: AddressingMode::ZeroPage_X }),
        0xB6 => Some(OpCode { code: 0xB6, mnemonic: "LDX", len: 2, cycles: 4, mode: AddressingMode::ZeroPage_Y }),
        0xB7 => Some(OpCode { code: 0xB7, mnemonic: "*LAX", len: 2, cycles: 4, mode: AddressingMode::ZeroPage_Y }),
        0xB8 => Some(OpCode { code: 0xB8, mnemonic: "CLV", len: 1, cycles: 2, mode: AddressingMode::NoneAddressing }),
        0xB9 => Some(OpCode { code: 0xB9, mnemonic: "LDA", len: 3, cycles: 4, mode: AddressingMode::Absolute_Y }),
        0xBA => Some(OpCode { code: 0xBA, mnemonic: "TSX", len: 1, cycles: 2, mode: AddressingMode::NoneAddressing }),
        0xBC => Some(OpCode { code: 0xBC, mnemonic: "LDY", len: 3, cycles: 4, mode: AddressingMode::Absolute_X }),
        0xBD => Some(OpCode { code: 0xBD, mnemonic: "LDA", len: 3, cycles: 4, mode: AddressingMode::Absolute_X }),
        0xBE => Some(OpCode { code: 0xBE, mnemonic: "LDX", len: 3, cycles: 4, mode: AddressingMode::Absolute_Y }),
        0xBF => Some(OpCode { code: 0xBF, mnemonic: "*LAX", len: 3, cycles: 4, mode: AddressingMode::Absolute_Y }),
        _ => None,
    }
}

/// Row 0xC0 of the table.
pub open spec fn row_c(code: u8) -> Option<OpCode> {
    match code {
        0xC0 => Some(OpCode { code: 0xC0, mnemonic: "CPY", len: 2, cycles: 2, mode: AddressingMode::Immediate }),
        0xC1 => Some(OpCode { code: 0xC1, mnemonic: "CMP", len: 2, cycles: 6, mode: AddressingMode::Indirect_X }),
        0xC2 => Some(OpCode { code: 0xC2, mnemonic: "*NOP", len: 2, cycles: 2, mode: AddressingMode::Immediate }),
        0xC3 => Some(OpCode { code: 0xC3, mnemonic: "*DCP", len: 2, cycles: 8, mode: AddressingMode::Indirect_X }),
        0xC4 => Some(OpCode { code: 0xC4, mnemonic: "CPY", len: 2, cycles: 3, mode: AddressingMode::ZeroPage }),
        0xC5 => Some(OpCode { code: 0xC5, mnemonic: "CMP", len: 2, cycles: 3, mode: AddressingMode::ZeroPage }),
        0xC6 => Some(OpCode { code: 0xC6, mnemonic: "DEC", len: 2, cycles: 5, mode: AddressingMode::ZeroPage }),
        0xC7 => Some(OpCode { code: 0xC7, mnemonic: "*DCP", len: 2, cycles: 5, mode: AddressingMode::ZeroPage }),
        0xC8 => Some(OpCode { code: 0xC8, mnemonic: "INY", len: 1, cycles: 2, mode: AddressingMode::NoneAddressing }),
        0xC9 => Some(OpCode { code: 0xC9, mnemonic: "CMP", len: 2, cycles: 2, mode: AddressingMode::Immediate }),
        0xCA => Some(OpCode { code: 0xCA, mnemonic: "DEX", len: 1, cycles: 2, mode: AddressingMode::NoneAddressing }),
        0xCC => Some(OpCode { code: 0xCC, mnemonic: "CPY", len: 3, cycles: 4, mode: AddressingMode::Absolute }),
        0xCD => Some(OpCode { code: 0xCD, mnemonic: "CMP", len: 3, cycles: 4, mode: AddressingMode::Absolute }),
        0xCE => Some(OpCode { code: 0xCE, mnemonic: "DEC", len: 3, cycles: 6, mode: AddressingMode::Absolute }),
        0xCF => Some(OpCode { code: 0xCF, mnemonic: "*DCP", len: 3, cycles: 6, mode: AddressingMode::Absolute }),
        _ => None,
    }
}

/// Row 0xD0 of the table.
pub open spec fn row_d(code: u8) -> Option<OpCode> {
    match code {
        0xD0 => Some(OpCode { code: 0xD0, mnemonic: "BNE", len: 2, cycles: 2, mode: AddressingMode::NoneAddressing }),
        0xD1 => Some(OpCode { code: 0xD1, mnemonic: "CMP", len: 2, cycles: 5, mode: AddressingMode::Indirect_Y }),
        0xD3 => Some(OpCode { code: 0xD3, mnemonic: "*DCP", len: 2, cycles: 8, mode: AddressingMode::Indirect_Y }),
        0xD4 => Some(OpCode { code: 0xD4, mnemonic: "*NOP", len: 2, cycles: 4, mode: AddressingMode::ZeroPage_X }),
        0xD5 => Some(OpCode { code: 0xD5, mnemonic: "CMP", len: 2, cycles: 4, mode: AddressingMode::ZeroPage_X }),
        0xD6 => Some(OpCode { code: 0xD6, mnemonic: "DEC", len: 2, cycles: 6, mode: AddressingMode::ZeroPage_X }),
        0xD7 => Some(OpCode { code: 0xD7, mnemonic: "*DCP", len: 2, cycles: 6, mode: AddressingMode::ZeroPage_X }),
        0xD8 => Some(OpCode { code: 0xD8, mnemonic: "CLD", len: 1, cycles: 2, mode: AddressingMode::NoneAddressing }),
        0xD9 => Some(OpCode { code: 0xD9, mnemonic: "CMP", len: 3, cycles: 4, mode: AddressingMode::Absolute_Y }),
        0xDA => Some(OpCode { code: 0xDA, mnemonic: "*NOP", len: 1, cycles: 2, mode: AddressingMode::NoneAddressing }),
        0xDB => Some(OpCode { code: 0xDB, mnemonic: "*DCP", len: 3, cycles: 7, mode: AddressingMode::Absolute_Y }),
        0xDC => Some(OpCode { code: 0xDC, mnemonic: "*NOP", len: 3, cycles: 4, mode: AddressingMode::Absolute_X }),
        0xDD => Some(OpCode { code: 0xDD, mnemonic: "CMP", len: 3, cycles: 4, mode: AddressingMode::Absolute_X }),
        0xDE => Some(OpCode { code: 0xDE, mnemonic: "DEC", len: 3, cycles: 7, mode: AddressingMode::Absolute_X }),
        0xDF => Some(OpCode { code: 0xDF, mnemonic: "*DCP", len: 3, cycles: 7, mode: AddressingMode::Absolute_X }),
        _ => None,
    }
}

/// Row 0xE0 of the table.
pub open spec fn row_e(code: u8) -> Option<OpCode> {
    match code {
        0xE0 => Some(OpCode { code: 0xE0, mnemonic: "CPX", len: 2, cycles: 2, mode: AddressingMode::Immediate }),
        0xE1 => Some(OpCode { code: 0xE1, mnemonic: "SBC", len: 2, cycles: 6, mode: AddressingMode::Indirect_X }),
        0xE2 => Some(OpCode { code: 0xE2, mnemonic: "*NOP", len: 2, cycles: 2, mode: AddressingMode::Immediate }),
        0xE3 => Some(OpCode { code: 0xE3, mnemonic: "*ISB", len: 2, cycles: 8, mode: AddressingMode::Indirect_X }),
        0xE4 => Some(OpCode { code: 0xE4, mnemonic: "CPX", len: 2, cycles: 3, mode: AddressingMode::ZeroPage }),
        0xE5 => Some(OpCode { code: 0xE5, mnemonic: "SBC", len: 2, cycles: 3, mode: AddressingMode::ZeroPage }),
        0xE6 => Some(OpCode { code: 0xE6, mnemonic: "INC", len: 2, cycles: 5, mode: AddressingMode::ZeroPage }),
        0xE7 => Some(OpCode { code: 0xE7, mnemonic: "*ISB", len: 2, cycles: 5, mode: AddressingMode::ZeroPage }),
        0xE8 => Some(OpCode { code: 0xE8, mnemonic: "INX", len: 1, cycles: 2, mode: AddressingMode::NoneAddressing }),
        0xE9 => Some(OpCode { code: 0xE9, mnemonic: "SBC", len: 2, cycles: 2, mode: AddressingMode::Immediate }),
        0xEA => Some(OpCode { code: 0xEA, mnemonic: "NOP", len: 1, cycles: 2, mode: AddressingMode::NoneAddressing }),
        0xEB => Some(OpCode { code: 0xEB, mnemonic: "*SBC", len: 2, cycles: 2, mode: AddressingMode::Immediate }),
        0xEC => Some(OpCode { code: 0xEC, mnemonic: "CPX", len: 3, cycles: 4, mode: AddressingMode::Absolute }),
        0xED => Some(OpCode { code: 0xED, mnemonic: "SBC", len: 3, cycles: 4, mode: AddressingMode::Absolute }),
        0xEE => Some(OpCode { code: 0xEE, mnemonic: "INC", len: 3, cycles: 6, mode: AddressingMode::Absolute }),
        0xEF => Some(OpCode { code: 0xEF, mnemonic: "*ISB", len: 3, cycles: 6, mode: AddressingMode::Absolute }),
        _ => None,
    }
}

/// Row 0xF0 of the table.
pub open spec fn row_f(code: u8) -> Option<OpCode> {
    match code {
        0xF0 => Some(OpCode { code: 0xF0, mnemonic: "BEQ", len: 2, cycles: 2, mode: AddressingMode::NoneAddressing }),
        0xF1 => Some(OpCode { code: 0xF1, mnemonic: "SBC", len: 2, cycles: 5, mode: AddressingMode::Indirect_Y }),
        0xF3 => Some(OpCode { code: 0xF3, mnemonic: "*ISB", len: 2, cycles: 8, mode: AddressingMode::Indirect_Y }),
        0xF4 => Some(OpCode { code: 0xF4, mnemonic: "*NOP", len: 2, cycles: 4, mode: AddressingMode::ZeroPage_X }),
        0xF5 => Some(OpCode { code: 0xF5, mnemonic: "SBC", len: 2, cycles: 4, mode: AddressingMode::ZeroPage_X }),
        0xF6 => Some(OpCode { code: 0xF6, mnemonic: "INC", len: 2, cycles: 6, mode: AddressingMode::ZeroPage_X }),
        0xF7 => Some(OpCode { code: 0xF7, mnemonic: "*ISB", len: 2, cycles: 6, mode: AddressingMode::ZeroPage_X }),
        0xF8 => Some(OpCode { code: 0xF8, mnemonic: "SED", len: 1, cycles: 2, mode: AddressingMode::NoneAddressing }),
        0xF9 => Some(OpCode { code: 0xF9, mnemonic: "SBC", len: 3, cycles: 4, mode: AddressingMode::Absolute_Y }),
        0xFA => Some(OpCode { code: 0xFA, mnemonic: "*NOP", len: 1, cycles: 2, mode: AddressingMode::NoneAddressing }),
        0xFB => Some(OpCode { code: 0xFB, mnemonic: "*ISB", len: 3, cycles: 7, mode: AddressingMode::Absolute_Y }),
        0xFC => Some(OpCode { code: 0xFC, mnemonic: "*NOP", len: 3, cycles: 4, mode: AddressingMode::Absolute_X }),
        0xFD => Some(OpCode { code: 0xFD, mnemonic: "SBC", len: 3, cycles: 4, mode: AddressingMode::Absolute_X }),
        0xFE => Some(OpCode { code: 0xFE, mnemonic: "INC", len: 3, cycles: 7, mode: AddressingMode::Absolute_X }),
        0xFF => Some(OpCode { code: 0xFF, mnemonic: "*ISB", len: 3, cycles: 7, mode: AddressingMode::Absolute_X }),
        _ => None,
    }
}

fn lookup_row_0(code: u8) -> (op: Option<OpCode>)
    ensures
        op == row_0(code),
{
    match code {
        0x00 => Some(OpCode::new(0x00, "BRK", 1, 7, AddressingMode::NoneAddressing)),
        0x01 => Some(OpCode::new(0x01, "ORA", 2, 6, AddressingMode::Indirect_X)),
        0x03 => Some(OpCode::new(0x03, "*SLO", 2, 8, AddressingMode::Indirect_X)),
        0x04 => Some(OpCode::new(0x04, "*NOP", 2, 3, AddressingMode::ZeroPage)),
        0x05 => Some(OpCode::new(0x05, "ORA", 2, 3, AddressingMode::ZeroPage)),
        0x06 => Some(OpCode::new(0x06, "ASL", 2, 5, AddressingMode::ZeroPage)),
        0x07 => Some(OpCode::new(0x07, "*SLO", 2, 5, AddressingMode::ZeroPage)),
        0x08 => Some(OpCode::new(0x08, "PHP", 1, 3, AddressingMode::NoneAddressing)),
        0x09 => Some(OpCode::new(0x09, "ORA", 2, 2, AddressingMode::Immediate)),
        0x0A => Some(OpCode::new(0x0A, "ASL", 1, 2, AddressingMode::NoneAddressing)),
        0x0B => Some(OpCode::new(0x0B, "ANC", 2, 2, AddressingMode::Immediate)),
        0x0C => Some(OpCode::new(0x0C, "*NOP", 3, 4, AddressingMode::Absolute)),
        0x0D => Some(OpCode::new(0x0D, "ORA", 3, 4, AddressingMode::Absolute)),
        0x0E => Some(OpCode::new(0x0E, "ASL", 3, 6, AddressingMode::Absolute)),
        0x0F => Some(OpCode::new(0x0F, "*SLO", 3, 6, AddressingMode::Absolute)),
        _ => None,
    }
}

fn lookup_row_1(code: u8) -> (op: Option<OpCode>)
    ensures
        op == row_1(code),
{
    match code {
        0x10 => Some(OpCode::new(0x10, "BPL", 2, 2, AddressingMode::NoneAddressing)),
        0x11 => Some(OpCode::new(0x11, "ORA", 2, 5, AddressingMode::Indirect_Y)),
        0x13 => Some(OpCode::new(0x13, "*SLO", 2, 8, AddressingMode::Indirect_Y)),
        0x14 => Some(OpCode::new(0x14, "*NOP", 2, 4, AddressingMode::ZeroPage_X)),
        0x15 => Some(OpCode::new(0x15, "ORA", 2, 4, AddressingMode::ZeroPage_X)),
        0x16 => Some(OpCode::new(0x16, "ASL", 2, 6, AddressingMode::ZeroPage_X)),
        0x17 => Some(OpCode::new(0x17, "*SLO", 2, 6, AddressingMode::ZeroPage_X)),
        0x18 => Some(OpCode::new(0x18, "CLC", 1, 2, AddressingMode::NoneAddressing)),
        0x19 => Some(OpCode::new(0x19, "ORA", 3, 4, AddressingMode::Absolute_Y)),
        0x1A => Some(OpCode::new(0x1A, "*NOP", 1, 2, AddressingMode::NoneAddressing)),
        0x1B => Some(OpCode::new(0x1B, "*SLO", 3, 7, AddressingMode::Absolute_Y)),
        0x1C => Some(OpCode::new(0x1C, "*NOP", 3, 4, AddressingMode::Absolute_X)),
        0x1D => Some(OpCode::new(0x1D, "ORA", 3, 4, AddressingMode::Absolute_X)),
        0x1E => Some(OpCode::new(0x1E, "ASL", 3, 7, AddressingMode::Absolute_X)),
        0x1F => Some(OpCode::new(0x1F, "*SLO", 3, 7, AddressingMode::Absolute_X)),
        _ => None,
    }
}

fn lookup_row_2(code: u8) -> (op: Option<OpCode>)
    ensures
        op == row_2(code),
{
    match code {
        0x20 => Some(OpCode::new(0x20, "JSR", 3, 6, AddressingMode::Absolute)),
        0x21 => Some(OpCode::new(0x21, "AND", 2, 6, AddressingMode::Indirect_X)),
        0x23 => Some(OpCode::new(0x23, "*RLA", 2, 8, AddressingMode::Indirect_X)),
        0x24 => Some(OpCode::new(0x24, "BIT", 2, 3, AddressingMode::ZeroPage)),
        0x25 => Some(OpCode::new(0x25, "AND", 2, 3, AddressingMode::ZeroPage)),
        0x26 => Some(OpCode::new(0x26, "ROL", 2, 5, AddressingMode::ZeroPage)),
        0x27 => Some(OpCode::new(0x27, "*RLA", 2, 5, AddressingMode::ZeroPage)),
        0x28 => Some(OpCode::new(0x28, "PLP", 1, 4, AddressingMode::NoneAddressing)),
        0x29 => Some(OpCode::new(0x29, "AND", 2, 2, AddressingMode::Immediate)),
        0x2A => Some(OpCode::new(0x2A, "ROL", 1, 2, AddressingMode::NoneAddressing)),
        0x2B => Some(OpCode::new(0x2B, "ANC", 2, 2, AddressingMode::Immediate)),
        0x2C => Some(OpCode::new(0x2C, "BIT", 3, 4, AddressingMode::Absolute)),
        0x2D => Some(OpCode::new(0x2D, "AND", 3, 4, AddressingMode::Absolute)),
        0x2E => Some(OpCode::new(0x2E, "ROL", 3, 6, AddressingMode::Absolute)),
        0x2F => Some(OpCode::new(0x2F, "*RLA", 3, 6, AddressingMode::Absolute)),
        _ => None,
    }
}

fn lookup_row_3(code: u8) -> (op: Option<OpCode>)
    ensures
        op == row_3(code),
{
    match code {
        0x30 => Some(OpCode::new(0x30, "BMI", 2, 2, AddressingMode::NoneAddressing)),
        0x31 => Some(OpCode::new(0x31, "AND", 2, 5, AddressingMode::Indirect_Y)),
        0x33 => Some(OpCode::new(0x33, "*RLA", 2, 8, AddressingMode::Indirect_Y)),
        0x34 => Some(OpCode::new(0x34, "*NOP", 2, 4, AddressingMode::ZeroPage_X)),
        0x35 => Some(OpCode::new(0x35, "AND", 2, 4, AddressingMode::ZeroPage_X)),
        0x36 => Some(OpCode::new(0x36, "ROL", 2, 6, AddressingMode::ZeroPage_X)),
        0x37 => Some(OpCode::new(0x37, "*RLA", 2, 6, AddressingMode::ZeroPage_X)),
        0x38 => Some(OpCode::new(0x38, "SEC", 1, 2, AddressingMode::NoneAddressing)),
        0x39 => Some(OpCode::new(0x39, "AND", 3, 4, AddressingMode::Absolute_Y)),
        0x3A => Some(OpCode::new(0x3A, "*NOP", 1, 2, AddressingMode::NoneAddressing)),
        0x3B => Some(OpCode::new(0x3B, "*RLA", 3, 7, AddressingMode::Absolute_Y)),
        0x3C => Some(OpCode::new(0x3C, "*NOP", 3, 4, AddressingMode::Absolute_X)),
        0x3D => Some(OpCode::new(0x3D, "AND", 3, 4, AddressingMode::Absolute_X)),
        0x3E => Some(OpCode::new(0x3E, "ROL", 3, 7, AddressingMode::Absolute_X)),
        0x3F => Some(OpCode::new(0x3F, "*RLA", 3, 7, AddressingMode::Absolute_X)),
        _ => None,
    }
}

fn lookup_row_4(code: u8) -> (op: Option<OpCode>)
    ensures
        op == row_4(code),
{
    match code {
        0x40 => Some(OpCode::new(0x40, "RTI", 1, 6, AddressingMode::NoneAddressing)),
        0x41 => Some(OpCode::new(0x41, "EOR", 2, 6, AddressingMode::Indirect_X)),
        0x43 => Some(OpCode::new(0x43, "*SRE", 2, 8, AddressingMode::Indirect_X)),
        0x44 => Some(OpCode::new(0x44, "*NOP", 2, 3, AddressingMode::ZeroPage)),
        0x45 => Some(OpCode::new(0x45, "EOR", 2, 3, AddressingMode::ZeroPage)),
        0x46 => Some(OpCode::new(0x46, "LSR", 2, 5, AddressingMode::ZeroPage)),
        0x47 => Some(OpCode::new(0x47, "*SRE", 2, 5, AddressingMode::ZeroPage)),
        0x48 => Some(OpCode::new(0x48, "PHA", 1, 3, AddressingMode::NoneAddressing)),
        0x49 => Some(OpCode::new(0x49, "EOR", 2, 2, AddressingMode::Immediate)),
        0x4A => Some(OpCode::new(0x4A, "LSR", 1, 2, AddressingMode::NoneAddressing)),
        0x4B => Some(OpCode::new(0x4B, "*ALR", 2, 1, AddressingMode::Immediate)),
        0x4C => Some(OpCode::new(0x4C, "JMP", 3, 3, AddressingMode::Absolute)),
        0x4D => Some(OpCode::new(0x4D, "EOR", 3, 4, AddressingMode::Absolute)),
        0x4E => Some(OpCode::new(0x4E, "LSR", 3, 6, AddressingMode::Absolute)),
        0x4F => Some(OpCode::new(0x4F, "*SRE", 3, 6, AddressingMode::Absolute)),
        _ => None,
    }
}

fn lookup_row_5(code: u8) -> (op: Option<OpCode>)
    ensures
        op == row_5(code),
{
    match code {
        0x50 => Some(OpCode::new(0x50, "BVC", 2, 2, AddressingMode::NoneAddressing)),
        0x51 => Some(OpCode::new(0x51, "EOR", 2, 5, AddressingMode::Indirect_Y)),
        0x53 => Some(OpCode::new(0x53, "*SRE", 2, 8, AddressingMode::Indirect_Y)),
        0x54 => Some(OpCode::new(0x54, "*NOP", 2, 4, AddressingMode::ZeroPage_X)),
        0x55 => Some(OpCode::new(0x55, "EOR", 2, 4, AddressingMode::ZeroPage_X)),
        0x56 => Some(OpCode::new(0x56, "LSR", 2, 6, AddressingMode::ZeroPage_X)),
        0x57 => Some(OpCode::new(0x57, "*SRE", 2, 6, AddressingMode::ZeroPage_X)),
        0x58 => Some(OpCode::new(0x58, "CLI", 1, 2, AddressingMode::NoneAddressing)),
        0x59 => Some(OpCode::new(0x59, "EOR", 3, 4, AddressingMode::Absolute_Y)),
        0x5A => Some(OpCode::new(0x5A, "*NOP", 1, 2, AddressingMode::NoneAddressing)),
        0x5B => Some(OpCode::new(0x5B, "*SRE", 3, 7, AddressingMode::Absolute_Y)),
        0x5C => Some(OpCode::new(0x5C, "*NOP", 3, 4, AddressingMode::Absolute_X)),
        0x5D => Some(OpCode::new(0x5D, "EOR", 3, 4, AddressingMode::Absolute_X)),
        0x5E => Some(OpCode::new(0x5E, "LSR", 3, 7, AddressingMode::Absolute_X)),
        0x5F => Some(OpCode::new(0x5F, "*SRE", 3, 7, AddressingMode::Absolute_X)),
        _ => None,
    }
}

fn lookup_row_6(code: u8) -> (op: Option<OpCode>)
    ensures
        op == row_6(code),
{
    match code {
        0x60 => Some(OpCode::new(0x60, "RTS", 1, 6, AddressingMode::NoneAddressing)),
        0x61 => Some(OpCode::new(0x61, "ADC", 2, 6, AddressingMode::Indirect_X)),
        0x63 => Some(OpCode::new(0x63, "*RRA", 2, 8, AddressingMode::Indirect_X)),
        0x64 => Some(OpCode::new(0x64, "*NOP", 2, 3, AddressingMode::ZeroPage)),
        0x65 => Some(OpCode::new(0x65, "ADC", 2, 3, AddressingMode::ZeroPage)),
        0x66 => Some(OpCode::new(0x66, "ROR", 2, 5, AddressingMode::ZeroPage)),
        0x67 => Some(OpCode::new(0x67, "*RRA", 2, 5, AddressingMode::ZeroPage)),
        0x68 => Some(OpCode::new(0x68, "PLA", 1, 4, AddressingMode::NoneAddressing)),
        0x69 => Some(OpCode::new(0x69, "ADC", 2, 2, AddressingMode::Immediate)),
        0x6A => Some(OpCode::new(0x6A, "ROR", 1, 2, AddressingMode::NoneAddressing)),
        0x6C => Some(OpCode::new(0x6C, "JMP", 3, 5, AddressingMode::NoneAddressing)),
        0x6D => Some(OpCode::new(0x6D, "ADC", 3, 4, AddressingMode::Absolute)),
        0x6E => Some(OpCode::new(0x6E, "ROR", 3, 6, AddressingMode::Absolute)),
        0x6F => Some(OpCode::new(0x6F, "*RRA", 3, 6, AddressingMode::Absolute)),
        _ => None,
    }
}

fn lookup_row_7(code: u8) -> (op: Option<OpCode>)
    ensures
        op == row_7(code),
{
    match code {
        0x70 => Some(OpCode::new(0x70, "BVS", 2, 2, AddressingMode::NoneAddressing)),
        0x71 => Some(OpCode::new(0x71, "ADC", 2, 5, AddressingMode::Indirect_Y)),
        0x73 => Some(OpCode::new(0x73, "*RRA", 2, 8, AddressingMode::Indirect_Y)),
        0x74 => Some(OpCode::new(0x74, "*NOP", 2, 4, AddressingMode::ZeroPage_X)),
        0x75 => Some(OpCode::new(0x75, "ADC", 2, 4, AddressingMode::ZeroPage_X)),
        0x76 => Some(OpCode::new(0x76, "ROR", 2, 6, AddressingMode::ZeroPage_X)),
        0x77 => Some(OpCode::new(0x77, "*RRA", 2, 6, AddressingMode::ZeroPage_X)),
        0x78 => Some(OpCode::new(0x78, "SEI", 1, 2, AddressingMode::NoneAddressing)),
        0x79 => Some(OpCode::new(0x79, "ADC", 3, 4, AddressingMode::Absolute_Y)),
        0x7A => Some(OpCode::new(0x7A, "*NOP", 1, 2, AddressingMode::NoneAddressing)),
        0x7B => Some(OpCode::new(0x7B, "*RRA", 3, 7, AddressingMode::Absolute_Y)),
        0x7C => Some(OpCode::new(0x7C, "*NOP", 3, 4, AddressingMode::Absolute_X)),
        0x7D => Some(OpCode::new(0x7D, "ADC", 3, 4, AddressingMode::Absolute_X)),
        0x7E => Some(OpCode::new(0x7E, "ROR", 3, 7, AddressingMode::Absolute_X)),
        0x7F => Some(OpCode::new(0x7F, "*RRA", 3, 7, AddressingMode::Absolute_X)),
        _ => None,
    }
}

fn lookup_row_8(code: u8) -> (op: Option<OpCode>)
    ensures
        op == row_8(code),
{
    match code {
        0x80 => Some(OpCode::new(0x80, "*NOP", 2, 2, AddressingMode::Immediate)),
        0x81 => Some(OpCode::new(0x81, "STA", 2, 6, AddressingMode::Indirect_X)),
        0x82 => Some(OpCode::new(0x82, "*NOP", 2, 2, AddressingMode::Immediate)),
        0x83 => Some(OpCode::new(0x83, "*SAX", 2, 6, AddressingMode::Indirect_X)),
        0x84 => Some(OpCode::new(0x84, "STY", 2, 3, AddressingMode::ZeroPage)),
        0x85 => Some(OpCode::new(0x85, "STA", 2, 3, AddressingMode::ZeroPage)),
        0x86 => Some(OpCode::new(0x86, "STX", 2, 3, AddressingMode::ZeroPage)),
        0x87 => Some(OpCode::new(0x87, "*SAX", 2, 3, AddressingMode::ZeroPage)),
        0x88 => Some(OpCode::new(0x88, "DEY", 1, 2, AddressingMode::NoneAddressing)),
        0x89 => Some(OpCode::new(0x89, "*NOP", 2, 2, AddressingMode::Immediate)),
        0x8A => Some(OpCode::new(0x8A, "TXA", 1, 2, AddressingMode::NoneAddressing)),
        0x8C => Some(OpCode::new(0x8C, "STY", 3, 4, AddressingMode::Absolute)),
        0x8D => Some(OpCode::new(0x8D, "STA", 3, 4, AddressingMode::Absolute)),
        0x8E => Some(OpCode::new(0x8E, "STX", 3, 4, AddressingMode::Absolute)),
        0x8F => Some(OpCode::new(0x8F, "*SAX", 3, 4, AddressingMode::Absolute)),
        _ => None,
    }
}

fn lookup_row_9(code: u8) -> (op: Option<OpCode>)
    ensures
        op == row_9(code),
{
    match code {
        0x90 => Some(OpCode::new(0x90, "BCC", 2, 2, AddressingMode::NoneAddressing)),
        0x91 => Some(OpCode::new(0x91, "STA", 2, 6, AddressingMode::Indirect_Y)),
        0x94 => Some(OpCode::new(0x94, "STY", 2, 4, AddressingMode::ZeroPage_X)),
        0x95 => Some(OpCode::new(0x95, "STA", 2, 4, AddressingMode::ZeroPage_X)),
        0x96 => Some(OpCode::new(0x96, "STX", 2, 4, AddressingMode::ZeroPage_Y)),
        0x97 => Some(OpCode::new(0x97, "*SAX", 2, 4, AddressingMode::ZeroPage_Y)),
        0x98 => Some(OpCode::new(0x98, "TYA", 1, 2, AddressingMode::NoneAddressing)),
        0x99 => Some(OpCode::new(0x99, "STA", 3, 5, AddressingMode::Absolute_Y)),
        0x9A => Some(OpCode::new(0x9A, "TXS", 1, 2, AddressingMode::NoneAddressing)),
        0x9D => Some(OpCode::new(0x9D, "STA", 3, 5, AddressingMode::Absolute_X)),
        _ => None,
    }
}

fn lookup_row_a(code: u8) -> (op: Option<OpCode>)
    ensures
        op == row_a(code),
{
    match code {
        0xA0 => Some(OpCode::new(0xA0, "LDY", 2, 2, AddressingMode::Immediate)),
        0xA1 => Some(OpCode::new(0xA1, "LDA", 2, 6, AddressingMode::Indirect_X)),
        0xA2 => Some(OpCode::new(0xA2, "LDX", 2, 2, AddressingMode::Immediate)),
        0xA3 => Some(OpCode::new(0xA3, "*LAX", 2, 6, AddressingMode::Indirect_X)),
        0xA4 => Some(OpCode::new(0xA4, "LDY", 2, 3, AddressingMode::ZeroPage)),
        0xA5 => Some(OpCode::new(0xA5, "LDA", 2, 3, AddressingMode::ZeroPage)),
        0xA6 => Some(OpCode::new(0xA6, "LDX", 2, 3, AddressingMode::ZeroPage)),
        0xA7 => Some(OpCode::new(0xA7, "*LAX", 2, 3, AddressingMode::ZeroPage)),
        0xA8 => Some(OpCode::new(0xA8, "TAY", 1, 2, AddressingMode::NoneAddressing)),
        0xA9 => Some(OpCode::new(0xA9, "LDA", 2, 2, AddressingMode::Immediate)),
        0xAA => Some(OpCode::new(0xAA, "TAX", 1, 2, AddressingMode::NoneAddressing)),
        0xAC => Some(OpCode::new(0xAC, "LDY", 3, 4, AddressingMode::Absolute)),
        0xAD => Some(OpCode::new(0xAD, "LDA", 3, 4, AddressingMode::Absolute)),
        0xAE => Some(OpCode::new(0xAE, "LDX", 3, 4, AddressingMode::Absolute)),
        0xAF => Some(OpCode::new(0xAF, "*LAX", 3, 4, AddressingMode::Absolute)),
        _ => None,
    }
}

fn lookup_row_b(code: u8) -> (op: Option<OpCode>)
    ensures
        op == row_b(code),
{
    match code {
        0xB0 => Some(OpCode::new(0xB0, "BCS", 2, 2, AddressingMode::NoneAddressing)),
        0xB1 => Some(OpCode::new(0xB1, "LDA", 2, 5, AddressingMode::Indirect_Y)),
        0xB3 => Some(OpCode::new(0xB3, "*LAX", 2, 5, AddressingMode::Indirect_Y)),
        0xB4 => Some(OpCode::new(0xB4, "LDY", 2, 4, AddressingMode::ZeroPage_X)),
        0xB5 => Some(OpCode::new(0xB5, "LDA", 2, 4, AddressingMode::ZeroPage_X)),
        0xB6 => Some(OpCode::new(0xB6, "LDX", 2, 4, AddressingMode::ZeroPage_Y)),
        0xB7 => Some(OpCode::new(0xB7, "*LAX", 2, 4, AddressingMode::ZeroPage_Y)),
        0xB8 => Some(OpCode::new(0xB8, "CLV", 1, 2, AddressingMode::NoneAddressing)),
        0xB9 => Some(OpCode::new(0xB9, "LDA", 3, 4, AddressingMode::Absolute_Y)),
        0xBA => Some(OpCode::new(0xBA, "TSX", 1, 2, AddressingMode::NoneAddressing)),
        0xBC => Some(OpCode::new(0xBC, "LDY", 3, 4, AddressingMode::Absolute_X)),
        0xBD => Some(OpCode::new(0xBD, "LDA", 3, 4, AddressingMode::Absolute_X)),
        0xBE => Some(OpCode::new(0xBE, "LDX", 3, 4, AddressingMode::Absolute_Y)),
        0xBF => Some(OpCode::new(0xBF, "*LAX", 3, 4, AddressingMode::Absolute_Y)),
        _ => None,
    }
}

fn lookup_row_c(code: u8) -> (op: Option<OpCode>)
    ensures
        op == row_c(code),
{
    match code {
        0xC0 => Some(OpCode::new(0xC0, "CPY", 2, 2, AddressingMode::Immediate)),
        0xC1 => Some(OpCode::new(0xC1, "CMP", 2, 6, AddressingMode::Indirect_X)),
        0xC2 => Some(OpCode::new(0xC2, "*NOP", 2, 2, AddressingMode::Immediate)),
        0xC3 => Some(OpCode::new(0xC3, "*DCP", 2, 8, AddressingMode::Indirect_X)),
        0xC4 => Some(OpCode::new(0xC4, "CPY", 2, 3, AddressingMode::ZeroPage)),
        0xC5 => Some(OpCode::new(0xC5, "CMP", 2, 3, AddressingMode::ZeroPage)),
        0xC6 => Some(OpCode::new(0xC6, "DEC", 2, 5, AddressingMode::ZeroPage)),
        0xC7 => Some(OpCode::new(0xC7, "*DCP", 2, 5, AddressingMode::ZeroPage)),
        0xC8 => Some(OpCode::new(0xC8, "INY", 1, 2, AddressingMode::NoneAddressing)),
        0xC9 => Some(OpCode::new(0xC9, "CMP", 2, 2, AddressingMode::Immediate)),
        0xCA => Some(OpCode::new(0xCA, "DEX", 1, 2, AddressingMode::NoneAddressing)),
        0xCC => Some(OpCode::new(0xCC, "CPY", 3, 4, AddressingMode::Absolute)),
        0xCD => Some(OpCode::new(0xCD, "CMP", 3, 4, AddressingMode::Absolute)),
        0xCE => Some(OpCode::new(0xCE, "DEC", 3, 6, AddressingMode::Absolute)),
        0xCF => Some(OpCode::new(0xCF, "*DCP", 3, 6, AddressingMode::Absolute)),
        _ => None,
    }
}

fn lookup_row_d(code: u8) -> (op: Option<OpCode>)
    ensures
        op == row_d(code),
{
    match code {
        0xD0 => Some(OpCode::new(0xD0, "BNE", 2, 2, AddressingMode::NoneAddressing)),
        0xD1 => Some(OpCode::new(0xD1, "CMP", 2, 5, AddressingMode::Indirect_Y)),
        0xD3 => Some(OpCode::new(0xD3, "*DCP", 2, 8, AddressingMode::Indirect_Y)),
        0xD4 => Some(OpCode::new(0xD4, "*NOP", 2, 4, AddressingMode::ZeroPage_X)),
        0xD5 => Some(OpCode::new(0xD5, "CMP", 2, 4, AddressingMode::ZeroPage_X)),
        0xD6 => Some(OpCode::new(0xD6, "DEC", 2, 6, AddressingMode::ZeroPage_X)),
        0xD7 => Some(OpCode::new(0xD7, "*DCP", 2, 6, AddressingMode::ZeroPage_X)),
        0xD8 => Some(OpCode::new(0xD8, "CLD", 1, 2, AddressingMode::NoneAddressing)),
        0xD9 => Some(OpCode::new(0xD9, "CMP", 3, 4, AddressingMode::Absolute_Y)),
        0xDA => Some(OpCode::new(0xDA, "*NOP", 1, 2, AddressingMode::NoneAddressing)),
        0xDB => Some(OpCode::new(0xDB, "*DCP", 3, 7, AddressingMode::Absolute_Y)),
        0xDC => Some(OpCode::new(0xDC, "*NOP", 3, 4, AddressingMode::Absolute_X)),
        0xDD => Some(OpCode::new(0xDD, "CMP", 3, 4, AddressingMode::Absolute_X)),
        0xDE => Some(OpCode::new(0xDE, "DEC", 3, 7, AddressingMode::Absolute_X)),
        0xDF => Some(OpCode::new(0xDF, "*DCP", 3, 7, AddressingMode::Absolute_X)),
        _ => None,
    }
}

fn lookup_row_e(code: u8) -> (op: Option<OpCode>)
    ensures
        op == row_e(code),
{
    match code {
        0xE0 => Some(OpCode::new(0xE0, "CPX", 2, 2, AddressingMode::Immediate)),
        0xE1 => Some(OpCode::new(0xE1, "SBC", 2, 6, AddressingMode::Indirect_X)),
        0xE2 => Some(OpCode::new(0xE2, "*NOP", 2, 2, AddressingMode::Immediate)),
        0xE3 => Some(OpCode::new(0xE3, "*ISB", 2, 8, AddressingMode::Indirect_X)),
        0xE4 => Some(OpCode::new(0xE4, "CPX", 2, 3, AddressingMode::ZeroPage)),
        0xE5 => Some(OpCode::new(0xE5, "SBC", 2, 3, AddressingMode::ZeroPage)),
        0xE6 => Some(OpCode::new(0xE6, "INC", 2, 5, AddressingMode::ZeroPage)),
        0xE7 => Some(OpCode::new(0xE7, "*ISB", 2, 5, AddressingMode::ZeroPage)),
        0xE8 => Some(OpCode::new(0xE8, "INX", 1, 2, AddressingMode::NoneAddressing)),
        0xE9 => Some(OpCode::new(0xE9, "SBC", 2, 2, AddressingMode::Immediate)),
        0xEA => Some(OpCode::new(0xEA, "NOP", 1, 2, AddressingMode::NoneAddressing)),
        0xEB => Some(OpCode::new(0xEB, "*SBC", 2, 2, AddressingMode::Immediate)),
        0xEC => Some(OpCode::new(0xEC, "CPX", 3, 4, AddressingMode::Absolute)),
        0xED => Some(OpCode::new(0xED, "SBC", 3, 4, AddressingMode::Absolute)),
        0xEE => Some(OpCode::new(0xEE, "INC", 3, 6, AddressingMode::Absolute)),
        0xEF => Some(OpCode::new(0xEF, "*ISB", 3, 6, AddressingMode::Absolute)),
        _ => None,
    }
}

fn lookup_row_f(code: u8) -> (op: Option<OpCode>)
    ensures
        op == row_f(code),
{
    match code {
        0xF0 => Some(OpCode::new(0xF0, "BEQ", 2, 2, AddressingMode::NoneAddressing)),
        0xF1 => Some(OpCode::new(0xF1, "SBC", 2, 5, AddressingMode::Indirect_Y)),
        0xF3 => Some(OpCode::new(0xF3, "*ISB", 2, 8, AddressingMode::Indirect_Y)),
        0xF4 => Some(OpCode::new(0xF4, "*NOP", 2, 4, AddressingMode::ZeroPage_X)),
        0xF5 => Some(OpCode::new(0xF5, "SBC", 2, 4, AddressingMode::ZeroPage_X)),
        0xF6 => Some(OpCode::new(0xF6, "INC", 2, 6, AddressingMode::ZeroPage_X)),
        0xF7 => Some(OpCode::new(0xF7, "*ISB", 2, 6, AddressingMode::ZeroPage_X)),
        0xF8 => Some(OpCode::new(0xF8, "SED", 1, 2, AddressingMode::NoneAddressing)),
        0xF9 => Some(OpCode::new(0xF9, "SBC", 3, 4, AddressingMode::Absolute_Y)),
        0xFA => Some(OpCode::new(0xFA, "*NOP", 1, 2, AddressingMode::NoneAddressing)),
        0xFB => Some(OpCode::new(0xFB, "*ISB", 3, 7, AddressingMode::Absolute_Y)),
        0xFC => Some(OpCode::new(0xFC, "*NOP", 3, 4, AddressingMode::Absolute_X)),
        0xFD => Some(OpCode::new(0xFD, "SBC", 3, 4, AddressingMode::Absolute_X)),
        0xFE => Some(OpCode::new(0xFE, "INC", 3, 7, AddressingMode::Absolute_X)),
        0xFF => Some(OpCode::new(0xFF, "*ISB", 3, 7, AddressingMode::Absolute_X)),
        _ => None,
    }
}

/// Every entry sits under its own byte, is one to three bytes long and
/// costs at most eight cycles.
pub proof fn lemma_table_shape(code: u8)
    ensures
        match OpCode::describe(code) {
            Some(op) => op.code == code && 1 <= op.len <= 3 && op.cycles <= 8,
            None => true,
        },
{
}

/// Every mnemonic in the table is three or four characters long.
pub proof fn lemma_mnemonic_len(code: u8)
    ensures
        match OpCode::describe(code) {
            Some(op) => 3 <= op.mnemonic@.len() <= 4,
            None => true,
        },
{
    reveal_strlit("*ALR");
    reveal_strlit("*DCP");
    reveal_strlit("*ISB");
    reveal_strlit("*LAX");
    reveal_strlit("*NOP");
    reveal_strlit("*RLA");
    reveal_strlit("*RRA");
    reveal_strlit("*SAX");
    reveal_strlit("*SBC");
    reveal_strlit("*SLO");
    reveal_strlit("*SRE");
    reveal_strlit("ADC");
    reveal_strlit("ANC");
    reveal_strlit("AND");
    reveal_strlit("ASL");
    reveal_strlit("BCC");
    reveal_strlit("BCS");
    reveal_strlit("BEQ");
    reveal_strlit("BIT");
    reveal_strlit("BMI");
    reveal_strlit("BNE");
    reveal_strlit("BPL");
    reveal_strlit("BRK");
    reveal_strlit("BVC");
    reveal_strlit("BVS");
    reveal_strlit("CLC");
    reveal_strlit("CLD");
    reveal_strlit("CLI");
    reveal_strlit("CLV");
    reveal_strlit("CMP");
    reveal_strlit("CPX");
    reveal_strlit("CPY");
    reveal_strlit("DEC");
    reveal_strlit("DEX");
    reveal_strlit("DEY");
    reveal_strlit("EOR");
    reveal_strlit("INC");
    reveal_strlit("INX");
    reveal_strlit("INY");
    reveal_strlit("JMP");
    reveal_strlit("JSR");
    reveal_strlit("LDA");
    reveal_strlit("LDX");
    reveal_strlit("LDY");
    reveal_strlit("LSR");
    reveal_strlit("NOP");
    reveal_strlit("ORA");
    reveal_strlit("PHA");
    reveal_strlit("PHP");
    reveal_strlit("PLA");
    reveal_strlit("PLP");
    reveal_strlit("ROL");
    reveal_strlit("ROR");
    reveal_strlit("RTI");
    reveal_strlit("RTS");
    reveal_strlit("SBC");
    reveal_strlit("SEC");
    reveal_strlit("SED");
    reveal_strlit("SEI");
    reveal_strlit("STA");
    reveal_strlit("STX");
    reveal_strlit("STY");
    reveal_strlit("TAX");
    reveal_strlit("TAY");
    reveal_strlit("TSX");
    reveal_strlit("TXA");
    reveal_strlit("TXS");
    reveal_strlit("TYA");
}

} // verus!
