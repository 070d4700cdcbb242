//! The CPU interpreter: registers, flags, addressing, the instruction set
//! and interrupt entry.

use vstd::prelude::*;
use crate::bus::{Bus, BusState, lemma_rom_refuses_writes, unmapped};
use crate::fault::{Crash, Fault, agrees, agrees_unit};
use crate::flags::{has_all, assigned, contains, assign};
use crate::opcodes::{OpCode, lemma_table_shape};
use crate::ppu::registers::address::word;

verus! {

/// The processor status byte.
///
/// ```text
/// NVss DIZC
/// 7_______0
/// N - negative
/// V - overflow
/// ss - the two break bits; the upper one always reads 1
/// D - decimal (kept, never acted on)
/// I - interrupt disable
/// Z - zero
/// C - carry
/// ```
#[derive(Clone, Copy, Debug, PartialEq, Eq, Structural)]
pub struct CPUFlags {
    pub bits: u8,
}

impl CPUFlags {
    pub const NEGATIVE: u8 = 0b1000_0000;

    pub const OVERFLOW: u8 = 0b0100_0000;

    pub const BREAK1: u8 = 0b0010_0000;

    pub const BREAK2: u8 = 0b0001_0000;

    pub const DECIMAL: u8 = 0b0000_1000;

    pub const INTERRUPT: u8 = 0b0000_0100;

    pub const ZERO: u8 = 0b0000_0010;

    pub const CARRY: u8 = 0b0000_0001;

    pub fn from_bits_truncate(bits: u8) -> (r: Self)
        ensures
            r.bits == bits,
    {
        CPUFlags { bits }
    }

    /// Every bit of the byte is a flag, so every byte is a flag set.
    pub fn from_bits(bits: u8) -> (r: Option<Self>)
        ensures
            r == Some(CPUFlags { bits }),
    {
        Some(CPUFlags { bits })
    }

    pub fn bits(&self) -> (r: u8)
        ensures
            r == self.bits,
    {
        self.bits
    }

    pub fn contains(&self, mask: u8) -> (r: bool)
        ensures
            r == has_all(self.bits, mask),
    {
        contains(self.bits, mask)
    }

    pub fn insert(&mut self, mask: u8)
        ensures
            final(self).bits == assigned(old(self).bits, mask, true),
    {
        self.bits = assign(self.bits, mask, true);
    }

    pub fn remove(&mut self, mask: u8)
        ensures
            final(self).bits == assigned(old(self).bits, mask, false),
    {
        self.bits = assign(self.bits, mask, false);
    }

    pub fn set(&mut self, mask: u8, on: bool)
        ensures
            final(self).bits == assigned(old(self).bits, mask, on),
    {
        self.bits = assign(self.bits, mask, on);
    }
}

#[derive(Clone)]
pub struct CPU {
    pub register_a: u8,
    pub register_x: u8,
    pub register_y: u8,
    pub register_s: u8,
    pub status: CPUFlags,
    pub program_counter: u16,
    pub bus: Bus,
}

/// The processor and everything on its bus as a mathematical value.
pub struct CpuState {
    pub a: u8,
    pub x: u8,
    pub y: u8,
    pub s: u8,
    pub p: u8,
    pub pc: u16,
    pub bus: BusState,
}

impl View for CPU {
    type V = CpuState;

    open spec fn view(&self) -> CpuState {
        CpuState {
            a: self.register_a,
            x: self.register_x,
            y: self.register_y,
            s: self.register_s,
            p: self.status.bits,
            pc: self.program_counter,
            bus: self.bus@,
        }
    }
}

/// Where the stack page starts.
pub const STACK: u16 = 0x0100;

/// The stack pointer after a reset.
pub const STACK_RESET: u8 = 0xFD;

/// The status byte after a reset: interrupts off, upper break bit set.
pub const STATUS_RESET: u8 = 0b0010_0100;

/// Where `load` puts a program.
pub const LOAD_ADDRESS: u16 = 0x0600;

/// Where the address of the NMI handler is kept.
pub const NMI_VECTOR: u16 = 0xFFFA;

/// Where the address of the reset handler is kept.
pub const RESET_VECTOR: u16 = 0xFFFC;

/// How an instruction finds its operand.
#[allow(non_camel_case_types)]
#[derive(Clone, Copy, Debug, PartialEq, Eq, Structural)]
pub enum AddressingMode {
    Immediate,
    ZeroPage,
    ZeroPage_X,
    ZeroPage_Y,
    Absolute,
    Absolute_X,
    Absolute_Y,
    Indirect_X,
    Indirect_Y,
    NoneAddressing,
}

/// Byte-wise access to the CPU address space. Reads may have side effects
/// (the video and controller ports), so they take `&mut self` too.
pub trait Memory {
    /// The memory bus behind this value.
    spec fn bus_state(&self) -> BusState;

    fn mem_read(&mut self, addr: u16) -> (r: Result<u8, Fault>)
        ensures
            agrees(old(self).bus_state().read(addr), final(self).bus_state(), r),
    ;

    fn mem_write(&mut self, addr: u16, data: u8) -> (r: Result<(), Fault>)
        ensures
            agrees_unit(old(self).bus_state().write(addr, data), final(self).bus_state(), r),
    ;

    /// Reads a little-endian 16-bit value: low byte at `pos`, high byte at
    /// the next address, which wraps at the top of the address space.
    fn mem_read_u16(&mut self, pos: u16) -> (r: Result<u16, Fault>)
        ensures
            agrees(old(self).bus_state().read_u16(pos), final(self).bus_state(), r),
    {
        let lo = self.mem_read(pos)?;
        let hi = self.mem_read(pos.wrapping_add(1))?;
        Ok(((hi as u16) << 8) | (lo as u16))
    }

    /// Writes a 16-bit value little-endian: low byte first.
    fn mem_write_u16(&mut self, pos: u16, data: u16) -> (r: Result<(), Fault>)
        ensures
            agrees_unit(old(self).bus_state().write_u16(pos, data), final(self).bus_state(), r),
    {
        let hi = (data >> 8) as u8;
        let lo = (data & 0xFF) as u8;
        self.mem_write(pos, lo)?;
        self.mem_write(pos.wrapping_add(1), hi)
    }
}

impl CpuState {
    /// A read through the bus; the registers stay.
    pub open spec fn read(self, addr: u16) -> Result<(CpuState, u8), Fault> {
        match self.bus.read(addr) {
            Ok((bus, v)) => Ok((CpuState { bus, ..self }, v)),
            Err(e) => Err(e),
        }
    }

    /// A 16-bit read through the bus; the registers stay.
    pub open spec fn read_u16(self, pos: u16) -> Result<(CpuState, u16), Fault> {
        match self.bus.read_u16(pos) {
            Ok((bus, v)) => Ok((CpuState { bus, ..self }, v)),
            Err(e) => Err(e),
        }
    }

    /// A write through the bus; the registers stay.
    pub open spec fn write(self, addr: u16, data: u8) -> Result<CpuState, Fault> {
        match self.bus.write(addr, data) {
            Ok(bus) => Ok(CpuState { bus, ..self }),
            Err(e) => Err(e),
        }
    }

    /// A 16-bit write through the bus; the registers stay.
    pub open spec fn write_u16(self, pos: u16, data: u16) -> Result<CpuState, Fault> {
        match self.bus.write_u16(pos, data) {
            Ok(bus) => Ok(CpuState { bus, ..self }),
            Err(e) => Err(e),
        }
    }

    /// The address of the operand whose bytes start at `base`.
    ///
    /// | mode | address |
    /// |---|---|
    /// | Immediate | `base` itself |
    /// | ZeroPage | the byte at `base` |
    /// | ZeroPage,X / ,Y | that byte plus X or Y, wrapping inside page zero |
    /// | Absolute | the 16-bit value at `base` |
    /// | Absolute,X / ,Y | that value plus X or Y, wrapping at 16 bits |
    /// | (Indirect,X) | the 16-bit value at page-zero location byte plus X, both of its bytes taken from page zero |
    /// | (Indirect),Y | the 16-bit value at page-zero location byte, both of its bytes taken from page zero, plus Y |
    #[verifier::opaque]
    pub open spec fn operand_address(self, mode: AddressingMode, base: u16) -> Result<
        (CpuState, u16),
        Fault,
    >
        recommends
            mode != AddressingMode::NoneAddressing,
    {
        match mode {
            AddressingMode::Immediate | AddressingMode::NoneAddressing => Ok((self, base)),
            AddressingMode::ZeroPage => match self.read(base) {
                Ok((c, v)) => Ok((c, v as u16)),
                Err(e) => Err(e),
            },
            AddressingMode::ZeroPage_X => match self.read(base) {
                Ok((c, v)) => Ok((c, v.wrapping_add(self.x) as u16)),
                Err(e) => Err(e),
            },
            AddressingMode::ZeroPage_Y => match self.read(base) {
                Ok((c, v)) => Ok((c, v.wrapping_add(self.y) as u16)),
                Err(e) => Err(e),
            },
            AddressingMode::Absolute => self.read_u16(base),
            AddressingMode::Absolute_X => match self.read_u16(base) {
                Ok((c, v)) => Ok((c, v.wrapping_add(self.x as u16))),
                Err(e) => Err(e),
            },
            AddressingMode::Absolute_Y => match self.read_u16(base) {
                Ok((c, v)) => Ok((c, v.wrapping_add(self.y as u16))),
                Err(e) => Err(e),
            },
            AddressingMode::Indirect_X => match self.read(base) {
                Ok((c, v)) => c.read_zero_page_u16(v.wrapping_add(self.x)),
                Err(e) => Err(e),
            },
            AddressingMode::Indirect_Y => match self.read(base) {
                Ok((c, v)) => match c.read_zero_page_u16(v) {
                    Ok((d, target)) => Ok((d, target.wrapping_add(self.y as u16))),
                    Err(e) => Err(e),
                },
                Err(e) => Err(e),
            },
        }
    }

    /// The 16-bit value whose low byte is at page-zero location `ptr` and
    /// whose high byte is at the next location of page zero, wrapping.
    pub open spec fn read_zero_page_u16(self, ptr: u8) -> Result<(CpuState, u16), Fault> {
        match self.read(ptr as u16) {
            Ok((c, lo)) => match c.read(ptr.wrapping_add(1) as u16) {
                Ok((d, hi)) => Ok((d, word(hi, lo))),
                Err(e) => Err(e),
            },
            Err(e) => Err(e),
        }
    }

    /// A push: the byte goes to 0x0100 + S, then S drops by one, wrapping.
    pub open spec fn push(self, data: u8) -> Result<CpuState, Fault> {
        match self.write((STACK + self.s) as u16, data) {
            Ok(c) => Ok(CpuState { s: self.s.wrapping_sub(1), ..c }),
            Err(e) => Err(e),
        }
    }

    /// A 16-bit push: high byte, then low byte.
    pub open spec fn push_u16(self, data: u16) -> Result<CpuState, Fault> {
        match self.push((data >> 8) as u8) {
            Ok(c) => c.push((data & 0xFF) as u8),
            Err(e) => Err(e),
        }
    }

    /// A pull: S rises by one, wrapping, then the byte at 0x0100 + S is read.
    pub open spec fn pull(self) -> Result<(CpuState, u8), Fault> {
        let s = self.s.wrapping_add(1);
        (CpuState { s, ..self }).read((STACK + s) as u16)
    }

    /// A 16-bit pull: low byte, then high byte.
    pub open spec fn pull_u16(self) -> Result<(CpuState, u16), Fault> {
        match self.pull() {
            Ok((c, lo)) => match c.pull() {
                Ok((d, hi)) => Ok((d, word(hi, lo))),
                Err(e) => Err(e),
            },
            Err(e) => Err(e),
        }
    }

    /// Whether all flags of `mask` are set.
    pub open spec fn flag(self, mask: u8) -> bool {
        has_all(self.p, mask)
    }

    /// The state with the flags of `mask` switched on or off.
    pub open spec fn with_flag(self, mask: u8, on: bool) -> CpuState {
        CpuState { p: assigned(self.p, mask, on), ..self }
    }

    /// The state with Z and N set from a result byte: Z exactly when the
    /// byte is zero, N exactly when its top bit is set.
    pub open spec fn with_zn(self, result: u8) -> CpuState {
        self.with_flag(CPUFlags::ZERO, result == 0).with_flag(
            CPUFlags::NEGATIVE,
            result & 0x80 != 0,
        )
    }

    /// The state after a reset, given the value of the reset vector.
    pub open spec fn reset_to(self, pc: u16) -> CpuState {
        CpuState { a: 0, x: 0, y: 0, s: STACK_RESET, p: STATUS_RESET, pc, ..self }
    }

    /// A reset: the registers take their power-on values and the program
    /// counter the value of the reset vector.
    pub open spec fn after_reset(self) -> Result<CpuState, Fault> {
        match self.reset_to(self.pc).read_u16(RESET_VECTOR) {
            Ok((c, pc)) => Ok(CpuState { pc, ..c }),
            Err(e) => Err(e),
        }
    }

    /// The state after the bytes of `program` were written to 0x0600 and
    /// up, lowest address first.
    pub open spec fn after_load(self, program: Seq<u8>) -> Result<CpuState, Fault>
        decreases program.len(),
    {
        if program.len() == 0 {
            Ok(self)
        } else {
            match self.after_load(program.drop_last()) {
                Ok(c) => c.write((LOAD_ADDRESS + program.len() - 1) as u16, program.last()),
                Err(e) => Err(e),
            }
        }
    }
}

impl Memory for CPU {
    open spec fn bus_state(&self) -> BusState {
        self.bus@
    }

    fn mem_read(&mut self, addr: u16) -> (r: Result<u8, Fault>)
        ensures
            agrees(old(self)@.read(addr), final(self)@, r),
    {
        self.bus.mem_read(addr)
    }

    fn mem_write(&mut self, addr: u16, data: u8) -> (r: Result<(), Fault>)
        ensures
            agrees_unit(old(self)@.write(addr, data), final(self)@, r),
    {
        self.bus.mem_write(addr, data)
    }

    fn mem_read_u16(&mut self, pos: u16) -> (r: Result<u16, Fault>)
        ensures
            agrees(old(self)@.read_u16(pos), final(self)@, r),
    {
        self.bus.mem_read_u16(pos)
    }

    fn mem_write_u16(&mut self, pos: u16, data: u16) -> (r: Result<(), Fault>)
        ensures
            agrees_unit(old(self)@.write_u16(pos, data), final(self)@, r),
    {
        self.bus.mem_write_u16(pos, data)
    }
}

impl CPU {
    /// A processor in its power-on state on this bus, with the program
    /// counter at 0 until `reset` reads the reset vector.
    pub fn new(bus: Bus) -> (cpu: Self)
        ensures
            cpu@ == (CpuState {
                a: 0,
                x: 0,
                y: 0,
                s: STACK_RESET,
                p: STATUS_RESET,
                pc: 0,
                bus: bus@,
            }),
    {
        CPU {
            register_a: 0,
            register_x: 0,
            register_y: 0,
            register_s: STACK_RESET,
            status: CPUFlags::from_bits_truncate(STATUS_RESET),
            program_counter: 0,
            bus,
        }
    }

    pub fn reset(&mut self) -> (r: Result<(), Fault>)
        ensures
            agrees_unit(old(self)@.after_reset(), final(self)@, r),
    {
        self.register_a = 0;
        self.register_x = 0;
        self.register_y = 0;
        self.register_s = STACK_RESET;
        self.status = CPUFlags::from_bits_truncate(STATUS_RESET);
        self.program_counter = self.mem_read_u16(RESET_VECTOR)?;
        Ok(())
    }

    /// Writes a program to 0x0600 and up.
    pub fn load(&mut self, program: Vec<u8>) -> (r: Result<(), Fault>)
        ensures
            agrees_unit(old(self)@.after_load(program@), final(self)@, r),
    {
        let mut i: usize = 0;
        while i < program.len()
            invariant
                i <= program.len(),
                i <= 0x7A00,
                old(self)@.after_load(program@.take(i as int)) == Ok::<CpuState, Fault>(self@),
            decreases program.len() - i,
        {
            assert(program@.take(i + 1).drop_last() =~= program@.take(i as int));
            let addr: u16 = LOAD_ADDRESS + i as u16;
            proof {
                if addr >= 0x8000 {
                    lemma_rom_refuses_writes(self.bus@, addr, program[i as int]);
                }
            }
            match self.mem_write(addr, program[i]) {
                Ok(()) => {},
                Err(e) => {
                    proof {
                        lemma_load_fault(old(self)@, program@, i + 1);
                    }
                    return Err(e);
                },
            }
            i += 1;
        }
        assert(program@.take(i as int) =~= program@);
        Ok(())
    }

    /// Resolves the operand address of an instruction whose operand bytes
    /// start at `base`.
    pub fn get_operand_address_from_base(&mut self, mode: &AddressingMode, base: u16) -> (r: Result<
        u16,
        Fault,
    >)
        requires
            *mode != AddressingMode::NoneAddressing,
        ensures
            agrees(old(self)@.operand_address(*mode, base), final(self)@, r),
    {
        proof {
            reveal(CpuState::operand_address);
        }
        match mode {
            AddressingMode::Immediate => Ok(base),
            AddressingMode::ZeroPage => {
                let pos = self.mem_read(base)?;
                Ok(pos as u16)
            },
            AddressingMode::Absolute => self.mem_read_u16(base),
            AddressingMode::ZeroPage_X => {
                let pos = self.mem_read(base)?;
                Ok(pos.wrapping_add(self.register_x) as u16)
            },
            AddressingMode::ZeroPage_Y => {
                let pos = self.mem_read(base)?;
                Ok(pos.wrapping_add(self.register_y) as u16)
            },
            AddressingMode::Absolute_X => {
                let pos = self.mem_read_u16(base)?;
                Ok(pos.wrapping_add(self.register_x as u16))
            },
            AddressingMode::Absolute_Y => {
                let pos = self.mem_read_u16(base)?;
                Ok(pos.wrapping_add(self.register_y as u16))
            },
            AddressingMode::Indirect_X => {
                let pos = self.mem_read(base)?;
                let ptr: u8 = pos.wrapping_add(self.register_x);
                self.read_zero_page_u16(ptr)
            },
            AddressingMode::Indirect_Y => {
                let ptr = self.mem_read(base)?;
                let deref_base = self.read_zero_page_u16(ptr)?;
                Ok(deref_base.wrapping_add(self.register_y as u16))
            },
            // ruled out by the precondition
            AddressingMode::NoneAddressing => Ok(base),
        }
    }

    pub(crate) fn read_zero_page_u16(&mut self, ptr: u8) -> (r: Result<u16, Fault>)
        ensures
            agrees(old(self)@.read_zero_page_u16(ptr), final(self)@, r),
    {
        let lo = self.mem_read(ptr as u16)?;
        let hi = self.mem_read(ptr.wrapping_add(1) as u16)?;
        Ok(((hi as u16) << 8) | (lo as u16))
    }

    pub(crate) fn get_operand_address(&mut self, mode: &AddressingMode) -> (r: Result<u16, Fault>)
        requires
            *mode != AddressingMode::NoneAddressing,
        ensures
            agrees(old(self)@.operand_address(*mode, old(self)@.pc), final(self)@, r),
    {
        self.get_operand_address_from_base(mode, self.program_counter)
    }

    pub(crate) fn push_to_stack(&mut self, data: u8) -> (r: Result<(), Fault>)
        ensures
            agrees_unit(old(self)@.push(data), final(self)@, r),
    {
        self.mem_write(STACK + self.register_s as u16, data)?;
        self.register_s = self.register_s.wrapping_sub(1);
        Ok(())
    }

    pub(crate) fn push_to_stack_u16(&mut self, data: u16) -> (r: Result<(), Fault>)
        ensures
            agrees_unit(old(self)@.push_u16(data), final(self)@, r),
    {
        let hi = (data >> 8) as u8;
        let lo = (data & 0xFF) as u8;
        self.push_to_stack(hi)?;
        self.push_to_stack(lo)
    }

    pub(crate) fn pop_stack(&mut self) -> (r: Result<u8, Fault>)
        ensures
            agrees(old(self)@.pull(), final(self)@, r),
    {
        self.register_s = self.register_s.wrapping_add(1);
        self.mem_read(STACK + self.register_s as u16)
    }

    pub(crate) fn pop_stack_u16(&mut self) -> (r: Result<u16, Fault>)
        ensures
            agrees(old(self)@.pull_u16(), final(self)@, r),
    {
        let lo = self.pop_stack()?;
        let hi = self.pop_stack()?;
        Ok(((hi as u16) << 8) | (lo as u16))
    }

    pub(crate) fn update_zero_and_negative_flags(&mut self, result: u8)
        ensures
            final(self)@ == old(self)@.with_zn(result),
    {
        self.status.set(CPUFlags::ZERO, result == 0);
        self.status.set(CPUFlags::NEGATIVE, result & 0b1000_0000 != 0);
    }
}

/// What one call of `step` did besides changing the machine.
#[derive(Clone, Copy, Debug, PartialEq, Eq, Structural)]
pub struct StepReport {
    /// The instruction was BRK: the program is over.
    pub halted: bool,
    /// A video field ended during this step: the host is due a frame.
    pub frame_completed: bool,
    /// A pending NMI was taken before the instruction.
    pub nmi_serviced: bool,
}

/// How a bounded run ended.
#[derive(Clone, Copy, Debug, PartialEq, Eq, Structural)]
pub struct RunReport {
    /// The run ended on BRK; otherwise it ran out of steps.
    pub halted: bool,
    /// Instructions executed, the BRK included.
    pub steps: u64,
}

/// Where a run stands after some steps.
pub struct RunState {
    pub cpu: CpuState,
    pub halted: bool,
    pub steps: nat,
}

/// The opcodes that set the program counter themselves: the branches,
/// JMP, JSR, RTS and RTI. After every other instruction the program
/// counter moves past the operand bytes.
pub open spec fn sets_pc(code: u8) -> bool {
    match code {
        0x10 | 0x20 | 0x30 | 0x40 | 0x4C | 0x50 | 0x60 | 0x6C | 0x70 | 0x90 | 0xB0 | 0xD0 | 0xF0 => true,
        _ => false,
    }
}

fn opcode_sets_pc(code: u8) -> (r: bool)
    ensures
        r == sets_pc(code),
{
    match code {
        0x10 | 0x20 | 0x30 | 0x40 | 0x4C | 0x50 | 0x60 | 0x6C | 0x70 | 0x90 | 0xB0 | 0xD0 | 0xF0 => true,
        _ => false,
    }
}

impl CpuState {
    /// The effect of an instruction that names no addressing mode: the
    /// register and flag instructions, the stack instructions, the
    /// branches, the indirect jump and the returns. The one-byte NOP forms
    /// change nothing.
    #[verifier::opaque]
    pub open spec fn execute_implied(self, code: u8) -> Result<CpuState, Fault> {
        match code {
            0x08 => self.php(),
            0x0A => Ok(self.asl_acc()),
            0x10 => self.branch(!self.flag(CPUFlags::NEGATIVE)),
            0x18 => Ok(self.with_flag(CPUFlags::CARRY, false)),
            0x28 => self.plp(),
            0x2A => Ok(self.rol_acc()),
            0x30 => self.branch(self.flag(CPUFlags::NEGATIVE)),
            0x38 => Ok(self.with_flag(CPUFlags::CARRY, true)),
            0x40 => self.rti(),
            0x48 => self.pha(),
            0x4A => Ok(self.lsr_acc()),
            0x50 => self.branch(!self.flag(CPUFlags::OVERFLOW)),
            0x58 => Ok(self.with_flag(CPUFlags::INTERRUPT, false)),
            0x60 => self.rts(),
            0x68 => self.pla(),
            0x6A => Ok(self.ror_acc()),
            0x6C => self.jmp(false),
            0x70 => self.branch(self.flag(CPUFlags::OVERFLOW)),
            0x78 => Ok(self.with_flag(CPUFlags::INTERRUPT, true)),
            0x88 => Ok(self.dey()),
            0x8A => Ok(self.txa()),
            0x90 => self.branch(!self.flag(CPUFlags::CARRY)),
            0x98 => Ok(self.tya()),
            0x9A => Ok(CpuState { s: self.x, ..self }),
            0xA8 => Ok(self.tay()),
            0xAA => Ok(self.tax()),
            0xB0 => self.branch(self.flag(CPUFlags::CARRY)),
            0xB8 => Ok(self.with_flag(CPUFlags::OVERFLOW, false)),
            0xBA => Ok(self.tsx()),
            0xC8 => Ok(self.iny()),
            0xCA => Ok(self.dex()),
            0xD0 => self.branch(!self.flag(CPUFlags::ZERO)),
            0xD8 => Ok(self.with_flag(CPUFlags::DECIMAL, false)),
            0xE8 => Ok(self.inx()),
            0xF0 => self.branch(self.flag(CPUFlags::ZERO)),
            0xF8 => Ok(self.with_flag(CPUFlags::DECIMAL, true)),
            _ => Ok(self),
        }
    }

    /// The instructions with an addressing mode among the opcodes
    /// 0x00-0x3F: ORA, AND, BIT, ASL, ROL and JSR, the unofficial SLO, RLA
    /// and ANC, and the NOP forms that read their operand and drop it.
    #[verifier::opaque]
    pub open spec fn execute_low(self, code: u8, mode: AddressingMode) -> Result<
        CpuState,
        Fault,
    > {
        match code {
            0x01 | 0x05 | 0x09 | 0x0D | 0x11 | 0x15 | 0x19 | 0x1D => self.ora(mode),
            0x03 | 0x07 | 0x0F | 0x13 | 0x17 | 0x1B | 0x1F => self.slo(mode),
            0x04 | 0x0C | 0x14 | 0x1C | 0x34 | 0x3C => self.nop_read(mode),
            0x06 | 0x0E | 0x16 | 0x1E => self.asl(mode),
            0x0B | 0x2B => self.anc(mode),
            0x20 => self.jsr(),
            0x21 | 0x25 | 0x29 | 0x2D | 0x31 | 0x35 | 0x39 | 0x3D => self.and(mode),
            0x23 | 0x27 | 0x2F | 0x33 | 0x37 | 0x3B | 0x3F => self.rla(mode),
            0x24 | 0x2C => self.bit(mode),
            0x26 | 0x2E | 0x36 | 0x3E => self.rol(mode),
            _ => Ok(self),
        }
    }

    /// The instructions with an addressing mode among the opcodes
    /// 0x40-0x7F: EOR, ADC, LSR, ROR and the absolute JMP, the unofficial
    /// SRE, RRA and ALR, and the NOP forms that read their operand.
    #[verifier::opaque]
    pub open spec fn execute_mid_low(self, code: u8, mode: AddressingMode) -> Result<
        CpuState,
        Fault,
    > {
        match code {
            0x41 | 0x45 | 0x49 | 0x4D | 0x51 | 0x55 | 0x59 | 0x5D => self.eor(mode),
            0x43 | 0x47 | 0x4F | 0x53 | 0x57 | 0x5B | 0x5F => self.sre(mode),
            0x44 | 0x54 | 0x5C | 0x64 | 0x74 | 0x7C => self.nop_read(mode),
            0x46 | 0x4E | 0x56 | 0x5E => self.lsr(mode),
            0x4B => self.alr(mode),
            0x4C => self.jmp(true),
            0x61 | 0x65 | 0x69 | 0x6D | 0x71 | 0x75 | 0x79 | 0x7D => self.adc(mode),
            0x63 | 0x67 | 0x6F | 0x73 | 0x77 | 0x7B | 0x7F => self.rra(mode),
            0x66 | 0x6E | 0x76 | 0x7E => self.ror(mode),
            _ => Ok(self),
        }
    }

    /// The instructions with an addressing mode among the opcodes
    /// 0x80-0xBF: the stores and the loads, the unofficial SAX and LAX, and
    /// the NOP forms that read their operand.
    #[verifier::opaque]
    pub open spec fn execute_mid_high(self, code: u8, mode: AddressingMode) -> Result<
        CpuState,
        Fault,
    > {
        match code {
            0x80 | 0x82 | 0x89 => self.nop_read(mode),
            0x81 | 0x85 | 0x8D | 0x91 | 0x95 | 0x99 | 0x9D => self.sta(mode),
            0x83 | 0x87 | 0x8F | 0x97 => self.axs(mode),
            0x84 | 0x8C | 0x94 => self.sty(mode),
            0x86 | 0x8E | 0x96 => self.stx(mode),
            0xA0 | 0xA4 | 0xAC | 0xB4 | 0xBC => self.ldy(mode),
            0xA1 | 0xA5 | 0xA9 | 0xAD | 0xB1 | 0xB5 | 0xB9 | 0xBD => self.lda(mode),
            0xA2 | 0xA6 | 0xAE | 0xB6 | 0xBE => self.ldx(mode),
            0xA3 | 0xA7 | 0xAF | 0xB3 | 0xB7 | 0xBF => self.lax(mode),
            _ => Ok(self),
        }
    }

    /// The instructions with an addressing mode among the opcodes
    /// 0xC0-0xFF: the comparisons, DEC, INC and SBC, the unofficial DCP and
    /// ISB, and the NOP forms that read their operand.
    #[verifier::opaque]
    pub open spec fn execute_high(self, code: u8, mode: AddressingMode) -> Result<
        CpuState,
        Fault,
    > {
        match code {
            0xC0 | 0xC4 | 0xCC => self.compare(self.y, mode),
            0xC1 | 0xC5 | 0xC9 | 0xCD | 0xD1 | 0xD5 | 0xD9 | 0xDD => self.compare(self.a, mode),
            0xC2 | 0xD4 | 0xDC | 0xE2 | 0xF4 | 0xFC => self.nop_read(mode),
            0xC3 | 0xC7 | 0xCF | 0xD3 | 0xD7 | 0xDB | 0xDF => self.dcp(mode),
            0xC6 | 0xCE | 0xD6 | 0xDE => self.dec(mode),
            0xE0 | 0xE4 | 0xEC => self.compare(self.x, mode),
            0xE1 | 0xE5 | 0xE9 | 0xEB | 0xED | 0xF1 | 0xF5 | 0xF9 | 0xFD => self.sbc(mode),
            0xE3 | 0xE7 | 0xEF | 0xF3 | 0xF7 | 0xFB | 0xFF => self.isb(mode),
            0xE6 | 0xEE | 0xF6 | 0xFE => self.inc(mode),
            _ => Ok(self),
        }
    }

    /// The effect of an instruction with an addressing mode, the program
    /// counter pointing at its first operand byte.
    pub open spec fn execute_addressed(self, code: u8, mode: AddressingMode) -> Result<
        CpuState,
        Fault,
    > {
        if code < 0x40 {
            self.execute_low(code, mode)
        } else if code < 0x80 {
            self.execute_mid_low(code, mode)
        } else if code < 0xC0 {
            self.execute_mid_high(code, mode)
        } else {
            self.execute_high(code, mode)
        }
    }

    /// The effect of one instruction.
    pub open spec fn execute(self, op: OpCode) -> Result<CpuState, Fault> {
        if op.mode == AddressingMode::NoneAddressing {
            self.execute_implied(op.code)
        } else {
            self.execute_addressed(op.code, op.mode)
        }
    }

    /// Interrupt entry: push the program counter and the status byte (upper
    /// break bit set, lower clear), set I, charge two cycles and continue
    /// at the address kept in the NMI vector. The flag says whether a video
    /// field ended during those two cycles.
    #[verifier::opaque]
    pub open spec fn interrupt_nmi(self) -> Result<(CpuState, bool), Fault> {
        match self.push_u16(self.pc) {
            Ok(c) => match c.push(
                c.with_flag(CPUFlags::BREAK2, false).with_flag(CPUFlags::BREAK1, true).p,
            ) {
                Ok(d) => {
                    let e = d.with_flag(CPUFlags::INTERRUPT, true);
                    let ticked = e.bus.after_tick(2);
                    match (CpuState { bus: ticked.0, ..e }).read_u16(NMI_VECTOR) {
                        Ok((f, pc)) => Ok((CpuState { pc, ..f }, ticked.1)),
                        Err(e) => Err(e),
                    }
                },
                Err(e) => Err(e),
            },
            Err(e) => Err(e),
        }
    }

    /// The pending NMI, if any, taken.
    pub open spec fn poll(self) -> Result<(CpuState, bool), Fault> {
        let polled = CpuState { bus: self.bus.after_poll(), ..self };
        if self.bus.ppu.nmi_interrupt is Some {
            polled.interrupt_nmi()
        } else {
            Ok((polled, false))
        }
    }

    /// The instruction `op`, fetched already, carried out: its effect,
    /// the program counter moved past its operand unless it set the
    /// counter itself, and its cycles charged to the bus. BRK only halts.
    #[verifier::opaque]
    pub open spec fn perform(self, op: OpCode) -> Result<(CpuState, StepReport), Fault> {
        if op.code == 0x00 {
            Ok((self, StepReport { halted: true, frame_completed: false, nmi_serviced: false }))
        } else {
            match self.execute(op) {
                Ok(c) => {
                    let d = if sets_pc(op.code) {
                        c
                    } else {
                        CpuState { pc: c.pc.wrapping_add((op.len - 1) as u16), ..c }
                    };
                    let ticked = d.bus.after_tick(op.cycles);
                    Ok(
                        (
                            CpuState { bus: ticked.0, ..d },
                            StepReport {
                                halted: false,
                                frame_completed: ticked.1,
                                nmi_serviced: false,
                            },
                        ),
                    )
                },
                Err(e) => Err(e),
            }
        }
    }

    /// One step: take a pending NMI, fetch the opcode at the program
    /// counter, move the counter past it, and perform the instruction.
    /// A byte without an entry in the opcode table is a fault, and so is
    /// a program counter that points where nothing is mapped. A fault
    /// comes with the address of the instruction that ran into it; one
    /// during interrupt entry, with the address the interrupt came in at.
    #[verifier::opaque]
    pub open spec fn step(self) -> Result<(CpuState, StepReport), Crash> {
        match self.poll() {
            Ok((c, frame)) => if unmapped(c.pc) {
                Err(Crash { fault: Fault::UnmappedFetch { addr: c.pc }, pc: c.pc })
            } else {
                self.fetch_and_perform(c, frame)
            },
            Err(fault) => Err(Crash { fault, pc: self.pc }),
        }
    }

    /// The rest of a step once the interrupt poll has left the state `c`:
    /// the fetch, the decoding and the instruction itself.
    pub open spec fn fetch_and_perform(self, c: CpuState, frame: bool) -> Result<
        (CpuState, StepReport),
        Crash,
    > {
        match c.read(c.pc) {
            Ok((d, code)) => match OpCode::describe(code) {
                Some(op) => match (CpuState { pc: d.pc.wrapping_add(1), ..d }).perform(op) {
                    Ok((f, report)) => Ok(
                        (
                            f,
                            StepReport {
                                halted: report.halted,
                                frame_completed: frame || report.frame_completed,
                                nmi_serviced: self.bus.ppu.nmi_interrupt is Some,
                            },
                        ),
                    ),
                    Err(fault) => Err(Crash { fault, pc: c.pc }),
                },
                None => Err(Crash { fault: Fault::UnknownOpcode { code, pc: c.pc }, pc: c.pc }),
            },
            Err(fault) => Err(Crash { fault, pc: c.pc }),
        }
    }

    /// Where a run stands after at most `n` steps: it stops early on BRK,
    /// and a fault ends it.
    pub open spec fn after_steps(self, n: nat) -> Result<RunState, Crash>
        decreases n,
    {
        if n == 0 {
            Ok(RunState { cpu: self, halted: false, steps: 0 })
        } else {
            match self.after_steps((n - 1) as nat) {
                Ok(run) => if run.halted {
                    Ok(run)
                } else {
                    match run.cpu.step() {
                        Ok((cpu, report)) => Ok(
                            RunState { cpu, halted: report.halted, steps: run.steps + 1 },
                        ),
                        Err(e) => Err(e),
                    }
                },
                Err(e) => Err(e),
            }
        }
    }

    /// The state from which `load_and_run` starts the program. A fault
    /// on the way there comes with the program counter from before.
    pub open spec fn after_load_and_reset(self, program: Seq<u8>) -> Result<CpuState, Crash> {
        match self.after_load(program) {
            Ok(c) => match c.after_reset() {
                Ok(d) => Ok(CpuState { pc: LOAD_ADDRESS, ..d }),
                Err(fault) => Err(Crash { fault, pc: self.pc }),
            },
            Err(fault) => Err(Crash { fault, pc: self.pc }),
        }
    }
}

impl CPU {
    fn execute_implied(&mut self, code: u8) -> (r: Result<(), Fault>)
        ensures
            agrees_unit(old(self)@.execute_implied(code), final(self)@, r),
    {
        proof {
            reveal(CpuState::execute_implied);
        }
        match code {
            0x08 => self.php(),
            0x0A => {
                self.asl_acc();
                Ok(())
            },
            0x10 => {
                let taken = !self.status.contains(CPUFlags::NEGATIVE);
                self.branch(taken)
            },
            0x18 => {
                self.status.set(CPUFlags::CARRY, false);
                Ok(())
            },
            0x28 => self.plp(),
            0x2A => {
                self.rol_acc();
                Ok(())
            },
            0x30 => {
                let taken = self.status.contains(CPUFlags::NEGATIVE);
                self.branch(taken)
            },
            0x38 => {
                self.status.set(CPUFlags::CARRY, true);
                Ok(())
            },
            0x40 => self.rti(),
            0x48 => self.pha(),
            0x4A => {
                self.lsr_acc();
                Ok(())
            },
            0x50 => {
                let taken = !self.status.contains(CPUFlags::OVERFLOW);
                self.branch(taken)
            },
            0x58 => {
                self.status.set(CPUFlags::INTERRUPT, false);
                Ok(())
            },
            0x60 => self.rts(),
            0x68 => self.pla(),
            0x6A => {
                self.ror_acc();
                Ok(())
            },
            0x6C => self.jmp(false),
            0x70 => {
                let taken = self.status.contains(CPUFlags::OVERFLOW);
                self.branch(taken)
            },
            0x78 => {
                self.status.set(CPUFlags::INTERRUPT, true);
                Ok(())
            },
            0x88 => {
                self.dey();
                Ok(())
            },
            0x8A => {
                self.txa();
                Ok(())
            },
            0x90 => {
                let taken = !self.status.contains(CPUFlags::CARRY);
                self.branch(taken)
            },
            0x98 => {
                self.tya();
                Ok(())
            },
            0x9A => {
                self.register_s = self.register_x;
                Ok(())
            },
            0xA8 => {
                self.tay();
                Ok(())
            },
            0xAA => {
                self.tax();
                Ok(())
            },
            0xB0 => {
                let taken = self.status.contains(CPUFlags::CARRY);
                self.branch(taken)
            },
            0xB8 => {
                self.status.set(CPUFlags::OVERFLOW, false);
                Ok(())
            },
            0xBA => {
                self.tsx();
                Ok(())
            },
            0xC8 => {
                self.iny();
                Ok(())
            },
            0xCA => {
                self.dex();
                Ok(())
            },
            0xD0 => {
                let taken = !self.status.contains(CPUFlags::ZERO);
                self.branch(taken)
            },
            0xD8 => {
                self.status.set(CPUFlags::DECIMAL, false);
                Ok(())
            },
            0xE8 => {
                self.inx();
                Ok(())
            },
            0xF0 => {
                let taken = self.status.contains(CPUFlags::ZERO);
                self.branch(taken)
            },
            0xF8 => {
                self.status.set(CPUFlags::DECIMAL, true);
                Ok(())
            },
            _ => Ok(()),
        }
    }

    fn execute_low(&mut self, code: u8, mode: &AddressingMode) -> (r: Result<(), Fault>)
        requires
            *mode != AddressingMode::NoneAddressing,
        ensures
            agrees_unit(old(self)@.execute_low(code, *mode), final(self)@, r),
    {
        proof {
            reveal(CpuState::execute_low);
        }
        match code {
            0x01 | 0x05 | 0x09 | 0x0D | 0x11 | 0x15 | 0x19 | 0x1D => self.ora(mode),
            0x03 | 0x07 | 0x0F | 0x13 | 0x17 | 0x1B | 0x1F => self.slo(mode),
            0x04 | 0x0C | 0x14 | 0x1C | 0x34 | 0x3C => self.nop_read(mode),
            0x06 | 0x0E | 0x16 | 0x1E => self.asl(mode),
            0x0B | 0x2B => self.anc(mode),
            0x20 => self.jsr(),
            0x21 | 0x25 | 0x29 | 0x2D | 0x31 | 0x35 | 0x39 | 0x3D => self.and(mode),
            0x23 | 0x27 | 0x2F | 0x33 | 0x37 | 0x3B | 0x3F => self.rla(mode),
            0x24 | 0x2C => self.bit(mode),
            0x26 | 0x2E | 0x36 | 0x3E => self.rol(mode),
            _ => Ok(()),
        }
    }

    fn execute_mid_low(&mut self, code: u8, mode: &AddressingMode) -> (r: Result<(), Fault>)
        requires
            *mode != AddressingMode::NoneAddressing,
        ensures
            agrees_unit(old(self)@.execute_mid_low(code, *mode), final(self)@, r),
    {
        proof {
            reveal(CpuState::execute_mid_low);
        }
        match code {
            0x41 | 0x45 | 0x49 | 0x4D | 0x51 | 0x55 | 0x59 | 0x5D => self.eor(mode),
            0x43 | 0x47 | 0x4F | 0x53 | 0x57 | 0x5B | 0x5F => self.sre(mode),
            0x44 | 0x54 | 0x5C | 0x64 | 0x74 | 0x7C => self.nop_read(mode),
            0x46 | 0x4E | 0x56 | 0x5E => self.lsr(mode),
            0x4B => self.alr(mode),
            0x4C => self.jmp(true),
            0x61 | 0x65 | 0x69 | 0x6D | 0x71 | 0x75 | 0x79 | 0x7D => self.adc(mode),
            0x63 | 0x67 | 0x6F | 0x73 | 0x77 | 0x7B | 0x7F => self.rra(mode),
            0x66 | 0x6E | 0x76 | 0x7E => self.ror(mode),
            _ => Ok(()),
        }
    }

    fn execute_mid_high(&mut self, code: u8, mode: &AddressingMode) -> (r: Result<(), Fault>)
        requires
            *mode != AddressingMode::NoneAddressing,
        ensures
            agrees_unit(old(self)@.execute_mid_high(code, *mode), final(self)@, r),
    {
        proof {
            reveal(CpuState::execute_mid_high);
        }
        match code {
            0x80 | 0x82 | 0x89 => self.nop_read(mode),
            0x81 | 0x85 | 0x8D | 0x91 | 0x95 | 0x99 | 0x9D => self.sta(mode),
            0x83 | 0x87 | 0x8F | 0x97 => self.axs(mode),
            0x84 | 0x8C | 0x94 => self.sty(mode),
            0x86 | 0x8E | 0x96 => self.stx(mode),
            0xA0 | 0xA4 | 0xAC | 0xB4 | 0xBC => self.ldy(mode),
            0xA1 | 0xA5 | 0xA9 | 0xAD | 0xB1 | 0xB5 | 0xB9 | 0xBD => self.lda(mode),
            0xA2 | 0xA6 | 0xAE | 0xB6 | 0xBE => self.ldx(mode),
            0xA3 | 0xA7 | 0xAF | 0xB3 | 0xB7 | 0xBF => self.lax(mode),
            _ => Ok(()),
        }
    }

    fn execute_high(&mut self, code: u8, mode: &AddressingMode) -> (r: Result<(), Fault>)
        requires
            *mode != AddressingMode::NoneAddressing,
        ensures
            agrees_unit(old(self)@.execute_high(code, *mode), final(self)@, r),
    {
        proof {
            reveal(CpuState::execute_high);
        }
        match code {
            0xC0 | 0xC4 | 0xCC => {
                let register = self.register_y;
                self.compare(register, mode)
            },
            0xC1 | 0xC5 | 0xC9 | 0xCD | 0xD1 | 0xD5 | 0xD9 | 0xDD => {
                let register = self.register_a;
                self.compare(register, mode)
            },
            0xC2 | 0xD4 | 0xDC | 0xE2 | 0xF4 | 0xFC => self.nop_read(mode),
            0xC3 | 0xC7 | 0xCF | 0xD3 | 0xD7 | 0xDB | 0xDF => self.dcp(mode),
            0xC6 | 0xCE | 0xD6 | 0xDE => self.dec(mode),
            0xE0 | 0xE4 | 0xEC => {
                let register = self.register_x;
                self.compare(register, mode)
            },
            0xE1 | 0xE5 | 0xE9 | 0xEB | 0xED | 0xF1 | 0xF5 | 0xF9 | 0xFD => self.sbc(mode),
            0xE3 | 0xE7 | 0xEF | 0xF3 | 0xF7 | 0xFB | 0xFF => self.isb(mode),
            0xE6 | 0xEE | 0xF6 | 0xFE => self.inc(mode),
            _ => Ok(()),
        }
    }

    fn execute_addressed(&mut self, code: u8, mode: &AddressingMode) -> (r: Result<(), Fault>)
        requires
            *mode != AddressingMode::NoneAddressing,
        ensures
            agrees_unit(old(self)@.execute_addressed(code, *mode), final(self)@, r),
    {
        if code < 0x40 {
            self.execute_low(code, mode)
        } else if code < 0x80 {
            self.execute_mid_low(code, mode)
        } else if code < 0xC0 {
            self.execute_mid_high(code, mode)
        } else {
            self.execute_high(code, mode)
        }
    }

    /// Carries out one decoded instruction, the program counter pointing
    /// at its first operand byte.
    pub(crate) fn execute(&mut self, opcode: &OpCode) -> (r: Result<(), Fault>)
        ensures
            agrees_unit(old(self)@.execute(*opcode), final(self)@, r),
    {
        match opcode.mode {
            AddressingMode::NoneAddressing => self.execute_implied(opcode.code),
            _ => self.execute_addressed(opcode.code, &opcode.mode),
        }
    }

    fn interrupt_nmi(&mut self) -> (r: Result<bool, Fault>)
        ensures
            agrees(old(self)@.interrupt_nmi(), final(self)@, r),
    {
        proof {
            reveal(CpuState::interrupt_nmi);
        }
        self.push_to_stack_u16(self.program_counter)?;
        let mut flags = self.status;
        flags.set(CPUFlags::BREAK2, false);
        flags.set(CPUFlags::BREAK1, true);
        self.push_to_stack(flags.bits())?;
        self.status.insert(CPUFlags::INTERRUPT);
        let frame = self.bus.tick(2);
        self.program_counter = self.mem_read_u16(NMI_VECTOR)?;
        Ok(frame)
    }

    fn perform(&mut self, opcode: &OpCode) -> (r: Result<StepReport, Fault>)
        requires
            OpCode::describe(opcode.code) == Some(*opcode),
        ensures
            agrees(old(self)@.perform(*opcode), final(self)@, r),
    {
        proof {
            reveal(CpuState::perform);
        }
        if opcode.code == 0x00 {
            return Ok(StepReport { halted: true, frame_completed: false, nmi_serviced: false });
        }
        self.execute(opcode)?;
        proof {
            lemma_table_shape(opcode.code);
        }
        if !opcode_sets_pc(opcode.code) {
            self.program_counter = self.program_counter.wrapping_add((opcode.len - 1) as u16);
        }
        let frame = self.bus.tick(opcode.cycles);
        Ok(StepReport { halted: false, frame_completed: frame, nmi_serviced: false })
    }

    /// Executes exactly one instruction, after taking a pending NMI.
    pub fn step(&mut self) -> (r: Result<StepReport, Crash>)
        ensures
            agrees(old(self)@.step(), final(self)@, r),
    {
        proof {
            reveal(CpuState::step);
        }
        let entry = self.program_counter;
        let nmi = self.bus.poll_nmi_status().is_some();
        let frame = if nmi {
            match self.interrupt_nmi() {
                Ok(frame) => frame,
                Err(fault) => {
                    return Err(Crash { fault, pc: entry });
                },
            }
        } else {
            false
        };
        let pc = self.program_counter;
        if 0x4018 <= pc && pc < 0x8000 {
            return Err(Crash { fault: Fault::UnmappedFetch { addr: pc }, pc });
        }
        let code = match self.mem_read(pc) {
            Ok(code) => code,
            Err(fault) => {
                return Err(Crash { fault, pc });
            },
        };
        let opcode = match OpCode::lookup(code) {
            Some(opcode) => opcode,
            None => {
                return Err(Crash { fault: Fault::UnknownOpcode { code, pc }, pc });
            },
        };
        self.program_counter = self.program_counter.wrapping_add(1);
        match self.perform(&opcode) {
            Ok(report) => Ok(
                StepReport {
                    halted: report.halted,
                    frame_completed: frame || report.frame_completed,
                    nmi_serviced: nmi,
                },
            ),
            Err(fault) => Err(Crash { fault, pc }),
        }
    }

    /// Runs until BRK, a fault, or `max_steps` instructions, showing the
    /// processor to `callback` before every instruction. The callback looks
    /// and does not touch: what the run does to the machine is what it
    /// does without it.
    pub fn run_with_callback_for<F: Fn(&CPU)>(&mut self, callback: F, max_steps: u64) -> (r: Result<
        RunReport,
        Crash,
    >)
        requires
            forall|cpu: &CPU| callback.requires((cpu,)),
        ensures
            match old(self)@.after_steps(max_steps as nat) {
                Ok(run) => r == Ok::<RunReport, Crash>(
                    RunReport { halted: run.halted, steps: run.steps as u64 },
                ) && final(self)@ == run.cpu && run.steps <= max_steps,
                Err(e) => r == Err::<RunReport, Crash>(e),
            },
    {
        let mut steps: u64 = 0;
        while steps < max_steps
            invariant
                steps <= max_steps,
                forall|cpu: &CPU| callback.requires((cpu,)),
                old(self)@.after_steps(steps as nat) == Ok::<RunState, Crash>(
                    RunState { cpu: self@, halted: false, steps: steps as nat },
                ),
            decreases max_steps - steps,
        {
            callback(&*self);
            match self.step() {
                Ok(report) => {
                    steps += 1;
                    if report.halted {
                        proof {
                            lemma_run_ends(old(self)@, steps as nat, max_steps as nat);
                        }
                        return Ok(RunReport { halted: true, steps });
                    }
                },
                Err(e) => {
                    proof {
                        lemma_run_ends(old(self)@, (steps + 1) as nat, max_steps as nat);
                    }
                    return Err(e);
                },
            }
        }
        Ok(RunReport { halted: false, steps })
    }

    /// Runs until BRK or a fault, showing the processor to `callback`
    /// before every instruction. The run gives up after `u64::MAX`
    /// instructions, which no host will live to see.
    pub fn run_with_callback<F: Fn(&CPU)>(&mut self, callback: F) -> (r: Result<RunReport, Crash>)
        requires
            forall|cpu: &CPU| callback.requires((cpu,)),
        ensures
            match old(self)@.after_steps(u64::MAX as nat) {
                Ok(run) => r == Ok::<RunReport, Crash>(
                    RunReport { halted: run.halted, steps: run.steps as u64 },
                ) && final(self)@ == run.cpu,
                Err(e) => r == Err::<RunReport, Crash>(e),
            },
    {
        self.run_with_callback_for(callback, u64::MAX)
    }

    /// Runs until BRK, a fault, or `max_steps` instructions.
    pub fn run_for(&mut self, max_steps: u64) -> (r: Result<RunReport, Crash>)
        ensures
            match old(self)@.after_steps(max_steps as nat) {
                Ok(run) => r == Ok::<RunReport, Crash>(
                    RunReport { halted: run.halted, steps: run.steps as u64 },
                ) && final(self)@ == run.cpu && run.steps <= max_steps,
                Err(e) => r == Err::<RunReport, Crash>(e),
            },
    {
        self.run_with_callback_for(|_cpu: &CPU| {}, max_steps)
    }

    /// Runs until BRK or a fault. The run gives up after `u64::MAX`
    /// instructions, which no host will live to see.
    pub fn run(&mut self) -> (r: Result<RunReport, Crash>)
        ensures
            match old(self)@.after_steps(u64::MAX as nat) {
                Ok(run) => r == Ok::<RunReport, Crash>(
                    RunReport { halted: run.halted, steps: run.steps as u64 },
                ) && final(self)@ == run.cpu,
                Err(e) => r == Err::<RunReport, Crash>(e),
            },
    {
        self.run_for(u64::MAX)
    }

    /// Loads a program at 0x0600, resets the processor and runs the
    /// program from its first byte.
    pub fn load_and_run(&mut self, program: Vec<u8>) -> (r: Result<RunReport, Crash>)
        ensures
            match old(self)@.after_load_and_reset(program@) {
                Ok(start) => match start.after_steps(u64::MAX as nat) {
                    Ok(run) => r == Ok::<RunReport, Crash>(
                        RunReport { halted: run.halted, steps: run.steps as u64 },
                    ) && final(self)@ == run.cpu,
                    Err(e) => r == Err::<RunReport, Crash>(e),
                },
                Err(e) => r == Err::<RunReport, Crash>(e),
            },
    {
        let pc = self.program_counter;
        match self.load(program) {
            Ok(()) => {},
            Err(fault) => {
                return Err(Crash { fault, pc });
            },
        }
        match self.reset() {
            Ok(()) => {},
            Err(fault) => {
                return Err(Crash { fault, pc });
            },
        }
        self.program_counter = LOAD_ADDRESS;
        self.run()
    }
}

/// Once a run has halted or faulted, more steps change nothing.
pub proof fn lemma_run_ends(c: CpuState, k: nat, n: nat)
    requires
        k <= n,
        match c.after_steps(k) {
            Ok(run) => run.halted,
            Err(_) => true,
        },
    ensures
        c.after_steps(n) == c.after_steps(k),
    decreases n,
{
    if k < n {
        lemma_run_ends(c, k, (n - 1) as nat);
    }
}

/// A fault while loading ends the load: the longer program gives the same fault.
pub proof fn lemma_load_fault(c: CpuState, program: Seq<u8>, k: int)
    requires
        0 <= k <= program.len(),
        c.after_load(program.take(k)) is Err,
    ensures
        c.after_load(program) == c.after_load(program.take(k)),
    decreases program.len(),
{
    if k < program.len() {
        assert(program.drop_last().take(k) =~= program.take(k));
        lemma_load_fault(c, program.drop_last(), k);
    } else {
        assert(program.take(k) =~= program);
    }
}

} // verus!
