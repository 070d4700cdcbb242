//! What each instruction does to the processor and to memory.
//!
//! In every instruction that takes an operand, the program counter points
//! at the first operand byte.

use vstd::prelude::*;
use crate::cpu::{AddressingMode, CPU, CPUFlags, CpuState, Memory};
use crate::fault::{Fault, agrees, agrees_unit};
use crate::ppu::registers::address::word;

verus! {

/// A branch offset as a 16-bit two's-complement number.
pub open spec fn sign_extend(offset: u8) -> u16 {
    if offset & 0x80 == 0 {
        offset as u16
    } else {
        (offset as u16) | 0xFF00
    }
}

impl CpuState {
    /// The operand of an instruction: its address, and the byte read there.
    #[verifier::opaque]
    pub open spec fn operand(self, mode: AddressingMode) -> Result<(CpuState, (u16, u8)), Fault> {
        match self.operand_address(mode, self.pc) {
            Ok((c, addr)) => match c.read(addr) {
                Ok((d, data)) => Ok((d, (addr, data))),
                Err(e) => Err(e),
            },
            Err(e) => Err(e),
        }
    }

    /// A plus `data` plus the carry: the sum's low eight bits go to A, the
    /// ninth to the carry; V is set exactly when both inputs differ in
    /// sign from the result; Z and N follow A.
    pub open spec fn add_to_acc_with_carry(self, data: u8) -> CpuState {
        let sum: int = self.a + data + (if self.flag(CPUFlags::CARRY) {
            1int
        } else {
            0int
        });
        let result: u8 = (if sum > 0xFF {
            sum - 0x100
        } else {
            sum
        }) as u8;
        (CpuState {
            a: result,
            ..self.with_flag(CPUFlags::CARRY, sum > 0xFF).with_flag(
                CPUFlags::OVERFLOW,
                (self.a ^ result) & (data ^ result) & 0x80 != 0,
            )
        }).with_zn(result)
    }

    /// A shift to the left by one: the top bit goes to the carry; Z and N
    /// follow the result.
    pub open spec fn shift_left(self, data: u8) -> (CpuState, u8) {
        (self.with_flag(CPUFlags::CARRY, data & 0x80 > 0).with_zn(data << 1), data << 1)
    }

    /// A shift to the right by one: the bottom bit goes to the carry; Z
    /// and N follow the result.
    pub open spec fn shift_right(self, data: u8) -> (CpuState, u8) {
        (self.with_flag(CPUFlags::CARRY, data & 0x01 > 0).with_zn(data >> 1), data >> 1)
    }

    /// A rotation to the left through the carry; N follows the result.
    pub open spec fn rotate_left(self, data: u8) -> (CpuState, u8) {
        let result: u8 = (data << 1) | (if self.flag(CPUFlags::CARRY) {
            1u8
        } else {
            0u8
        });
        (
            self.with_flag(CPUFlags::CARRY, data >> 7 == 1).with_flag(
                CPUFlags::NEGATIVE,
                result >> 7 == 1,
            ),
            result,
        )
    }

    /// A rotation to the right through the carry; N follows the result.
    pub open spec fn rotate_right(self, data: u8) -> (CpuState, u8) {
        let result: u8 = (data >> 1) | (if self.flag(CPUFlags::CARRY) {
            0x80u8
        } else {
            0u8
        });
        (
            self.with_flag(CPUFlags::CARRY, data & 1 == 1).with_flag(
                CPUFlags::NEGATIVE,
                result >> 7 == 1,
            ),
            result,
        )
    }

    /// A comparison of a register with a byte: C exactly when the register
    /// is at least the byte, Z when they are equal, N the top bit of
    /// their difference.
    pub open spec fn compare_with(self, register: u8, data: u8) -> CpuState {
        let difference = register.wrapping_sub(data);
        self.with_flag(CPUFlags::CARRY, register >= data).with_flag(
            CPUFlags::NEGATIVE,
            difference & 0x80 > 0,
        ).with_flag(CPUFlags::ZERO, difference == 0)
    }

    /// The status byte as PLP and RTI take it from the stack: the upper
    /// break bit forced on, the lower forced off.
    pub open spec fn with_pulled_status(self, data: u8) -> CpuState {
        (CpuState { p: data, ..self }).with_flag(CPUFlags::BREAK1, true).with_flag(
            CPUFlags::BREAK2,
            false,
        )
    }

    /// ADC: add the operand and the carry to A.
    #[verifier::opaque]
    pub open spec fn adc(self, mode: AddressingMode) -> Result<CpuState, Fault> {
        match self.operand(mode) {
            Ok((c, (addr, data))) => Ok(c.add_to_acc_with_carry(data)),
            Err(e) => Err(e),
        }
    }

    /// SBC: subtract the operand and the borrow from A, as an addition of the operand's complement.
    #[verifier::opaque]
    pub open spec fn sbc(self, mode: AddressingMode) -> Result<CpuState, Fault> {
        match self.operand(mode) {
            Ok((c, (addr, data))) => Ok(c.add_to_acc_with_carry(!data)),
            Err(e) => Err(e),
        }
    }

    /// AND: A and the operand, bit by bit; Z and N follow A.
    #[verifier::opaque]
    pub open spec fn and(self, mode: AddressingMode) -> Result<CpuState, Fault> {
        match self.operand(mode) {
            Ok((c, (addr, data))) => Ok((CpuState { a: c.a & data, ..c }).with_zn(c.a & data)),
            Err(e) => Err(e),
        }
    }

    /// ORA: A or the operand, bit by bit; Z and N follow A.
    #[verifier::opaque]
    pub open spec fn ora(self, mode: AddressingMode) -> Result<CpuState, Fault> {
        match self.operand(mode) {
            Ok((c, (addr, data))) => Ok((CpuState { a: c.a | data, ..c }).with_zn(c.a | data)),
            Err(e) => Err(e),
        }
    }

    /// EOR: A exclusive-or the operand, bit by bit; Z and N follow A.
    #[verifier::opaque]
    pub open spec fn eor(self, mode: AddressingMode) -> Result<CpuState, Fault> {
        match self.operand(mode) {
            Ok((c, (addr, data))) => Ok((CpuState { a: c.a ^ data, ..c }).with_zn(c.a ^ data)),
            Err(e) => Err(e),
        }
    }

    /// LDA: load A with the operand; Z and N follow it.
    #[verifier::opaque]
    pub open spec fn lda(self, mode: AddressingMode) -> Result<CpuState, Fault> {
        match self.operand(mode) {
            Ok((c, (addr, data))) => Ok((CpuState { a: data, ..c }).with_zn(data)),
            Err(e) => Err(e),
        }
    }

    /// LDX: load X with the operand; Z and N follow it.
    #[verifier::opaque]
    pub open spec fn ldx(self, mode: AddressingMode) -> Result<CpuState, Fault> {
        match self.operand(mode) {
            Ok((c, (addr, data))) => Ok((CpuState { x: data, ..c }).with_zn(data)),
            Err(e) => Err(e),
        }
    }

    /// LDY: load Y with the operand; Z and N follow it.
    #[verifier::opaque]
    pub open spec fn ldy(self, mode: AddressingMode) -> Result<CpuState, Fault> {
        match self.operand(mode) {
            Ok((c, (addr, data))) => Ok((CpuState { y: data, ..c }).with_zn(data)),
            Err(e) => Err(e),
        }
    }

    /// BIT: Z from A and the operand, V and N from bits 6 and 7 of the operand.
    #[verifier::opaque]
    pub open spec fn bit(self, mode: AddressingMode) -> Result<CpuState, Fault> {
        match self.operand(mode) {
            Ok((c, (addr, data))) => Ok(
                c.with_flag(CPUFlags::ZERO, c.a & data == 0).with_flag(
                    CPUFlags::OVERFLOW,
                    data & 0x40 > 0,
                ).with_flag(CPUFlags::NEGATIVE, data & 0x80 > 0),
            ),
            Err(e) => Err(e),
        }
    }

    /// Compares a register with the operand.
    #[verifier::opaque]
    pub open spec fn compare(self, register: u8, mode: AddressingMode) -> Result<CpuState, Fault> {
        match self.operand(mode) {
            Ok((c, (addr, data))) => Ok(c.compare_with(register, data)),
            Err(e) => Err(e),
        }
    }

    /// The NOP forms with an operand: read it and drop it.
    #[verifier::opaque]
    pub open spec fn nop_read(self, mode: AddressingMode) -> Result<CpuState, Fault> {
        match self.operand(mode) {
            Ok((c, (addr, data))) => Ok(c),
            Err(e) => Err(e),
        }
    }

    /// ASL on memory: the operand is replaced by its shifted value.
    #[verifier::opaque]
    pub open spec fn asl(self, mode: AddressingMode) -> Result<CpuState, Fault> {
        match self.operand(mode) {
            Ok((c, (addr, data))) => c.shift_left(data).0.write(addr, c.shift_left(data).1),
            Err(e) => Err(e),
        }
    }

    /// LSR on memory: the operand is replaced by its shifted value.
    #[verifier::opaque]
    pub open spec fn lsr(self, mode: AddressingMode) -> Result<CpuState, Fault> {
        match self.operand(mode) {
            Ok((c, (addr, data))) => c.shift_right(data).0.write(addr, c.shift_right(data).1),
            Err(e) => Err(e),
        }
    }

    /// ROL on memory: the operand is replaced by its shifted value.
    #[verifier::opaque]
    pub open spec fn rol(self, mode: AddressingMode) -> Result<CpuState, Fault> {
        match self.operand(mode) {
            Ok((c, (addr, data))) => c.rotate_left(data).0.write(addr, c.rotate_left(data).1),
            Err(e) => Err(e),
        }
    }

    /// ROR on memory: the operand is replaced by its shifted value.
    #[verifier::opaque]
    pub open spec fn ror(self, mode: AddressingMode) -> Result<CpuState, Fault> {
        match self.operand(mode) {
            Ok((c, (addr, data))) => c.rotate_right(data).0.write(addr, c.rotate_right(data).1),
            Err(e) => Err(e),
        }
    }

    /// INC: the operand plus one, wrapping; Z and N follow it.
    #[verifier::opaque]
    pub open spec fn inc(self, mode: AddressingMode) -> Result<CpuState, Fault> {
        match self.operand(mode) {
            Ok((c, (addr, data))) => match c.write(addr, data.wrapping_add(1)) {
                Ok(d) => Ok(d.with_zn(data.wrapping_add(1))),
                Err(e) => Err(e),
            },
            Err(e) => Err(e),
        }
    }

    /// DEC: the operand minus one, wrapping; Z and N follow it.
    #[verifier::opaque]
    pub open spec fn dec(self, mode: AddressingMode) -> Result<CpuState, Fault> {
        match self.operand(mode) {
            Ok((c, (addr, data))) => c.with_zn(data.wrapping_sub(1)).write(addr, data.wrapping_sub(1)),
            Err(e) => Err(e),
        }
    }

    /// STA: store A at the operand address.
    #[verifier::opaque]
    pub open spec fn sta(self, mode: AddressingMode) -> Result<CpuState, Fault> {
        match self.operand_address(mode, self.pc) {
            Ok((c, addr)) => c.write(addr, c.a),
            Err(e) => Err(e),
        }
    }

    /// STX: store X at the operand address.
    #[verifier::opaque]
    pub open spec fn stx(self, mode: AddressingMode) -> Result<CpuState, Fault> {
        match self.operand_address(mode, self.pc) {
            Ok((c, addr)) => c.write(addr, c.x),
            Err(e) => Err(e),
        }
    }

    /// STY: store Y at the operand address.
    #[verifier::opaque]
    pub open spec fn sty(self, mode: AddressingMode) -> Result<CpuState, Fault> {
        match self.operand_address(mode, self.pc) {
            Ok((c, addr)) => c.write(addr, c.y),
            Err(e) => Err(e),
        }
    }

    /// SAX: store A and X, bit by bit at the operand address.
    #[verifier::opaque]
    pub open spec fn axs(self, mode: AddressingMode) -> Result<CpuState, Fault> {
        match self.operand_address(mode, self.pc) {
            Ok((c, addr)) => c.write(addr, c.x & c.a),
            Err(e) => Err(e),
        }
    }

    /// TAX: copy A to X; Z and N follow it.
    pub open spec fn tax(self) -> CpuState {
        (CpuState { x: self.a, ..self }).with_zn(self.a)
    }

    /// TAY: copy A to Y; Z and N follow it.
    pub open spec fn tay(self) -> CpuState {
        (CpuState { y: self.a, ..self }).with_zn(self.a)
    }

    /// TSX: copy S to X; Z and N follow it.
    pub open spec fn tsx(self) -> CpuState {
        (CpuState { x: self.s, ..self }).with_zn(self.s)
    }

    /// TXA: copy X to A; Z and N follow it.
    pub open spec fn txa(self) -> CpuState {
        (CpuState { a: self.x, ..self }).with_zn(self.x)
    }

    /// TYA: copy Y to A; Z and N follow it.
    pub open spec fn tya(self) -> CpuState {
        (CpuState { a: self.y, ..self }).with_zn(self.y)
    }

    /// INX: X plus one, wrapping; Z and N follow it.
    pub open spec fn inx(self) -> CpuState {
        (CpuState { x: self.x.wrapping_add(1), ..self }).with_zn(self.x.wrapping_add(1))
    }

    /// INY: Y plus one, wrapping; Z and N follow it.
    pub open spec fn iny(self) -> CpuState {
        (CpuState { y: self.y.wrapping_add(1), ..self }).with_zn(self.y.wrapping_add(1))
    }

    /// DEX: X minus one, wrapping; Z and N follow it.
    pub open spec fn dex(self) -> CpuState {
        (CpuState { x: self.x.wrapping_sub(1), ..self }).with_zn(self.x.wrapping_sub(1))
    }

    /// DEY: Y minus one, wrapping; Z and N follow it.
    pub open spec fn dey(self) -> CpuState {
        (CpuState { y: self.y.wrapping_sub(1), ..self }).with_zn(self.y.wrapping_sub(1))
    }

    /// ASL on A.
    pub open spec fn asl_acc(self) -> CpuState {
        CpuState { a: self.shift_left(self.a).1, ..self.shift_left(self.a).0 }
    }

    /// LSR on A.
    pub open spec fn lsr_acc(self) -> CpuState {
        CpuState { a: self.shift_right(self.a).1, ..self.shift_right(self.a).0 }
    }

    /// ROL on A; here Z follows A too.
    pub open spec fn rol_acc(self) -> CpuState {
        (CpuState { a: self.rotate_left(self.a).1, ..self.rotate_left(self.a).0 }).with_flag(
            CPUFlags::ZERO,
            self.rotate_left(self.a).1 == 0,
        )
    }

    /// ROR on A; here Z follows A too.
    pub open spec fn ror_acc(self) -> CpuState {
        (CpuState { a: self.rotate_right(self.a).1, ..self.rotate_right(self.a).0 }).with_flag(
            CPUFlags::ZERO,
            self.rotate_right(self.a).1 == 0,
        )
    }

    /// PHA: push A.
    #[verifier::opaque]
    pub open spec fn pha(self) -> Result<CpuState, Fault> {
        self.push(self.a)
    }

    /// PHP: push the status byte with both break bits set.
    #[verifier::opaque]
    pub open spec fn php(self) -> Result<CpuState, Fault> {
        self.push(self.with_flag(CPUFlags::BREAK2, true).with_flag(CPUFlags::BREAK1, true).p)
    }

    /// PLA: pull A; Z and N follow it.
    #[verifier::opaque]
    pub open spec fn pla(self) -> Result<CpuState, Fault> {
        match self.pull() {
            Ok((c, data)) => Ok((CpuState { a: data, ..c }).with_zn(data)),
            Err(e) => Err(e),
        }
    }

    /// PLP: pull the status byte.
    #[verifier::opaque]
    pub open spec fn plp(self) -> Result<CpuState, Fault> {
        match self.pull() {
            Ok((c, data)) => Ok(c.with_pulled_status(data)),
            Err(e) => Err(e),
        }
    }

    /// RTI: pull the status byte, then the program counter.
    #[verifier::opaque]
    pub open spec fn rti(self) -> Result<CpuState, Fault> {
        match self.plp() {
            Ok(c) => match c.pull_u16() {
                Ok((d, pc)) => Ok(CpuState { pc, ..d }),
                Err(e) => Err(e),
            },
            Err(e) => Err(e),
        }
    }

    /// RTS: pull the program counter and step past the last byte of the call.
    #[verifier::opaque]
    pub open spec fn rts(self) -> Result<CpuState, Fault> {
        match self.pull_u16() {
            Ok((c, pc)) => Ok(CpuState { pc: pc.wrapping_add(1), ..c }),
            Err(e) => Err(e),
        }
    }

    /// JSR: push the address of the last byte of the call, then jump to the operand.
    #[verifier::opaque]
    pub open spec fn jsr(self) -> Result<CpuState, Fault> {
        match self.push_u16(self.pc.wrapping_add(1)) {
            Ok(c) => match c.read_u16(c.pc) {
                Ok((d, pc)) => Ok(CpuState { pc, ..d }),
                Err(e) => Err(e),
            },
            Err(e) => Err(e),
        }
    }

    /// The target of an indirect jump through `lo_addr`. The high byte is
    /// fetched from the start of the same page when the low byte sits at
    /// the end of one, as the hardware does.
    pub open spec fn jmp_indirect_target(self, lo_addr: u16) -> Result<(CpuState, u16), Fault> {
        let hi_addr: u16 = if lo_addr & 0x00FF == 0x00FF {
            lo_addr & 0xFF00
        } else {
            (lo_addr + 1) as u16
        };
        match self.read(lo_addr) {
            Ok((c, lo)) => match c.read(hi_addr) {
                Ok((d, hi)) => Ok((d, word(hi, lo))),
                Err(e) => Err(e),
            },
            Err(e) => Err(e),
        }
    }

    /// JMP: to the operand, or, when `absolute` is false, to the address
    /// kept at the operand.
    #[verifier::opaque]
    pub open spec fn jmp(self, absolute: bool) -> Result<CpuState, Fault> {
        match self.read_u16(self.pc) {
            Ok((c, addr)) => if absolute {
                Ok(CpuState { pc: addr, ..c })
            } else {
                match c.jmp_indirect_target(addr) {
                    Ok((d, pc)) => Ok(CpuState { pc, ..d }),
                    Err(e) => Err(e),
                }
            },
            Err(e) => Err(e),
        }
    }

    /// A branch: when taken, the signed offset byte is added to the
    /// address of the next instruction; when not, the offset byte is
    /// skipped unread.
    #[verifier::opaque]
    pub open spec fn branch(self, taken: bool) -> Result<CpuState, Fault> {
        if taken {
            match self.read(self.pc) {
                Ok((c, offset)) => Ok(
                    CpuState { pc: c.pc.wrapping_add(1).wrapping_add(sign_extend(offset)), ..c },
                ),
                Err(e) => Err(e),
            }
        } else {
            Ok(CpuState { pc: self.pc.wrapping_add(1), ..self })
        }
    }

    /// ANC: AND, then the top bit of A goes to the carry.
    #[verifier::opaque]
    pub open spec fn anc(self, mode: AddressingMode) -> Result<CpuState, Fault> {
        match self.and(mode) {
            Ok(c) => Ok(c.with_flag(CPUFlags::CARRY, c.a >> 7 == 1)),
            Err(e) => Err(e),
        }
    }

    /// ALR: AND, then LSR on A.
    #[verifier::opaque]
    pub open spec fn alr(self, mode: AddressingMode) -> Result<CpuState, Fault> {
        match self.and(mode) {
            Ok(c) => Ok(c.lsr_acc()),
            Err(e) => Err(e),
        }
    }

    /// LAX: LDA, then TAX.
    #[verifier::opaque]
    pub open spec fn lax(self, mode: AddressingMode) -> Result<CpuState, Fault> {
        match self.lda(mode) {
            Ok(c) => Ok(c.tax()),
            Err(e) => Err(e),
        }
    }

    /// DCP: DEC, then compare A with the operand.
    #[verifier::opaque]
    pub open spec fn dcp(self, mode: AddressingMode) -> Result<CpuState, Fault> {
        match self.dec(mode) {
            Ok(c) => c.compare(c.a, mode),
            Err(e) => Err(e),
        }
    }

    /// ISB: INC, then SBC.
    #[verifier::opaque]
    pub open spec fn isb(self, mode: AddressingMode) -> Result<CpuState, Fault> {
        match self.inc(mode) {
            Ok(c) => c.sbc(mode),
            Err(e) => Err(e),
        }
    }

    /// RLA: ROL, then AND.
    #[verifier::opaque]
    pub open spec fn rla(self, mode: AddressingMode) -> Result<CpuState, Fault> {
        match self.rol(mode) {
            Ok(c) => c.and(mode),
            Err(e) => Err(e),
        }
    }

    /// RRA: ROR, then ADC.
    #[verifier::opaque]
    pub open spec fn rra(self, mode: AddressingMode) -> Result<CpuState, Fault> {
        match self.ror(mode) {
            Ok(c) => c.adc(mode),
            Err(e) => Err(e),
        }
    }

    /// SLO: ASL, then ORA.
    #[verifier::opaque]
    pub open spec fn slo(self, mode: AddressingMode) -> Result<CpuState, Fault> {
        match self.asl(mode) {
            Ok(c) => c.ora(mode),
            Err(e) => Err(e),
        }
    }

    /// SRE: LSR, then EOR.
    #[verifier::opaque]
    pub open spec fn sre(self, mode: AddressingMode) -> Result<CpuState, Fault> {
        match self.lsr(mode) {
            Ok(c) => c.eor(mode),
            Err(e) => Err(e),
        }
    }
}

impl CPU {
    /// Resolves the operand address and reads the operand.
    pub(crate) fn operand(&mut self, mode: &AddressingMode) -> (r: Result<(u16, u8), Fault>)
        requires
            *mode != AddressingMode::NoneAddressing,
        ensures
            agrees(old(self)@.operand(*mode), final(self)@, r),
    {
        proof {
            reveal(CpuState::operand);
        }
        let addr = self.get_operand_address(mode)?;
        let data = self.mem_read(addr)?;
        Ok((addr, data))
    }

    pub(crate) fn add_to_acc_with_carry(&mut self, data: u8)
        ensures
            final(self)@ == old(self)@.add_to_acc_with_carry(data),
    {
        let carry_in: u16 = if self.status.contains(CPUFlags::CARRY) {
            1
        } else {
            0
        };
        let sum: u16 = self.register_a as u16 + data as u16 + carry_in;
        let carry = sum > 0xFF;
        let result: u8 = if carry {
            (sum - 0x100) as u8
        } else {
            sum as u8
        };
        self.status.set(CPUFlags::CARRY, carry);
        self.status.set(
            CPUFlags::OVERFLOW,
            (self.register_a ^ result) & (data ^ result) & 0x80 != 0,
        );
        self.register_a = result;
        self.update_zero_and_negative_flags(self.register_a);
    }

    pub(crate) fn shift_left(&mut self, data: u8) -> (r: u8)
        ensures
            (final(self)@, r) == old(self)@.shift_left(data),
    {
        self.status.set(CPUFlags::CARRY, data & 0x80 > 0);
        let result: u8 = data << 1;
        self.update_zero_and_negative_flags(result);
        result
    }

    pub(crate) fn shift_right(&mut self, data: u8) -> (r: u8)
        ensures
            (final(self)@, r) == old(self)@.shift_right(data),
    {
        self.status.set(CPUFlags::CARRY, data & 0x01 > 0);
        let result: u8 = data >> 1;
        self.update_zero_and_negative_flags(result);
        result
    }

    pub(crate) fn rotate_left(&mut self, data: u8) -> (r: u8)
        ensures
            (final(self)@, r) == old(self)@.rotate_left(data),
    {
        let new_carry = data >> 7 == 1;
        let result: u8 = (data << 1) | (if self.status.contains(CPUFlags::CARRY) {
            1u8
        } else {
            0u8
        });
        self.status.set(CPUFlags::CARRY, new_carry);
        self.status.set(CPUFlags::NEGATIVE, result >> 7 == 1);
        result
    }

    pub(crate) fn rotate_right(&mut self, data: u8) -> (r: u8)
        ensures
            (final(self)@, r) == old(self)@.rotate_right(data),
    {
        let new_carry = data & 1 == 1;
        let result: u8 = (data >> 1) | (if self.status.contains(CPUFlags::CARRY) {
            0x80u8
        } else {
            0u8
        });
        self.status.set(CPUFlags::CARRY, new_carry);
        self.status.set(CPUFlags::NEGATIVE, result >> 7 == 1);
        result
    }

    pub(crate) fn adc(&mut self, mode: &AddressingMode) -> (r: Result<(), Fault>)
        requires
            *mode != AddressingMode::NoneAddressing,
        ensures
            agrees_unit(old(self)@.adc(*mode), final(self)@, r),
    {
        proof {
            reveal(CpuState::adc);
        }
        let (_, data) = self.operand(mode)?;
        self.add_to_acc_with_carry(data);
        Ok(())
    }

    pub(crate) fn sbc(&mut self, mode: &AddressingMode) -> (r: Result<(), Fault>)
        requires
            *mode != AddressingMode::NoneAddressing,
        ensures
            agrees_unit(old(self)@.sbc(*mode), final(self)@, r),
    {
        proof {
            reveal(CpuState::sbc);
        }
        let (_, data) = self.operand(mode)?;
        self.add_to_acc_with_carry(!data);
        Ok(())
    }

    pub(crate) fn and(&mut self, mode: &AddressingMode) -> (r: Result<(), Fault>)
        requires
            *mode != AddressingMode::NoneAddressing,
        ensures
            agrees_unit(old(self)@.and(*mode), final(self)@, r),
    {
        proof {
            reveal(CpuState::and);
        }
        let (_, data) = self.operand(mode)?;
        self.register_a = self.register_a & data;
        self.update_zero_and_negative_flags(self.register_a);
        Ok(())
    }

    pub(crate) fn ora(&mut self, mode: &AddressingMode) -> (r: Result<(), Fault>)
        requires
            *mode != AddressingMode::NoneAddressing,
        ensures
            agrees_unit(old(self)@.ora(*mode), final(self)@, r),
    {
        proof {
            reveal(CpuState::ora);
        }
        let (_, data) = self.operand(mode)?;
        self.register_a = self.register_a | data;
        self.update_zero_and_negative_flags(self.register_a);
        Ok(())
    }

    pub(crate) fn eor(&mut self, mode: &AddressingMode) -> (r: Result<(), Fault>)
        requires
            *mode != AddressingMode::NoneAddressing,
        ensures
            agrees_unit(old(self)@.eor(*mode), final(self)@, r),
    {
        proof {
            reveal(CpuState::eor);
        }
        let (_, data) = self.operand(mode)?;
        self.register_a = self.register_a ^ data;
        self.update_zero_and_negative_flags(self.register_a);
        Ok(())
    }

    pub(crate) fn lda(&mut self, mode: &AddressingMode) -> (r: Result<(), Fault>)
        requires
            *mode != AddressingMode::NoneAddressing,
        ensures
            agrees_unit(old(self)@.lda(*mode), final(self)@, r),
    {
        proof {
            reveal(CpuState::lda);
        }
        let (_, data) = self.operand(mode)?;
        self.register_a = data;
        self.update_zero_and_negative_flags(self.register_a);
        Ok(())
    }

    pub(crate) fn ldx(&mut self, mode: &AddressingMode) -> (r: Result<(), Fault>)
        requires
            *mode != AddressingMode::NoneAddressing,
        ensures
            agrees_unit(old(self)@.ldx(*mode), final(self)@, r),
    {
        proof {
            reveal(CpuState::ldx);
        }
        let (_, data) = self.operand(mode)?;
        self.register_x = data;
        self.update_zero_and_negative_flags(self.register_x);
        Ok(())
    }

    pub(crate) fn ldy(&mut self, mode: &AddressingMode) -> (r: Result<(), Fault>)
        requires
            *mode != AddressingMode::NoneAddressing,
        ensures
            agrees_unit(old(self)@.ldy(*mode), final(self)@, r),
    {
        proof {
            reveal(CpuState::ldy);
        }
        let (_, data) = self.operand(mode)?;
        self.register_y = data;
        self.update_zero_and_negative_flags(self.register_y);
        Ok(())
    }

    pub(crate) fn bit(&mut self, mode: &AddressingMode) -> (r: Result<(), Fault>)
        requires
            *mode != AddressingMode::NoneAddressing,
        ensures
            agrees_unit(old(self)@.bit(*mode), final(self)@, r),
    {
        proof {
            reveal(CpuState::bit);
        }
        let (_, data) = self.operand(mode)?;
        self.status.set(CPUFlags::ZERO, self.register_a & data == 0);
        self.status.set(CPUFlags::OVERFLOW, data & 0x40 > 0);
        self.status.set(CPUFlags::NEGATIVE, data & 0x80 > 0);
        Ok(())
    }

    pub(crate) fn compare(&mut self, register: u8, mode: &AddressingMode) -> (r: Result<(), Fault>)
        requires
            *mode != AddressingMode::NoneAddressing,
        ensures
            agrees_unit(old(self)@.compare(register, *mode), final(self)@, r),
    {
        proof {
            reveal(CpuState::compare);
        }
        let (_, data) = self.operand(mode)?;
        let difference = register.wrapping_sub(data);
        self.status.set(CPUFlags::CARRY, register >= data);
        self.status.set(CPUFlags::NEGATIVE, difference & 0x80 > 0);
        self.status.set(CPUFlags::ZERO, difference == 0);
        Ok(())
    }

    pub(crate) fn nop_read(&mut self, mode: &AddressingMode) -> (r: Result<(), Fault>)
        requires
            *mode != AddressingMode::NoneAddressing,
        ensures
            agrees_unit(old(self)@.nop_read(*mode), final(self)@, r),
    {
        proof {
            reveal(CpuState::nop_read);
        }
        let _ = self.operand(mode)?;
        Ok(())
    }

    pub(crate) fn asl(&mut self, mode: &AddressingMode) -> (r: Result<(), Fault>)
        requires
            *mode != AddressingMode::NoneAddressing,
        ensures
            agrees_unit(old(self)@.asl(*mode), final(self)@, r),
    {
        proof {
            reveal(CpuState::asl);
        }
        let (addr, data) = self.operand(mode)?;
        let result = self.shift_left(data);
        self.mem_write(addr, result)
    }

    pub(crate) fn lsr(&mut self, mode: &AddressingMode) -> (r: Result<(), Fault>)
        requires
            *mode != AddressingMode::NoneAddressing,
        ensures
            agrees_unit(old(self)@.lsr(*mode), final(self)@, r),
    {
        proof {
            reveal(CpuState::lsr);
        }
        let (addr, data) = self.operand(mode)?;
        let result = self.shift_right(data);
        self.mem_write(addr, result)
    }

    pub(crate) fn rol(&mut self, mode: &AddressingMode) -> (r: Result<(), Fault>)
        requires
            *mode != AddressingMode::NoneAddressing,
        ensures
            agrees_unit(old(self)@.rol(*mode), final(self)@, r),
    {
        proof {
            reveal(CpuState::rol);
        }
        let (addr, data) = self.operand(mode)?;
        let result = self.rotate_left(data);
        self.mem_write(addr, result)
    }

    pub(crate) fn ror(&mut self, mode: &AddressingMode) -> (r: Result<(), Fault>)
        requires
            *mode != AddressingMode::NoneAddressing,
        ensures
            agrees_unit(old(self)@.ror(*mode), final(self)@, r),
    {
        proof {
            reveal(CpuState::ror);
        }
        let (addr, data) = self.operand(mode)?;
        let result = self.rotate_right(data);
        self.mem_write(addr, result)
    }

    pub(crate) fn inc(&mut self, mode: &AddressingMode) -> (r: Result<(), Fault>)
        requires
            *mode != AddressingMode::NoneAddressing,
        ensures
            agrees_unit(old(self)@.inc(*mode), final(self)@, r),
    {
        proof {
            reveal(CpuState::inc);
        }
        let (addr, data) = self.operand(mode)?;
        self.mem_write(addr, data.wrapping_add(1))?;
        self.update_zero_and_negative_flags(data.wrapping_add(1));
        Ok(())
    }

    pub(crate) fn dec(&mut self, mode: &AddressingMode) -> (r: Result<(), Fault>)
        requires
            *mode != AddressingMode::NoneAddressing,
        ensures
            agrees_unit(old(self)@.dec(*mode), final(self)@, r),
    {
        proof {
            reveal(CpuState::dec);
        }
        let (addr, data) = self.operand(mode)?;
        self.update_zero_and_negative_flags(data.wrapping_sub(1));
        self.mem_write(addr, data.wrapping_sub(1))
    }

    pub(crate) fn sta(&mut self, mode: &AddressingMode) -> (r: Result<(), Fault>)
        requires
            *mode != AddressingMode::NoneAddressing,
        ensures
            agrees_unit(old(self)@.sta(*mode), final(self)@, r),
    {
        proof {
            reveal(CpuState::sta);
        }
        let addr = self.get_operand_address(mode)?;
        self.mem_write(addr, self.register_a)
    }

    pub(crate) fn stx(&mut self, mode: &AddressingMode) -> (r: Result<(), Fault>)
        requires
            *mode != AddressingMode::NoneAddressing,
        ensures
            agrees_unit(old(self)@.stx(*mode), final(self)@, r),
    {
        proof {
            reveal(CpuState::stx);
        }
        let addr = self.get_operand_address(mode)?;
        self.mem_write(addr, self.register_x)
    }

    pub(crate) fn sty(&mut self, mode: &AddressingMode) -> (r: Result<(), Fault>)
        requires
            *mode != AddressingMode::NoneAddressing,
        ensures
            agrees_unit(old(self)@.sty(*mode), final(self)@, r),
    {
        proof {
            reveal(CpuState::sty);
        }
        let addr = self.get_operand_address(mode)?;
        self.mem_write(addr, self.register_y)
    }

    pub(crate) fn axs(&mut self, mode: &AddressingMode) -> (r: Result<(), Fault>)
        requires
            *mode != AddressingMode::NoneAddressing,
        ensures
            agrees_unit(old(self)@.axs(*mode), final(self)@, r),
    {
        proof {
            reveal(CpuState::axs);
        }
        let addr = self.get_operand_address(mode)?;
        self.mem_write(addr, self.register_x & self.register_a)
    }

    pub(crate) fn tax(&mut self)
        ensures
            final(self)@ == old(self)@.tax(),
    {
        self.register_x = self.register_a;
        self.update_zero_and_negative_flags(self.register_x);
    }

    pub(crate) fn tay(&mut self)
        ensures
            final(self)@ == old(self)@.tay(),
    {
        self.register_y = self.register_a;
        self.update_zero_and_negative_flags(self.register_y);
    }

    pub(crate) fn tsx(&mut self)
        ensures
            final(self)@ == old(self)@.tsx(),
    {
        self.register_x = self.register_s;
        self.update_zero_and_negative_flags(self.register_x);
    }

    pub(crate) fn txa(&mut self)
        ensures
            final(self)@ == old(self)@.txa(),
    {
        self.register_a = self.register_x;
        self.update_zero_and_negative_flags(self.register_a);
    }

    pub(crate) fn tya(&mut self)
        ensures
            final(self)@ == old(self)@.tya(),
    {
        self.register_a = self.register_y;
        self.update_zero_and_negative_flags(self.register_a);
    }

    pub(crate) fn inx(&mut self)
        ensures
            final(self)@ == old(self)@.inx(),
    {
        self.register_x = self.register_x.wrapping_add(1);
        self.update_zero_and_negative_flags(self.register_x);
    }

    pub(crate) fn iny(&mut self)
        ensures
            final(self)@ == old(self)@.iny(),
    {
        self.register_y = self.register_y.wrapping_add(1);
        self.update_zero_and_negative_flags(self.register_y);
    }

    pub(crate) fn dex(&mut self)
        ensures
            final(self)@ == old(self)@.dex(),
    {
        self.register_x = self.register_x.wrapping_sub(1);
        self.update_zero_and_negative_flags(self.register_x);
    }

    pub(crate) fn dey(&mut self)
        ensures
            final(self)@ == old(self)@.dey(),
    {
        self.register_y = self.register_y.wrapping_sub(1);
        self.update_zero_and_negative_flags(self.register_y);
    }

    pub(crate) fn asl_acc(&mut self)
        ensures
            final(self)@ == old(self)@.asl_acc(),
    {
        let data = self.register_a;
        self.register_a = self.shift_left(data);
    }

    pub(crate) fn lsr_acc(&mut self)
        ensures
            final(self)@ == old(self)@.lsr_acc(),
    {
        let data = self.register_a;
        self.register_a = self.shift_right(data);
    }

    pub(crate) fn rol_acc(&mut self)
        ensures
            final(self)@ == old(self)@.rol_acc(),
    {
        let data = self.register_a;
        self.register_a = self.rotate_left(data);
        self.status.set(CPUFlags::ZERO, self.register_a == 0);
    }

    pub(crate) fn ror_acc(&mut self)
        ensures
            final(self)@ == old(self)@.ror_acc(),
    {
        let data = self.register_a;
        self.register_a = self.rotate_right(data);
        self.status.set(CPUFlags::ZERO, self.register_a == 0);
    }

    pub(crate) fn pha(&mut self) -> (r: Result<(), Fault>)
        ensures
            agrees_unit(old(self)@.pha(), final(self)@, r),
    {
        proof {
            reveal(CpuState::pha);
        }
        self.push_to_stack(self.register_a)
    }

    pub(crate) fn php(&mut self) -> (r: Result<(), Fault>)
        ensures
            agrees_unit(old(self)@.php(), final(self)@, r),
    {
        proof {
            reveal(CpuState::php);
        }
        let mut flags = self.status;
        flags.insert(CPUFlags::BREAK2);
        flags.insert(CPUFlags::BREAK1);
        self.push_to_stack(flags.bits())
    }

    pub(crate) fn pla(&mut self) -> (r: Result<(), Fault>)
        ensures
            agrees_unit(old(self)@.pla(), final(self)@, r),
    {
        proof {
            reveal(CpuState::pla);
        }
        self.register_a = self.pop_stack()?;
        self.update_zero_and_negative_flags(self.register_a);
        Ok(())
    }

    pub(crate) fn plp(&mut self) -> (r: Result<(), Fault>)
        ensures
            agrees_unit(old(self)@.plp(), final(self)@, r),
    {
        proof {
            reveal(CpuState::plp);
        }
        let data = self.pop_stack()?;
        self.status = CPUFlags::from_bits_truncate(data);
        self.status.insert(CPUFlags::BREAK1);
        self.status.remove(CPUFlags::BREAK2);
        Ok(())
    }

    pub(crate) fn rti(&mut self) -> (r: Result<(), Fault>)
        ensures
            agrees_unit(old(self)@.rti(), final(self)@, r),
    {
        proof {
            reveal(CpuState::rti);
        }
        self.plp()?;
        self.program_counter = self.pop_stack_u16()?;
        Ok(())
    }

    pub(crate) fn rts(&mut self) -> (r: Result<(), Fault>)
        ensures
            agrees_unit(old(self)@.rts(), final(self)@, r),
    {
        proof {
            reveal(CpuState::rts);
        }
        self.program_counter = self.pop_stack_u16()?.wrapping_add(1);
        Ok(())
    }

    pub(crate) fn jsr(&mut self) -> (r: Result<(), Fault>)
        ensures
            agrees_unit(old(self)@.jsr(), final(self)@, r),
    {
        proof {
            reveal(CpuState::jsr);
        }
        self.push_to_stack_u16(self.program_counter.wrapping_add(1))?;
        self.program_counter = self.mem_read_u16(self.program_counter)?;
        Ok(())
    }

    /// Reads the target of an indirect jump through `lo_addr`, with the
    /// page-wrap quirk of the hardware.
    pub fn calculate_jmp_indirect_bug(&mut self, lo_addr: u16) -> (r: Result<u16, Fault>)
        ensures
            agrees(old(self)@.jmp_indirect_target(lo_addr), final(self)@, r),
    {
        let hi_addr: u16 = if lo_addr & 0x00FF == 0x00FF {
            lo_addr & 0xFF00
        } else {
            assert(lo_addr & 0x00FF != 0x00FF ==> lo_addr < 0xFFFF) by (bit_vector);
            lo_addr + 1
        };
        let lo = self.mem_read(lo_addr)?;
        let hi = self.mem_read(hi_addr)?;
        Ok(((hi as u16) << 8) | (lo as u16))
    }

    pub(crate) fn jmp(&mut self, absolute: bool) -> (r: Result<(), Fault>)
        ensures
            agrees_unit(old(self)@.jmp(absolute), final(self)@, r),
    {
        proof {
            reveal(CpuState::jmp);
        }
        let addr = self.mem_read_u16(self.program_counter)?;
        if absolute {
            self.program_counter = addr;
        } else {
            self.program_counter = self.calculate_jmp_indirect_bug(addr)?;
        }
        Ok(())
    }

    pub(crate) fn branch(&mut self, taken: bool) -> (r: Result<(), Fault>)
        ensures
            agrees_unit(old(self)@.branch(taken), final(self)@, r),
    {
        proof {
            reveal(CpuState::branch);
        }
        if taken {
            let offset = self.mem_read(self.program_counter)?;
            let jump: u16 = if offset & 0x80 == 0 {
                offset as u16
            } else {
                (offset as u16) | 0xFF00
            };
            self.program_counter = self.program_counter.wrapping_add(1).wrapping_add(jump);
        } else {
            self.program_counter = self.program_counter.wrapping_add(1);
        }
        Ok(())
    }

    pub(crate) fn anc(&mut self, mode: &AddressingMode) -> (r: Result<(), Fault>)
        requires
            *mode != AddressingMode::NoneAddressing,
        ensures
            agrees_unit(old(self)@.anc(*mode), final(self)@, r),
    {
        proof {
            reveal(CpuState::anc);
        }
        self.and(mode)?;
        self.status.set(CPUFlags::CARRY, self.register_a >> 7 == 1);
        Ok(())
    }

    pub(crate) fn alr(&mut self, mode: &AddressingMode) -> (r: Result<(), Fault>)
        requires
            *mode != AddressingMode::NoneAddressing,
        ensures
            agrees_unit(old(self)@.alr(*mode), final(self)@, r),
    {
        proof {
            reveal(CpuState::alr);
        }
        self.and(mode)?;
        self.lsr_acc();
        Ok(())
    }

    pub(crate) fn lax(&mut self, mode: &AddressingMode) -> (r: Result<(), Fault>)
        requires
            *mode != AddressingMode::NoneAddressing,
        ensures
            agrees_unit(old(self)@.lax(*mode), final(self)@, r),
    {
        proof {
            reveal(CpuState::lax);
        }
        self.lda(mode)?;
        self.tax();
        Ok(())
    }

    pub(crate) fn dcp(&mut self, mode: &AddressingMode) -> (r: Result<(), Fault>)
        requires
            *mode != AddressingMode::NoneAddressing,
        ensures
            agrees_unit(old(self)@.dcp(*mode), final(self)@, r),
    {
        proof {
            reveal(CpuState::dcp);
        }
        self.dec(mode)?;
        self.compare(self.register_a, mode)
    }

    pub(crate) fn isb(&mut self, mode: &AddressingMode) -> (r: Result<(), Fault>)
        requires
            *mode != AddressingMode::NoneAddressing,
        ensures
            agrees_unit(old(self)@.isb(*mode), final(self)@, r),
    {
        proof {
            reveal(CpuState::isb);
        }
        self.inc(mode)?;
        self.sbc(mode)
    }

    pub(crate) fn rla(&mut self, mode: &AddressingMode) -> (r: Result<(), Fault>)
        requires
            *mode != AddressingMode::NoneAddressing,
        ensures
            agrees_unit(old(self)@.rla(*mode), final(self)@, r),
    {
        proof {
            reveal(CpuState::rla);
        }
        self.rol(mode)?;
        self.and(mode)
    }

    pub(crate) fn rra(&mut self, mode: &AddressingMode) -> (r: Result<(), Fault>)
        requires
            *mode != AddressingMode::NoneAddressing,
        ensures
            agrees_unit(old(self)@.rra(*mode), final(self)@, r),
    {
        proof {
            reveal(CpuState::rra);
        }
        self.ror(mode)?;
        self.adc(mode)
    }

    pub(crate) fn slo(&mut self, mode: &AddressingMode) -> (r: Result<(), Fault>)
        requires
            *mode != AddressingMode::NoneAddressing,
        ensures
            agrees_unit(old(self)@.slo(*mode), final(self)@, r),
    {
        proof {
            reveal(CpuState::slo);
        }
        self.asl(mode)?;
        self.ora(mode)
    }

    pub(crate) fn sre(&mut self, mode: &AddressingMode) -> (r: Result<(), Fault>)
        requires
            *mode != AddressingMode::NoneAddressing,
        ensures
            agrees_unit(old(self)@.sre(*mode), final(self)@, r),
    {
        proof {
            reveal(CpuState::sre);
        }
        self.lsr(mode)?;
        self.eor(mode)
    }
}

} // verus!
