//! What holds of the processor whatever program it runs: how the flags
//! follow results, how the stack pointer moves, and what a push and a pull
//! give back.

use vstd::prelude::*;
use crate::bus::BusState;
use crate::cpu::{AddressingMode, CPUFlags, CpuState};
use crate::fault::Fault;
use crate::flags::assigned;
use crate::opcodes::OpCode;

verus! {

/// All registers of `d` but the bus are those of `c`.
pub open spec fn registers_kept(c: CpuState, d: CpuState) -> bool {
    d == (CpuState { bus: d.bus, ..c })
}

/// Z and N are what the flag rule makes of `result`: Z exactly when it is
/// zero, N exactly when its top bit is set.
pub open spec fn zn_follow(c: CpuState, result: u8) -> bool {
    c.flag(CPUFlags::ZERO) == (result == 0) && c.flag(CPUFlags::NEGATIVE) == (result >> 7 == 1)
}

/// The upper break bit reads 1.
pub open spec fn break_bit_set(c: CpuState) -> bool {
    c.p & CPUFlags::BREAK1 == CPUFlags::BREAK1
}

proof fn lemma_zn_bits(p: u8, r: u8)
    by (bit_vector)
    ensures
        ((p | 0x02) | 0x80) & 0x02 == 0x02,
        ((p | 0x02) & !0x80u8) & 0x02 == 0x02,
        ((p & !0x02u8) | 0x80) & 0x02 != 0x02,
        ((p & !0x02u8) & !0x80u8) & 0x02 != 0x02,
        (p | 0x80) & 0x80 == 0x80,
        (p & !0x80u8) & 0x80 != 0x80,
        (r & 0x80 != 0) == (r >> 7 == 1),
        (r & 0x80 > 0) == (r >> 7 == 1),
{
}

/// The flag rule: after `with_zn`, Z and N follow the result and no other
/// flag has moved.
pub proof fn lemma_with_zn(c: CpuState, result: u8)
    ensures
        zn_follow(c.with_zn(result), result),
        registers_kept(CpuState { p: c.with_zn(result).p, ..c }, c.with_zn(result)),
        c.with_zn(result).p & 0x7D == c.p & 0x7D,
{
    let p = c.p;
    lemma_zn_bits(p, result);
    lemma_zn_bits(assigned(p, CPUFlags::ZERO, result == 0), result);
    assert(((p | 0x02) | 0x80) & 0x7D == p & 0x7D && ((p | 0x02) & !0x80u8) & 0x7D == p & 0x7D && ((p
        & !0x02u8) | 0x80) & 0x7D == p & 0x7D && ((p & !0x02u8) & !0x80u8) & 0x7D == p & 0x7D)
        by (bit_vector);
}

/// Resolving an operand goes through the bus only: the registers stay.
pub proof fn lemma_operand_keeps_registers()
    ensures
        forall|c: CpuState, mode: AddressingMode, base: u16|
            match #[trigger] c.operand_address(mode, base) {
                Ok((d, _)) => registers_kept(c, d),
                Err(_) => true,
            },
        forall|c: CpuState, mode: AddressingMode|
            match #[trigger] c.operand(mode) {
                Ok((d, _)) => registers_kept(c, d),
                Err(_) => true,
            },
{
    assert forall|c: CpuState, mode: AddressingMode, base: u16|
        match #[trigger] c.operand_address(mode, base) {
            Ok((d, _)) => registers_kept(c, d),
            Err(_) => true,
        } by {
        reveal(CpuState::operand_address);
    }
    assert forall|c: CpuState, mode: AddressingMode|
        match #[trigger] c.operand(mode) {
            Ok((d, _)) => registers_kept(c, d),
            Err(_) => true,
        } by {
        reveal(CpuState::operand);
        reveal(CpuState::operand_address);
    }
}

/// A push moves the stack pointer down by one and a pull up by one; a
/// 16-bit push or pull moves it by two. All of it wraps at 256, and no
/// other register moves.
pub proof fn lemma_stack_pointer_moves(c: CpuState, data: u8, wide: u16)
    ensures
        c.push(data) matches Ok(d) ==> d.s == c.s.wrapping_sub(1) && registers_kept(
            CpuState { s: d.s, ..c },
            d,
        ),
        c.pull() matches Ok((d, _)) ==> d.s == c.s.wrapping_add(1) && registers_kept(
            CpuState { s: d.s, ..c },
            d,
        ),
        c.push_u16(wide) matches Ok(d) ==> d.s == c.s.wrapping_sub(2) && registers_kept(
            CpuState { s: d.s, ..c },
            d,
        ),
        c.pull_u16() matches Ok((d, _)) ==> d.s == c.s.wrapping_add(2) && registers_kept(
            CpuState { s: d.s, ..c },
            d,
        ),
{
}

/// The stack page is internal RAM: what a push stores there, the pull
/// that follows reads back, and the stack pointer is where it was.
pub proof fn lemma_push_pull(c: CpuState, data: u8)
    requires
        c.bus.wf(),
    ensures
        c.push(data) matches Ok(d) && d.pull() matches Ok((e, v)) && v == data && e.s == c.s
            && registers_kept(c, e),
{
    reveal(BusState::read);
    reveal(BusState::write);
    let addr: u16 = (0x0100 + c.s) as u16;
    assert(addr <= 0x1FFF);
    assert(addr & 0x07FF < 2048) by (bit_vector);
}

/// PHA then PLA: A is what it was before the push, whatever it held in
/// between, and so is the stack pointer.
pub proof fn lemma_pha_pla(c: CpuState, between: u8)
    requires
        c.bus.wf(),
    ensures
        c.pha() matches Ok(d) && (CpuState { a: between, ..d }).pla() matches Ok(e) && e.a == c.a
            && e.s == c.s,
{
    reveal(CpuState::pha);
    reveal(CpuState::pla);
    lemma_push_pull(c, c.a);
    let d = c.pha()->Ok_0;
    lemma_push_pull_any(c, c.a, CpuState { a: between, ..d });
}

/// PHP then PLP: the status byte is what it was before the push but for
/// the two break bits, of which the pull sets the upper and clears the
/// lower; the stack pointer is where it was.
pub proof fn lemma_php_plp(c: CpuState, between: u8)
    requires
        c.bus.wf(),
    ensures
        c.php() matches Ok(d) && (CpuState { p: between, ..d }).plp() matches Ok(e) && e.p & 0xCF
            == c.p & 0xCF && e.p & 0x30 == 0x20 && e.s == c.s,
{
    reveal(CpuState::php);
    reveal(CpuState::plp);
    let pushed = c.with_flag(CPUFlags::BREAK2, true).with_flag(CPUFlags::BREAK1, true).p;
    lemma_push_pull(c, pushed);
    let d = c.php()->Ok_0;
    lemma_push_pull_any(c, pushed, CpuState { p: between, ..d });
    let p = c.p;
    assert(((((p | 0x10) | 0x20) | 0x20) & !0x10u8) & 0xCF == p & 0xCF && ((((p | 0x10) | 0x20)
        | 0x20) & !0x10u8) & 0x30 == 0x20) by (bit_vector);
}

/// The pull after a push reads the pushed byte back even when registers
/// other than the stack pointer changed in between.
proof fn lemma_push_pull_any(c: CpuState, data: u8, later: CpuState)
    requires
        c.bus.wf(),
        c.push(data) matches Ok(d) && later.bus == d.bus && later.s == d.s,
    ensures
        later.pull() matches Ok((e, v)) && v == data && e.s == c.s && registers_kept(
            CpuState { s: c.s, ..later },
            e,
        ),
{
    reveal(BusState::read);
    reveal(BusState::write);
    let addr: u16 = (0x0100 + c.s) as u16;
    assert(addr <= 0x1FFF);
    assert(addr & 0x07FF < 2048) by (bit_vector);
}

/// An instruction's outcome leaves the upper break bit set if it was set.
pub open spec fn keeps_break_bit(c: CpuState, outcome: Result<CpuState, Fault>) -> bool {
    outcome matches Ok(d) ==> (break_bit_set(c) ==> break_bit_set(d))
}

proof fn lemma_break_bit_untouched(bits: u8, mask: u8)
    by (bit_vector)
    ensures
        mask & 0x20 == 0 ==> (bits | mask) & 0x20 == bits & 0x20 && (bits & !mask) & 0x20 == bits
            & 0x20,
        (bits | 0x20) & 0x20 == 0x20,
{
}

/// Switching any other flag leaves the upper break bit alone, and the
/// status byte taken from the stack has it set.
proof fn lemma_break_bit_algebra()
    ensures
        forall|bits: u8, mask: u8, on: bool|
            mask & 0x20 == 0 ==> (#[trigger] assigned(bits, mask, on)) & 0x20 == bits & 0x20,
        forall|bits: u8| (#[trigger] assigned(bits, 0x20, true)) & 0x20 == 0x20,
        0x80u8 & 0x20 == 0 && 0x40u8 & 0x20 == 0 && 0x10u8 & 0x20 == 0 && 0x08u8 & 0x20 == 0 && 0x04u8
            & 0x20 == 0 && 0x02u8 & 0x20 == 0 && 0x01u8 & 0x20 == 0,
{
    assert forall|bits: u8, mask: u8, on: bool| mask & 0x20 == 0 implies (#[trigger] assigned(
        bits,
        mask,
        on,
    )) & 0x20 == bits & 0x20 by {
        lemma_break_bit_untouched(bits, mask);
    }
    assert forall|bits: u8| (#[trigger] assigned(bits, 0x20, true)) & 0x20 == 0x20 by {
        lemma_break_bit_untouched(bits, 0);
    }
    assert(0x80u8 & 0x20 == 0 && 0x40u8 & 0x20 == 0 && 0x10u8 & 0x20 == 0 && 0x08u8 & 0x20 == 0
        && 0x04u8 & 0x20 == 0 && 0x02u8 & 0x20 == 0 && 0x01u8 & 0x20 == 0) by (bit_vector);
}

/// No instruction with a body of its own clears the upper break bit.
#[verifier::rlimit(40)]
pub proof fn lemma_instructions_keep_break_bit()
    ensures
        forall|c: CpuState, mode: AddressingMode| keeps_break_bit(c, #[trigger] c.adc(mode)),
        forall|c: CpuState, mode: AddressingMode| keeps_break_bit(c, #[trigger] c.sbc(mode)),
        forall|c: CpuState, mode: AddressingMode| keeps_break_bit(c, #[trigger] c.and(mode)),
        forall|c: CpuState, mode: AddressingMode| keeps_break_bit(c, #[trigger] c.ora(mode)),
        forall|c: CpuState, mode: AddressingMode| keeps_break_bit(c, #[trigger] c.eor(mode)),
        forall|c: CpuState, mode: AddressingMode| keeps_break_bit(c, #[trigger] c.lda(mode)),
        forall|c: CpuState, mode: AddressingMode| keeps_break_bit(c, #[trigger] c.ldx(mode)),
        forall|c: CpuState, mode: AddressingMode| keeps_break_bit(c, #[trigger] c.ldy(mode)),
        forall|c: CpuState, mode: AddressingMode| keeps_break_bit(c, #[trigger] c.bit(mode)),
        forall|c: CpuState, mode: AddressingMode| keeps_break_bit(c, #[trigger] c.nop_read(mode)),
        forall|c: CpuState, mode: AddressingMode| keeps_break_bit(c, #[trigger] c.asl(mode)),
        forall|c: CpuState, mode: AddressingMode| keeps_break_bit(c, #[trigger] c.lsr(mode)),
        forall|c: CpuState, mode: AddressingMode| keeps_break_bit(c, #[trigger] c.rol(mode)),
        forall|c: CpuState, mode: AddressingMode| keeps_break_bit(c, #[trigger] c.ror(mode)),
        forall|c: CpuState, mode: AddressingMode| keeps_break_bit(c, #[trigger] c.inc(mode)),
        forall|c: CpuState, mode: AddressingMode| keeps_break_bit(c, #[trigger] c.dec(mode)),
        forall|c: CpuState, mode: AddressingMode| keeps_break_bit(c, #[trigger] c.sta(mode)),
        forall|c: CpuState, mode: AddressingMode| keeps_break_bit(c, #[trigger] c.stx(mode)),
        forall|c: CpuState, mode: AddressingMode| keeps_break_bit(c, #[trigger] c.sty(mode)),
        forall|c: CpuState, mode: AddressingMode| keeps_break_bit(c, #[trigger] c.axs(mode)),
        forall|c: CpuState, register: u8, mode: AddressingMode| keeps_break_bit(c, #[trigger] c.compare(register, mode)),
        forall|c: CpuState| keeps_break_bit(c, #[trigger] c.pha()),
        forall|c: CpuState| keeps_break_bit(c, #[trigger] c.php()),
        forall|c: CpuState| keeps_break_bit(c, #[trigger] c.pla()),
        forall|c: CpuState| keeps_break_bit(c, #[trigger] c.plp()),
        forall|c: CpuState| keeps_break_bit(c, #[trigger] c.rts()),
        forall|c: CpuState| keeps_break_bit(c, #[trigger] c.jsr()),
        forall|c: CpuState| keeps_break_bit(c, #[trigger] c.rti()),
        forall|c: CpuState, absolute: bool| keeps_break_bit(c, #[trigger] c.jmp(absolute)),
        forall|c: CpuState, taken: bool| keeps_break_bit(c, #[trigger] c.branch(taken)),
        forall|c: CpuState, mode: AddressingMode| keeps_break_bit(c, #[trigger] c.anc(mode)),
        forall|c: CpuState, mode: AddressingMode| keeps_break_bit(c, #[trigger] c.alr(mode)),
        forall|c: CpuState, mode: AddressingMode| keeps_break_bit(c, #[trigger] c.lax(mode)),
        forall|c: CpuState, mode: AddressingMode| keeps_break_bit(c, #[trigger] c.dcp(mode)),
        forall|c: CpuState, mode: AddressingMode| keeps_break_bit(c, #[trigger] c.isb(mode)),
        forall|c: CpuState, mode: AddressingMode| keeps_break_bit(c, #[trigger] c.rla(mode)),
        forall|c: CpuState, mode: AddressingMode| keeps_break_bit(c, #[trigger] c.rra(mode)),
        forall|c: CpuState, mode: AddressingMode| keeps_break_bit(c, #[trigger] c.slo(mode)),
        forall|c: CpuState, mode: AddressingMode| keeps_break_bit(c, #[trigger] c.sre(mode)),
{
    lemma_break_bit_algebra();
    lemma_operand_keeps_registers();
    assert forall|c: CpuState, mode: AddressingMode| keeps_break_bit(c, #[trigger] c.adc(mode)) by {
        reveal(CpuState::adc);
    }
    assert forall|c: CpuState, mode: AddressingMode| keeps_break_bit(c, #[trigger] c.sbc(mode)) by {
        reveal(CpuState::sbc);
    }
    assert forall|c: CpuState, mode: AddressingMode| keeps_break_bit(c, #[trigger] c.and(mode)) by {
        reveal(CpuState::and);
    }
    assert forall|c: CpuState, mode: AddressingMode| keeps_break_bit(c, #[trigger] c.ora(mode)) by {
        reveal(CpuState::ora);
    }
    assert forall|c: CpuState, mode: AddressingMode| keeps_break_bit(c, #[trigger] c.eor(mode)) by {
        reveal(CpuState::eor);
    }
    assert forall|c: CpuState, mode: AddressingMode| keeps_break_bit(c, #[trigger] c.lda(mode)) by {
        reveal(CpuState::lda);
    }
    assert forall|c: CpuState, mode: AddressingMode| keeps_break_bit(c, #[trigger] c.ldx(mode)) by {
        reveal(CpuState::ldx);
    }
    assert forall|c: CpuState, mode: AddressingMode| keeps_break_bit(c, #[trigger] c.ldy(mode)) by {
        reveal(CpuState::ldy);
    }
    assert forall|c: CpuState, mode: AddressingMode| keeps_break_bit(c, #[trigger] c.bit(mode)) by {
        reveal(CpuState::bit);
    }
    assert forall|c: CpuState, mode: AddressingMode| keeps_break_bit(c, #[trigger] c.nop_read(mode)) by {
        reveal(CpuState::nop_read);
    }
    assert forall|c: CpuState, mode: AddressingMode| keeps_break_bit(c, #[trigger] c.asl(mode)) by {
        reveal(CpuState::asl);
    }
    assert forall|c: CpuState, mode: AddressingMode| keeps_break_bit(c, #[trigger] c.lsr(mode)) by {
        reveal(CpuState::lsr);
    }
    assert forall|c: CpuState, mode: AddressingMode| keeps_break_bit(c, #[trigger] c.rol(mode)) by {
        reveal(CpuState::rol);
    }
    assert forall|c: CpuState, mode: AddressingMode| keeps_break_bit(c, #[trigger] c.ror(mode)) by {
        reveal(CpuState::ror);
    }
    assert forall|c: CpuState, mode: AddressingMode| keeps_break_bit(c, #[trigger] c.inc(mode)) by {
        reveal(CpuState::inc);
    }
    assert forall|c: CpuState, mode: AddressingMode| keeps_break_bit(c, #[trigger] c.dec(mode)) by {
        reveal(CpuState::dec);
    }
    assert forall|c: CpuState, mode: AddressingMode| keeps_break_bit(c, #[trigger] c.sta(mode)) by {
        reveal(CpuState::sta);
    }
    assert forall|c: CpuState, mode: AddressingMode| keeps_break_bit(c, #[trigger] c.stx(mode)) by {
        reveal(CpuState::stx);
    }
    assert forall|c: CpuState, mode: AddressingMode| keeps_break_bit(c, #[trigger] c.sty(mode)) by {
        reveal(CpuState::sty);
    }
    assert forall|c: CpuState, mode: AddressingMode| keeps_break_bit(c, #[trigger] c.axs(mode)) by {
        reveal(CpuState::axs);
    }
    assert forall|c: CpuState, register: u8, mode: AddressingMode| keeps_break_bit(c, #[trigger] c.compare(register, mode)) by {
        reveal(CpuState::compare);
    }
    assert forall|c: CpuState| keeps_break_bit(c, #[trigger] c.pha()) by {
        reveal(CpuState::pha);
    }
    assert forall|c: CpuState| keeps_break_bit(c, #[trigger] c.php()) by {
        reveal(CpuState::php);
    }
    assert forall|c: CpuState| keeps_break_bit(c, #[trigger] c.pla()) by {
        reveal(CpuState::pla);
    }
    assert forall|c: CpuState| keeps_break_bit(c, #[trigger] c.plp()) by {
        reveal(CpuState::plp);
    }
    assert forall|c: CpuState| keeps_break_bit(c, #[trigger] c.rts()) by {
        reveal(CpuState::rts);
    }
    assert forall|c: CpuState| keeps_break_bit(c, #[trigger] c.jsr()) by {
        reveal(CpuState::jsr);
    }
    assert forall|c: CpuState| keeps_break_bit(c, #[trigger] c.rti()) by {
        reveal(CpuState::rti);
    }
    assert forall|c: CpuState, absolute: bool| keeps_break_bit(c, #[trigger] c.jmp(absolute)) by {
        reveal(CpuState::jmp);
    }
    assert forall|c: CpuState, taken: bool| keeps_break_bit(c, #[trigger] c.branch(taken)) by {
        reveal(CpuState::branch);
    }
    assert forall|c: CpuState, mode: AddressingMode| keeps_break_bit(c, #[trigger] c.anc(mode)) by {
        reveal(CpuState::anc);
    }
    assert forall|c: CpuState, mode: AddressingMode| keeps_break_bit(c, #[trigger] c.alr(mode)) by {
        reveal(CpuState::alr);
    }
    assert forall|c: CpuState, mode: AddressingMode| keeps_break_bit(c, #[trigger] c.lax(mode)) by {
        reveal(CpuState::lax);
    }
    assert forall|c: CpuState, mode: AddressingMode| keeps_break_bit(c, #[trigger] c.dcp(mode)) by {
        reveal(CpuState::dcp);
    }
    assert forall|c: CpuState, mode: AddressingMode| keeps_break_bit(c, #[trigger] c.isb(mode)) by {
        reveal(CpuState::isb);
    }
    assert forall|c: CpuState, mode: AddressingMode| keeps_break_bit(c, #[trigger] c.rla(mode)) by {
        reveal(CpuState::rla);
    }
    assert forall|c: CpuState, mode: AddressingMode| keeps_break_bit(c, #[trigger] c.rra(mode)) by {
        reveal(CpuState::rra);
    }
    assert forall|c: CpuState, mode: AddressingMode| keeps_break_bit(c, #[trigger] c.slo(mode)) by {
        reveal(CpuState::slo);
    }
    assert forall|c: CpuState, mode: AddressingMode| keeps_break_bit(c, #[trigger] c.sre(mode)) by {
        reveal(CpuState::sre);
    }
}

/// No instruction clears the upper break bit.
pub proof fn lemma_execute_keeps_break_bit(c: CpuState, op: OpCode)
    ensures
        keeps_break_bit(c, c.execute(op)),
{
    lemma_break_bit_algebra();
    lemma_instructions_keep_break_bit();
    reveal(CpuState::execute_implied);
    reveal(CpuState::execute_low);
    reveal(CpuState::execute_mid_low);
    reveal(CpuState::execute_mid_high);
    reveal(CpuState::execute_high);
}

/// The upper break bit of the status byte reads 1 after every step that
/// started with it set, interrupt entry included.
pub proof fn lemma_step_keeps_break_bit(c: CpuState)
    requires
        break_bit_set(c),
    ensures
        c.step() matches Ok((d, _)) ==> break_bit_set(d),
{
    reveal(CpuState::step);
    reveal(CpuState::perform);
    reveal(CpuState::interrupt_nmi);
    lemma_break_bit_algebra();
    match c.poll() {
        Ok((polled, _)) => {
            assert(break_bit_set(polled));
            match polled.read(polled.pc) {
                Ok((fetched, code)) => {
                    match OpCode::describe(code) {
                        Some(op) => {
                            lemma_execute_keeps_break_bit(
                                CpuState { pc: fetched.pc.wrapping_add(1), ..fetched },
                                op,
                            );
                        },
                        None => {},
                    }
                },
                Err(_) => {},
            }
        },
        Err(_) => {},
    }
}

/// The upper break bit reads 1 all through a run that started with it set.
pub proof fn lemma_run_keeps_break_bit(c: CpuState, n: nat)
    requires
        break_bit_set(c),
    ensures
        c.after_steps(n) matches Ok(run) ==> break_bit_set(run.cpu),
    decreases n,
{
    if n > 0 {
        lemma_run_keeps_break_bit(c, (n - 1) as nat);
        match c.after_steps((n - 1) as nat) {
            Ok(run) => {
                lemma_step_keeps_break_bit(run.cpu);
            },
            Err(_) => {},
        }
    }
}

/// The flag rule for every state and result at once.
pub proof fn lemma_zn_rule()
    ensures
        forall|c: CpuState, result: u8| zn_follow(#[trigger] c.with_zn(result), result),
{
    assert forall|c: CpuState, result: u8| zn_follow(#[trigger] c.with_zn(result), result) by {
        lemma_with_zn(c, result);
    }
}

proof fn lemma_rotate_bits(x: u8, y: u8)
    by (bit_vector)
    ensures
        ((x | 0x80) | 0x02) & 0x80 == 0x80,
        ((x | 0x80) & !0x02u8) & 0x80 == 0x80,
        ((x & !0x80u8) | 0x02) & 0x80 != 0x80,
        ((x & !0x80u8) & !0x02u8) & 0x80 != 0x80,
        (y | 0x02) & 0x02 == 0x02,
        (y & !0x02u8) & 0x02 != 0x02,
{
}

/// The register instructions keep the flag rule: after each of them Z and
/// N follow the register it wrote.
pub proof fn lemma_register_instructions_set_zn(c: CpuState)
    ensures
        zn_follow(c.tax(), c.tax().x),
        zn_follow(c.tay(), c.tay().y),
        zn_follow(c.tsx(), c.tsx().x),
        zn_follow(c.txa(), c.txa().a),
        zn_follow(c.tya(), c.tya().a),
        zn_follow(c.inx(), c.inx().x),
        zn_follow(c.iny(), c.iny().y),
        zn_follow(c.dex(), c.dex().x),
        zn_follow(c.dey(), c.dey().y),
        zn_follow(c.asl_acc(), c.asl_acc().a),
        zn_follow(c.lsr_acc(), c.lsr_acc().a),
        zn_follow(c.rol_acc(), c.rol_acc().a),
        zn_follow(c.ror_acc(), c.ror_acc().a),
{
    lemma_zn_rule();
    let left = c.with_flag(CPUFlags::CARRY, c.a >> 7 == 1).p;
    lemma_rotate_bits(left, assigned(left, CPUFlags::NEGATIVE, c.rotate_left(c.a).1 >> 7 == 1));
    let right = c.with_flag(CPUFlags::CARRY, c.a & 1 == 1).p;
    lemma_rotate_bits(right, assigned(right, CPUFlags::NEGATIVE, c.rotate_right(c.a).1 >> 7 == 1));
}

/// The loads, the logic and arithmetic instructions and PLA keep the flag
/// rule: after each of them Z and N follow the register it wrote.
pub proof fn lemma_operand_instructions_set_zn(c: CpuState, mode: AddressingMode)
    ensures
        c.lda(mode) matches Ok(d) ==> zn_follow(d, d.a),
        c.ldx(mode) matches Ok(d) ==> zn_follow(d, d.x),
        c.ldy(mode) matches Ok(d) ==> zn_follow(d, d.y),
        c.lax(mode) matches Ok(d) ==> zn_follow(d, d.a) && d.x == d.a,
        c.and(mode) matches Ok(d) ==> zn_follow(d, d.a),
        c.ora(mode) matches Ok(d) ==> zn_follow(d, d.a),
        c.eor(mode) matches Ok(d) ==> zn_follow(d, d.a),
        c.adc(mode) matches Ok(d) ==> zn_follow(d, d.a),
        c.sbc(mode) matches Ok(d) ==> zn_follow(d, d.a),
        c.pla() matches Ok(d) ==> zn_follow(d, d.a),
{
    lemma_zn_rule();
    reveal(CpuState::lda);
    reveal(CpuState::ldx);
    reveal(CpuState::ldy);
    reveal(CpuState::lax);
    reveal(CpuState::and);
    reveal(CpuState::ora);
    reveal(CpuState::eor);
    reveal(CpuState::adc);
    reveal(CpuState::sbc);
    reveal(CpuState::pla);
}

} // verus!
