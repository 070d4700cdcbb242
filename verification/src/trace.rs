//! A one-line disassembly of the instruction about to run, with the
//! registers beside it:
//!
//! ```text
//! 0064  A2 01     LDX #$01                        A:01 X:02 Y:03 P:24 SP:FD
//! ```
//!
//! The fields are the program counter, the raw instruction bytes, the
//! mnemonic, the operand with what it resolves to, and the registers.

use vstd::prelude::*;
use vstd::string::*;
use crate::cpu::{AddressingMode, CPU, CpuState, Memory};
use crate::fault::{Fault, agrees};
use crate::instructions::sign_extend;
use crate::opcodes::{OpCode, lemma_table_shape, lemma_mnemonic_len};
use crate::ppu::registers::address::word;

verus! {

/// What the disassembly needs besides the opcode: the operand bytes, the
/// address they resolve to, the byte found there and, for the indirect
/// jump, the address jumped to. Fields that an instruction has no use for
/// are zero.
#[derive(Clone, Copy, Debug, PartialEq, Eq, Structural)]
pub struct Operands {
    pub lo: u8,
    pub hi: u8,
    pub mem_addr: u16,
    pub mem_val: u8,
    pub jump: u16,
}

/// The upper-case hexadecimal digit for a value below 16.
pub open spec fn hex_digit(n: u8) -> char {
    match n {
        0 => '0',
        1 => '1',
        2 => '2',
        3 => '3',
        4 => '4',
        5 => '5',
        6 => '6',
        7 => '7',
        8 => '8',
        9 => '9',
        10 => 'A',
        11 => 'B',
        12 => 'C',
        13 => 'D',
        14 => 'E',
        _ => 'F',
    }
}

/// A byte as two hexadecimal digits.
pub open spec fn hex2(v: u8) -> Seq<char> {
    seq![hex_digit(v >> 4), hex_digit(v & 0x0F)]
}

/// A 16-bit value as four hexadecimal digits.
pub open spec fn hex4(v: u16) -> Seq<char> {
    hex2((v >> 8) as u8) + hex2((v & 0xFF) as u8)
}

/// `k` spaces; none when `k` is not positive.
pub open spec fn spaces(k: int) -> Seq<char> {
    Seq::new(
        if k > 0 {
            k as nat
        } else {
            0
        },
        |i: int| ' ',
    )
}

/// `s` with spaces behind it up to `width` characters.
pub open spec fn pad_right(s: Seq<char>, width: int) -> Seq<char> {
    s + spaces(width - s.len())
}

/// `s` with spaces before it up to `width` characters.
pub open spec fn pad_left(s: Seq<char>, width: int) -> Seq<char> {
    spaces(width - s.len()) + s
}

/// The instruction bytes in hexadecimal, a space between them.
pub open spec fn bytes_text(op: OpCode, v: Operands) -> Seq<char> {
    if op.len == 2 {
        hex2(op.code) + " "@ + hex2(v.lo)
    } else if op.len == 3 {
        hex2(op.code) + " "@ + hex2(v.lo) + " "@ + hex2(v.hi)
    } else {
        hex2(op.code)
    }
}

/// The operand as the assembler writes it, followed by what it resolves to.
///
/// | form | text |
/// |---|---|
/// | accumulator shifts | `A` |
/// | immediate | `#$01` |
/// | zero page | `$10 = AA`, indexed `$10,X @ 12 = AA` |
/// | (indirect,X) | `($80,X) @ 82 = 0200 = AA` |
/// | (indirect),Y | `($33),Y = 0400 @ 0400 = AA` |
/// | branch | `$8005`, the branch target |
/// | absolute | `$1234 = AA`, indexed `$1234,X @ 1236 = AA`; JMP and JSR only `$1234` |
/// | indirect jump | `($1234) = 5678` |
pub open spec fn operand_text(op: OpCode, v: Operands, x: u8, y: u8, pc: u16) -> Seq<char> {
    if op.len == 2 {
        match op.mode {
            AddressingMode::Immediate => "#$"@ + hex2(v.lo),
            AddressingMode::ZeroPage => "$"@ + hex2(v.lo) + " = "@ + hex2(v.mem_val),
            AddressingMode::ZeroPage_X => "$"@ + hex2(v.lo) + ",X @ "@ + hex2(
                (v.mem_addr & 0xFF) as u8,
            ) + " = "@ + hex2(v.mem_val),
            AddressingMode::ZeroPage_Y => "$"@ + hex2(v.lo) + ",Y @ "@ + hex2(
                (v.mem_addr & 0xFF) as u8,
            ) + " = "@ + hex2(v.mem_val),
            AddressingMode::Indirect_X => "($"@ + hex2(v.lo) + ",X) @ "@ + hex2(
                x.wrapping_add(v.lo),
            ) + " = "@ + hex4(v.mem_addr) + " = "@ + hex2(v.mem_val),
            AddressingMode::Indirect_Y => "($"@ + hex2(v.lo) + "),Y = "@ + hex4(
                v.mem_addr.wrapping_sub(y as u16),
            ) + " @ "@ + hex4(v.mem_addr) + " = "@ + hex2(v.mem_val),
            AddressingMode::NoneAddressing => "$"@ + hex4(
                pc.wrapping_add(2).wrapping_add(sign_extend(v.lo)),
            ),
            _ => Seq::<char>::empty(),
        }
    } else if op.len == 3 {
        match op.mode {
            AddressingMode::Absolute => if op.code == 0x4C || op.code == 0x20 {
                "$"@ + hex4(word(v.hi, v.lo))
            } else {
                "$"@ + hex4(word(v.hi, v.lo)) + " = "@ + hex2(v.mem_val)
            },
            AddressingMode::Absolute_X => "$"@ + hex4(word(v.hi, v.lo)) + ",X @ "@ + hex4(
                v.mem_addr,
            ) + " = "@ + hex2(v.mem_val),
            AddressingMode::Absolute_Y => "$"@ + hex4(word(v.hi, v.lo)) + ",Y @ "@ + hex4(
                v.mem_addr,
            ) + " = "@ + hex2(v.mem_val),
            AddressingMode::NoneAddressing => if op.code == 0x6C {
                "($"@ + hex4(word(v.hi, v.lo)) + ") = "@ + hex4(v.jump)
            } else {
                "($"@ + hex4(word(v.hi, v.lo)) + ")"@
            },
            _ => Seq::<char>::empty(),
        }
    } else {
        match op.code {
            0x0A | 0x2A | 0x4A | 0x6A => "A"@,
            _ => Seq::<char>::empty(),
        }
    }
}

/// The registers: `A:01 X:02 Y:03 P:24 SP:FD`.
pub open spec fn registers_text(c: CpuState) -> Seq<char> {
    "A:"@ + hex2(c.a) + " X:"@ + hex2(c.x) + " Y:"@ + hex2(c.y) + " P:"@ + hex2(c.p) + " SP:"@
        + hex2(c.s)
}

/// The disassembly, without the registers: the program counter, two
/// spaces, the instruction bytes in a column of eight, the mnemonic
/// right-aligned in a column of four, and the operand.
pub open spec fn assembly_text(op: OpCode, v: Operands, x: u8, y: u8, pc: u16) -> Seq<char> {
    hex4(pc) + "  "@ + pad_right(bytes_text(op, v), 8) + " "@ + pad_left(op.mnemonic@, 4) + " "@
        + operand_text(op, v, x, y, pc)
}

/// The whole line: the disassembly in a column of 47, a space, the registers.
pub open spec fn line_text(op: OpCode, v: Operands, c: CpuState, pc: u16) -> Seq<char> {
    pad_right(assembly_text(op, v, c.x, c.y, pc), 47) + " "@ + registers_text(c)
}

impl CpuState {
    /// The address an operand at `base` resolves to and the byte found there.
    pub open spec fn operand_at(self, mode: AddressingMode, base: u16) -> Result<
        (CpuState, (u16, u8)),
        Fault,
    > {
        match self.operand_address(mode, base) {
            Ok((c, addr)) => match c.read(addr) {
                Ok((d, data)) => Ok((d, (addr, data))),
                Err(e) => Err(e),
            },
            Err(e) => Err(e),
        }
    }

    /// The operand bytes of the instruction `op` at the program counter,
    /// read after the operand was resolved.
    pub open spec fn operand_bytes(self, op: OpCode, mem_addr: u16, mem_val: u8) -> Result<
        (CpuState, Operands),
        Fault,
    > {
        if op.len == 2 {
            match self.read(self.pc.wrapping_add(1)) {
                Ok((c, lo)) => Ok((c, Operands { lo, hi: 0, mem_addr, mem_val, jump: 0 })),
                Err(e) => Err(e),
            }
        } else if op.len == 3 {
            match self.read(self.pc.wrapping_add(1)) {
                Ok((c, lo)) => match c.read(self.pc.wrapping_add(2)) {
                    Ok((d, hi)) => if op.code == 0x6C && op.mode == AddressingMode::NoneAddressing {
                        match d.jmp_indirect_target(word(hi, lo)) {
                            Ok((f, jump)) => Ok((f, Operands { lo, hi, mem_addr, mem_val, jump })),
                            Err(e) => Err(e),
                        }
                    } else {
                        Ok((d, Operands { lo, hi, mem_addr, mem_val, jump: 0 }))
                    },
                    Err(e) => Err(e),
                },
                Err(e) => Err(e),
            }
        } else {
            Ok((self, Operands { lo: 0, hi: 0, mem_addr, mem_val, jump: 0 }))
        }
    }

    /// Everything the disassembly reads, in the order it reads it: the
    /// opcode, the resolved operand, then the operand bytes. The reads go
    /// through the bus and have the side effects of any other read.
    #[verifier::opaque]
    pub open spec fn inspect(self) -> Result<(CpuState, (OpCode, Operands)), Fault> {
        match self.read(self.pc) {
            Ok((c, code)) => match OpCode::describe(code) {
                Some(op) => match (if op.mode == AddressingMode::Immediate || op.mode
                    == AddressingMode::NoneAddressing {
                    Ok((c, (0u16, 0u8)))
                } else {
                    c.operand_at(op.mode, self.pc.wrapping_add(1))
                }) {
                    Ok((d, (mem_addr, mem_val))) => match d.operand_bytes(op, mem_addr, mem_val) {
                        Ok((f, v)) => Ok((f, (op, v))),
                        Err(e) => Err(e),
                    },
                    Err(e) => Err(e),
                },
                None => Err(Fault::UnknownOpcode { code, pc: self.pc }),
            },
            Err(e) => Err(e),
        }
    }

    /// The trace line for the instruction at the program counter.
    pub open spec fn trace(self) -> Result<(CpuState, Seq<char>), Fault> {
        match self.inspect() {
            Ok((c, (op, v))) => Ok((c, line_text(op, v, c, self.pc))),
            Err(e) => Err(e),
        }
    }
}

/// A string that knows how many characters it holds.
struct Text {
    s: String,
    n: usize,
}

impl Text {
    spec fn wf(&self) -> bool {
        self.s@.len() == self.n
    }

    fn new() -> (t: Text)
        ensures
            t.wf(),
            t.s@ == Seq::<char>::empty(),
    {
        Text { s: String::new(), n: 0 }
    }

    fn push(&mut self, piece: &str)
        requires
            old(self).wf(),
            old(self).n + piece@.len() <= usize::MAX,
        ensures
            final(self).wf(),
            final(self).s@ == old(self).s@ + piece@,
    {
        let k = piece.unicode_len();
        self.s.append(piece);
        self.n = self.n + k;
    }

    fn push_hex2(&mut self, v: u8)
        requires
            old(self).wf(),
            old(self).n + 2 <= usize::MAX,
        ensures
            final(self).wf(),
            final(self).s@ == old(self).s@ + hex2(v),
    {
        assert(v >> 4 < 16 && v & 0x0F < 16) by (bit_vector);
        let hi = hex_digit_str(v >> 4);
        let lo = hex_digit_str(v & 0x0F);
        self.push(hi);
        self.push(lo);
        assert(self.s@ =~= old(self).s@ + hex2(v));
    }

    fn push_hex4(&mut self, v: u16)
        requires
            old(self).wf(),
            old(self).n + 4 <= usize::MAX,
        ensures
            final(self).wf(),
            final(self).s@ == old(self).s@ + hex4(v),
    {
        self.push_hex2((v >> 8) as u8);
        self.push_hex2((v & 0xFF) as u8);
        assert(self.s@ =~= old(self).s@ + hex4(v));
    }

    /// Appends spaces until the text is `width` characters long.
    fn pad_to(&mut self, width: usize)
        requires
            old(self).wf(),
        ensures
            final(self).wf(),
            final(self).s@ == pad_right(old(self).s@, width as int),
    {
        assert(self.s@ =~= old(self).s@ + spaces(0));
        while self.n < width
            invariant
                self.wf(),
                old(self).n <= self.n,
                self.n <= width || self.n == old(self).n,
                self.s@ == old(self).s@ + spaces(self.n - old(self).n),
            decreases width - self.n,
        {
            let ghost before = self.s@;
            proof {
                reveal_strlit(" ");
            }
            self.push(" ");
            assert(self.s@ =~= old(self).s@ + spaces(self.n - old(self).n)) by {
                assert(self.s@ == before + " "@);
                assert(" "@ =~= seq![' ']);
            }
        }
        assert(self.s@ =~= pad_right(old(self).s@, width as int));
    }
}

fn operand_bytes(cpu: &mut CPU, op: &OpCode, mem_addr: u16, mem_val: u8) -> (r: Result<
    Operands,
    Fault,
>)
    ensures
        agrees(old(cpu)@.operand_bytes(*op, mem_addr, mem_val), final(cpu)@, r),
{
    let pc = cpu.program_counter;
    if op.len == 2 {
        let lo = cpu.mem_read(pc.wrapping_add(1))?;
        Ok(Operands { lo, hi: 0, mem_addr, mem_val, jump: 0 })
    } else if op.len == 3 {
        let lo = cpu.mem_read(pc.wrapping_add(1))?;
        let hi = cpu.mem_read(pc.wrapping_add(2))?;
        let indirect_jump = match op.mode {
            AddressingMode::NoneAddressing => op.code == 0x6C,
            _ => false,
        };
        if indirect_jump {
            let jump = cpu.calculate_jmp_indirect_bug(((hi as u16) << 8) | (lo as u16))?;
            Ok(Operands { lo, hi, mem_addr, mem_val, jump })
        } else {
            Ok(Operands { lo, hi, mem_addr, mem_val, jump: 0 })
        }
    } else {
        Ok(Operands { lo: 0, hi: 0, mem_addr, mem_val, jump: 0 })
    }
}

fn inspect(cpu: &mut CPU) -> (r: Result<(OpCode, Operands), Fault>)
    ensures
        agrees(old(cpu)@.inspect(), final(cpu)@, r),
        r matches Ok((op, _)) ==> OpCode::describe(op.code) == Some(op),
{
    proof {
        reveal(CpuState::inspect);
    }
    let pc = cpu.program_counter;
    let code = cpu.mem_read(pc)?;
    let op = match OpCode::lookup(code) {
        Some(op) => op,
        None => {
            return Err(Fault::UnknownOpcode { code, pc });
        },
    };
    proof {
        lemma_table_shape(code);
    }
    let (mem_addr, mem_val) = match op.mode {
        AddressingMode::Immediate | AddressingMode::NoneAddressing => (0u16, 0u8),
        _ => {
            let addr = cpu.get_operand_address_from_base(&op.mode, pc.wrapping_add(1))?;
            let data = cpu.mem_read(addr)?;
            (addr, data)
        },
    };
    let v = operand_bytes(cpu, &op, mem_addr, mem_val)?;
    Ok((op, v))
}

fn write_bytes(op: &OpCode, v: &Operands) -> (t: Text)
    ensures
        t.wf(),
        t.s@ == bytes_text(*op, *v),
        t.n <= 8,
{
    proof {
        reveal_strlit(" ");
    }
    let mut t = Text::new();
    t.push_hex2(op.code);
    if op.len == 2 {
        t.push(" ");
        t.push_hex2(v.lo);
    } else if op.len == 3 {
        t.push(" ");
        t.push_hex2(v.lo);
        t.push(" ");
        t.push_hex2(v.hi);
    }
    assert(t.s@ =~= bytes_text(*op, *v));
    t
}

fn write_operand(op: &OpCode, v: &Operands, x: u8, y: u8, pc: u16) -> (t: Text)
    ensures
        t.wf(),
        t.s@ == operand_text(*op, *v, x, y, pc),
        t.n <= 32,
{
    proof {
        reveal_strlit("A");
        reveal_strlit("#$");
        reveal_strlit("$");
        reveal_strlit("($");
        reveal_strlit(" = ");
        reveal_strlit(" @ ");
        reveal_strlit(",X @ ");
        reveal_strlit(",Y @ ");
        reveal_strlit(",X) @ ");
        reveal_strlit("),Y = ");
        reveal_strlit(") = ");
        reveal_strlit(")");
    }
    let mut t = Text::new();
    if op.len == 2 {
        match op.mode {
            AddressingMode::Immediate => {
                t.push("#$");
                t.push_hex2(v.lo);
            },
            AddressingMode::ZeroPage => {
                t.push("$");
                t.push_hex2(v.lo);
                t.push(" = ");
                t.push_hex2(v.mem_val);
            },
            AddressingMode::ZeroPage_X => {
                t.push("$");
                t.push_hex2(v.lo);
                t.push(",X @ ");
                t.push_hex2((v.mem_addr & 0xFF) as u8);
                t.push(" = ");
                t.push_hex2(v.mem_val);
            },
            AddressingMode::ZeroPage_Y => {
                t.push("$");
                t.push_hex2(v.lo);
                t.push(",Y @ ");
                t.push_hex2((v.mem_addr & 0xFF) as u8);
                t.push(" = ");
                t.push_hex2(v.mem_val);
            },
            AddressingMode::Indirect_X => {
                t.push("($");
                t.push_hex2(v.lo);
                t.push(",X) @ ");
                t.push_hex2(x.wrapping_add(v.lo));
                t.push(" = ");
                t.push_hex4(v.mem_addr);
                t.push(" = ");
                t.push_hex2(v.mem_val);
            },
            AddressingMode::Indirect_Y => {
                t.push("($");
                t.push_hex2(v.lo);
                t.push("),Y = ");
                t.push_hex4(v.mem_addr.wrapping_sub(y as u16));
                t.push(" @ ");
                t.push_hex4(v.mem_addr);
                t.push(" = ");
                t.push_hex2(v.mem_val);
            },
            AddressingMode::NoneAddressing => {
                let offset: u16 = if v.lo & 0x80 == 0 {
                    v.lo as u16
                } else {
                    (v.lo as u16) | 0xFF00
                };
                t.push("$");
                t.push_hex4(pc.wrapping_add(2).wrapping_add(offset));
            },
            _ => {},
        }
    } else if op.len == 3 {
        let target: u16 = ((v.hi as u16) << 8) | (v.lo as u16);
        match op.mode {
            AddressingMode::Absolute => {
                t.push("$");
                t.push_hex4(target);
                if !(op.code == 0x4C || op.code == 0x20) {
                    t.push(" = ");
                    t.push_hex2(v.mem_val);
                }
            },
            AddressingMode::Absolute_X => {
                t.push("$");
                t.push_hex4(target);
                t.push(",X @ ");
                t.push_hex4(v.mem_addr);
                t.push(" = ");
                t.push_hex2(v.mem_val);
            },
            AddressingMode::Absolute_Y => {
                t.push("$");
                t.push_hex4(target);
                t.push(",Y @ ");
                t.push_hex4(v.mem_addr);
                t.push(" = ");
                t.push_hex2(v.mem_val);
            },
            AddressingMode::NoneAddressing => {
                t.push("($");
                t.push_hex4(target);
                if op.code == 0x6C {
                    t.push(") = ");
                    t.push_hex4(v.jump);
                } else {
                    t.push(")");
                }
            },
            _ => {},
        }
    } else {
        match op.code {
            0x0A | 0x2A | 0x4A | 0x6A => {
                t.push("A");
            },
            _ => {},
        }
    }
    assert(t.s@ =~= operand_text(*op, *v, x, y, pc));
    t
}

fn write_registers(cpu: &CPU) -> (t: Text)
    ensures
        t.wf(),
        t.s@ == registers_text(cpu@),
        t.n == 25,
{
    proof {
        reveal_strlit("A:");
        reveal_strlit(" X:");
        reveal_strlit(" Y:");
        reveal_strlit(" P:");
        reveal_strlit(" SP:");
    }
    let mut t = Text::new();
    t.push("A:");
    t.push_hex2(cpu.register_a);
    t.push(" X:");
    t.push_hex2(cpu.register_x);
    t.push(" Y:");
    t.push_hex2(cpu.register_y);
    t.push(" P:");
    t.push_hex2(cpu.status.bits());
    t.push(" SP:");
    t.push_hex2(cpu.register_s);
    assert(t.s@ =~= registers_text(cpu@));
    t
}

fn write_assembly(op: &OpCode, v: &Operands, x: u8, y: u8, pc: u16) -> (t: Text)
    requires
        OpCode::describe(op.code) == Some(*op),
    ensures
        t.wf(),
        t.s@ == assembly_text(*op, *v, x, y, pc),
        t.n <= 64,
{
    proof {
        reveal_strlit(" ");
        reveal_strlit("  ");
        lemma_mnemonic_len(op.code);
    }
    let mut t = Text::new();
    t.push_hex4(pc);
    t.push("  ");
    let mut bytes = write_bytes(op, v);
    bytes.pad_to(8);
    t.push(bytes.s.as_str());
    t.push(" ");
    let mut mnemonic = Text::new();
    let length = op.mnemonic.unicode_len();
    mnemonic.pad_to(4 - length);
    mnemonic.push(op.mnemonic);
    assert(mnemonic.s@ =~= pad_left(op.mnemonic@, 4));
    t.push(mnemonic.s.as_str());
    t.push(" ");
    let operand = write_operand(op, v, x, y, pc);
    t.push(operand.s.as_str());
    assert(t.s@ =~= assembly_text(*op, *v, x, y, pc));
    t
}

/// Disassembles the instruction at the program counter. The bytes are
/// read through the bus, so a trace touches the machine as the reads of
/// a program would.
pub fn trace(cpu: &mut CPU) -> (r: Result<String, Fault>)
    ensures
        match old(cpu)@.trace() {
            Ok((c, text)) => r is Ok && r->Ok_0@ == text && final(cpu)@ == c,
            Err(e) => r == Err::<String, Fault>(e),
        },
{
    proof {
        reveal_strlit(" ");
    }
    let pc = cpu.program_counter;
    let (op, v) = inspect(cpu)?;
    let mut line = write_assembly(&op, &v, cpu.register_x, cpu.register_y, pc);
    line.pad_to(47);
    line.push(" ");
    let registers = write_registers(cpu);
    line.push(registers.s.as_str());
    Ok(line.s)
}

fn hex_digit_str(n: u8) -> (s: &'static str)
    requires
        n < 16,
    ensures
        s@ == seq![hex_digit(n)],
        s@.len() == 1,
{
    proof {
        reveal_strlit("0");
        reveal_strlit("1");
        reveal_strlit("2");
        reveal_strlit("3");
        reveal_strlit("4");
        reveal_strlit("5");
        reveal_strlit("6");
        reveal_strlit("7");
        reveal_strlit("8");
        reveal_strlit("9");
        reveal_strlit("A");
        reveal_strlit("B");
        reveal_strlit("C");
        reveal_strlit("D");
        reveal_strlit("E");
        reveal_strlit("F");
    }
    let s = match n {
        0 => "0",
        1 => "1",
        2 => "2",
        3 => "3",
        4 => "4",
        5 => "5",
        6 => "6",
        7 => "7",
        8 => "8",
        9 => "9",
        10 => "A",
        11 => "B",
        12 => "C",
        13 => "D",
        14 => "E",
        _ => "F",
    };
    assert(s@ =~= seq![hex_digit(n)]);
    s
}

} // verus!
