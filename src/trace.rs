use vstd::prelude::*;

use vstd::string::{StrSliceExecFns, StringExecFns};

use crate::cpu::{Registers, CPU};
use crate::instruction::{branch_target, wrap16, wrap8, Instruction};
use crate::memory::{raw_wrapped, Memory, MemoryView};
use crate::opcode::{
    lookup_opcode, mnemonic_name, mode_len, opcode_len, opcode_table, spec_mnemonic_name,
    AddressingMode, Mnemonic,
};
use crate::parser::hex_digit_value;
use crate::text::{
    decimal, decimal_padded, hex2, hex4, pad_left, pad_right, pad_to, push_hex2, push_hex4,
};

verus! {

/// Nintendulator's text for an instruction, given the registers and the
/// bus it runs on. Memory operands show the byte they hold.
#[verifier::opaque]
pub open spec fn disassembly(i: Instruction, r: Registers, m: MemoryView) -> Seq<char> {
    let o = opcode_table(i.0).unwrap();
    let name = spec_mnemonic_name(o.mnemonic)@;
    let arg16 = i.spec_arg_u16();
    match o.mode {
        AddressingMode::Implied => name,
        AddressingMode::Accumulator => name + " A"@,
        AddressingMode::Immediate => name + " #$"@ + hex2(i.1),
        AddressingMode::ZeroPage => name + " $"@ + hex2(i.1) + " = "@ + hex2(m.raw(i.1 as int)),
        AddressingMode::ZeroPageX => {
            let a = wrap8(i.1 + r.x);
            name + " $"@ + hex2(i.1) + ",X @ "@ + hex2(a) + " = "@ + hex2(m.raw(a as int))
        },
        AddressingMode::ZeroPageY => {
            let a = wrap8(i.1 + r.y);
            name + " $"@ + hex2(i.1) + ",Y @ "@ + hex2(a) + " = "@ + hex2(m.raw(a as int))
        },
        AddressingMode::Relative => name + " $"@ + hex4(branch_target(wrap16(r.pc + 2), i.1)),
        AddressingMode::Absolute => if o.mnemonic == Mnemonic::Jmp || o.mnemonic == Mnemonic::Jsr {
            name + " $"@ + hex2(i.2) + hex2(i.1)
        } else {
            name + " $"@ + hex2(i.2) + hex2(i.1) + " = "@ + hex2(m.raw(arg16 as int))
        },
        AddressingMode::AbsoluteX => {
            let a = wrap16(arg16 + r.x);
            name + " $"@ + hex2(i.2) + hex2(i.1) + ",X @ "@ + hex4(a) + " = "@ + hex2(
                m.raw(a as int),
            )
        },
        AddressingMode::AbsoluteY => {
            let a = wrap16(arg16 + r.y);
            name + " $"@ + hex2(i.2) + hex2(i.1) + ",Y @ "@ + hex4(a) + " = "@ + hex2(
                m.raw(a as int),
            )
        },
        AddressingMode::Indirect => name + " ($"@ + hex2(i.2) + hex2(i.1) + ") = "@ + hex4(
            raw_wrapped(m, arg16 as int),
        ),
        AddressingMode::IndexedIndirect => {
            let z = wrap8(i.1 + r.x);
            let t = raw_wrapped(m, z as int);
            name + " ($"@ + hex2(i.1) + ",X) @ "@ + hex2(z) + " = "@ + hex4(t) + " = "@ + hex2(
                m.raw(t as int),
            )
        },
        AddressingMode::IndirectIndexed => {
            let b = raw_wrapped(m, i.1 as int);
            let a = wrap16(b + r.y);
            name + " ($"@ + hex2(i.1) + "),Y = "@ + hex4(b) + " @ "@ + hex4(a) + " = "@ + hex2(
                m.raw(a as int),
            )
        },
    }
}

/// The instruction bytes of a trace line, padded to eight columns.
pub open spec fn instruction_bytes(i: Instruction) -> Seq<char> {
    let len = mode_len(opcode_table(i.0).unwrap().mode);
    if len == 1 {
        hex2(i.0) + "      "@
    } else if len == 2 {
        hex2(i.0) + " "@ + hex2(i.1) + "   "@
    } else {
        hex2(i.0) + " "@ + hex2(i.1) + " "@ + hex2(i.2)
    }
}

/// A Nintendulator trace line for an instruction about to run.
pub open spec fn trace_line(i: Instruction, r: Registers, dots: u16, m: MemoryView) -> Seq<char> {
    hex4(r.pc) + "  "@ + instruction_bytes(i) + "  "@ + pad_right(disassembly(i, r, m), 30)
        + register_fields(r, dots)
}

/// The register columns of a trace line.
pub open spec fn register_fields(r: Registers, dots: u16) -> Seq<char> {
    "  A:"@ + hex2(r.a) + " X:"@ + hex2(r.x) + " Y:"@ + hex2(r.y) + " P:"@ + hex2(r.p) + " SP:"@
        + hex2(r.sp) + " CYC:"@ + pad_left(decimal(dots as nat), 3)
}

fn instruction_bytes_text(i: Instruction) -> (r: String)
    requires
        opcode_table(i.0).is_some(),
    ensures
        r@ == instruction_bytes(i),
{
    let len = opcode_len(&i.opcode());
    let mut s = String::new();
    push_hex2(&mut s, i.0);
    if len == 1 {
        s.append("      ");
    } else if len == 2 {
        s.append(" ");
        push_hex2(&mut s, i.1);
        s.append("   ");
    } else {
        s.append(" ");
        push_hex2(&mut s, i.1);
        s.append(" ");
        push_hex2(&mut s, i.2);
    }
    assert(s@ =~= instruction_bytes(i));
    s
}

fn register_fields_text(cpu: &CPU) -> (r: String)
    ensures
        r@ == register_fields(cpu.regs(), cpu.ppu_dots),
{
    let mut s = String::new();
    s.append("  A:");
    push_hex2(&mut s, cpu.a);
    s.append(" X:");
    push_hex2(&mut s, cpu.x);
    s.append(" Y:");
    push_hex2(&mut s, cpu.y);
    s.append(" P:");
    push_hex2(&mut s, cpu.p);
    s.append(" SP:");
    push_hex2(&mut s, cpu.sp);
    s.append(" CYC:");
    let dots = decimal_padded(cpu.ppu_dots, 3);
    s.append(dots.as_str());
    assert(s@ =~= register_fields(cpu.regs(), cpu.ppu_dots));
    s
}

/// The instruction at `pc` read whatever the permissions; `None` when the
/// opcode byte is not an official opcode.
pub open spec fn raw_fetch(pc: u16, m: MemoryView) -> Option<Instruction> {
    let op = m.raw(pc as int);
    match opcode_table(op) {
        None => None,
        Some(o) => {
            let b1 = m.raw(wrap16(pc + 1) as int);
            let b2 = m.raw(wrap16(pc + 2) as int);
            if mode_len(o.mode) == 1 {
                Some(Instruction(op, 0, 0))
            } else if mode_len(o.mode) == 2 {
                Some(Instruction(op, b1, 0))
            } else {
                Some(Instruction(op, b1, b2))
            }
        },
    }
}

impl Instruction {
    /// Disassembles in accumulator mode: `ASL A`.
    pub fn disassemble_accumulator(&self, instr: &str) -> (r: String)
        ensures
            r@ == instr@ + " A"@,
    {
        let mut s = String::from_str(instr);
        s.append(" A");
        s
    }

    /// Disassembles in implied mode: the bare name.
    pub fn disassemble_implied(&self, instr: &str) -> (r: String)
        ensures
            r@ == instr@,
    {
        String::from_str(instr)
    }

    /// Disassembles in immediate mode: `LDA #$XX`.
    pub fn disassemble_immediate(&self, instr: &str) -> (r: String)
        ensures
            r@ == instr@ + " #$"@ + hex2(self.1),
    {
        let mut s = String::from_str(instr);
        s.append(" #$");
        push_hex2(&mut s, self.1);
        s
    }

    /// Disassembles in zero page mode: `LDA $XX = VV`.
    pub fn disassemble_zero_page(&self, instr: &str, memory: &mut Memory) -> (r: String)
        requires
            old(memory).wf(),
        ensures
            r@ == instr@ + " $"@ + hex2(self.1) + " = "@ + hex2(old(memory)@.raw(self.1 as int)),
            final(memory)@ == old(memory)@,
            final(memory).wf(),
    {
        let v = memory.read_u8_unrestricted(self.1 as usize);
        let mut s = String::from_str(instr);
        s.append(" $");
        push_hex2(&mut s, self.1);
        s.append(" = ");
        push_hex2(&mut s, v);
        s
    }

    /// Disassembles in indexed zero page mode: `LDA $XX,X @ AA = VV`.
    fn disassemble_zero_page_indexed(&self, instr: &str, index_name: &str, index: u8, memory: &mut Memory) -> (r: String)
        requires
            old(memory).wf(),
        ensures
            r@ == instr@ + " $"@ + hex2(self.1) + index_name@ + hex2(wrap8(self.1 + index))
                + " = "@ + hex2(old(memory)@.raw(wrap8(self.1 + index) as int)),
            final(memory)@ == old(memory)@,
            final(memory).wf(),
    {
        let a = ((self.1 as u16 + index as u16) % 0x100) as u8;
        let v = memory.read_u8_unrestricted(a as usize);
        let mut s = String::from_str(instr);
        s.append(" $");
        push_hex2(&mut s, self.1);
        s.append(index_name);
        push_hex2(&mut s, a);
        s.append(" = ");
        push_hex2(&mut s, v);
        s
    }

    /// Disassembles in relative mode: the branch target, `BCS $TTTT`.
    pub fn disassemble_relative(&self, instr: &str, cpu: &CPU) -> (r: String)
        ensures
            r@ == instr@ + " $"@ + hex4(branch_target(wrap16(cpu.pc + 2), self.1)),
    {
        let next = ((cpu.pc as u32 + 2) % 0x10000) as u16;
        let target = crate::utils::add_relative(next, self.relative());
        let mut s = String::from_str(instr);
        s.append(" $");
        push_hex4(&mut s, target);
        s
    }

    /// Disassembles an absolute jump target without the byte there:
    /// `JMP $HHLL`.
    pub fn disassemble_absolute_noref(&self, instr: &str) -> (r: String)
        ensures
            r@ == instr@ + " $"@ + hex2(self.2) + hex2(self.1),
    {
        let mut s = String::from_str(instr);
        s.append(" $");
        push_hex2(&mut s, self.2);
        push_hex2(&mut s, self.1);
        s
    }

    /// Disassembles in absolute mode: `LDA $HHLL = VV`.
    pub fn disassemble_absolute(&self, instr: &str, memory: &mut Memory) -> (r: String)
        requires
            old(memory).wf(),
        ensures
            r@ == instr@ + " $"@ + hex2(self.2) + hex2(self.1) + " = "@ + hex2(
                old(memory)@.raw(self.spec_arg_u16() as int),
            ),
            final(memory)@ == old(memory)@,
            final(memory).wf(),
    {
        let v = memory.read_u8_unrestricted(self.arg_u16() as usize);
        let mut s = self.disassemble_absolute_noref(instr);
        s.append(" = ");
        push_hex2(&mut s, v);
        s
    }

    /// Disassembles in indexed absolute mode: `LDA $HHLL,X @ AAAA = VV`.
    fn disassemble_absolute_indexed(&self, instr: &str, index_name: &str, index: u8, memory: &mut Memory) -> (r: String)
        requires
            old(memory).wf(),
        ensures
            r@ == instr@ + " $"@ + hex2(self.2) + hex2(self.1) + index_name@ + hex4(
                wrap16(self.spec_arg_u16() + index),
            ) + " = "@ + hex2(old(memory)@.raw(wrap16(self.spec_arg_u16() + index) as int)),
            final(memory)@ == old(memory)@,
            final(memory).wf(),
    {
        let a = ((self.arg_u16() as u32 + index as u32) % 0x10000) as u16;
        let v = memory.read_u8_unrestricted(a as usize);
        let mut s = self.disassemble_absolute_noref(instr);
        s.append(index_name);
        push_hex4(&mut s, a);
        s.append(" = ");
        push_hex2(&mut s, v);
        s
    }

    /// Disassembles an indirect jump: `JMP ($HHLL) = TTTT`.
    pub fn disassemble_indirect(&self, instr: &str, memory: &mut Memory) -> (r: String)
        requires
            old(memory).wf(),
        ensures
            r@ == instr@ + " ($"@ + hex2(self.2) + hex2(self.1) + ") = "@ + hex4(
                raw_wrapped(old(memory)@, self.spec_arg_u16() as int),
            ),
            final(memory)@ == old(memory)@,
            final(memory).wf(),
    {
        let t = memory.read_u16_wrapped_msb_unrestricted(self.arg_u16() as usize);
        let mut s = String::from_str(instr);
        s.append(" ($");
        push_hex2(&mut s, self.2);
        push_hex2(&mut s, self.1);
        s.append(") = ");
        push_hex4(&mut s, t);
        s
    }

    /// Disassembles in indexed indirect mode: `LDA ($XX,X) @ ZZ = AAAA = VV`.
    pub fn disassemble_indirect_x(&self, instr: &str, memory: &mut Memory, cpu: &CPU) -> (r: String)
        requires
            old(memory).wf(),
        ensures
            ({
                let z = wrap8(self.1 + cpu.x);
                let t = raw_wrapped(old(memory)@, z as int);
                r@ == instr@ + " ($"@ + hex2(self.1) + ",X) @ "@ + hex2(z) + " = "@ + hex4(t)
                    + " = "@ + hex2(old(memory)@.raw(t as int))
            }),
            final(memory)@ == old(memory)@,
            final(memory).wf(),
    {
        let z = ((self.1 as u16 + cpu.x as u16) % 0x100) as u8;
        let t = memory.read_u16_wrapped_msb_unrestricted(z as usize);
        let v = memory.read_u8_unrestricted(t as usize);
        let mut s = String::from_str(instr);
        s.append(" ($");
        push_hex2(&mut s, self.1);
        s.append(",X) @ ");
        push_hex2(&mut s, z);
        s.append(" = ");
        push_hex4(&mut s, t);
        s.append(" = ");
        push_hex2(&mut s, v);
        s
    }

    /// Disassembles in indirect indexed mode: `LDA ($XX),Y = BBBB @ AAAA = VV`.
    pub fn disassemble_indirect_y(&self, instr: &str, memory: &mut Memory, cpu: &CPU) -> (r: String)
        requires
            old(memory).wf(),
        ensures
            ({
                let b = raw_wrapped(old(memory)@, self.1 as int);
                let a = wrap16(b + cpu.y);
                r@ == instr@ + " ($"@ + hex2(self.1) + "),Y = "@ + hex4(b) + " @ "@ + hex4(a)
                    + " = "@ + hex2(old(memory)@.raw(a as int))
            }),
            final(memory)@ == old(memory)@,
            final(memory).wf(),
    {
        let b = memory.read_u16_wrapped_msb_unrestricted(self.1 as usize);
        let a = ((b as u32 + cpu.y as u32) % 0x10000) as u16;
        let v = memory.read_u8_unrestricted(a as usize);
        let mut s = String::from_str(instr);
        s.append(" ($");
        push_hex2(&mut s, self.1);
        s.append("),Y = ");
        push_hex4(&mut s, b);
        s.append(" @ ");
        push_hex4(&mut s, a);
        s.append(" = ");
        push_hex2(&mut s, v);
        s
    }

    /// Disassembles the instruction as Nintendulator prints it. The bus is
    /// read without touching the I/O register state.
    pub fn disassemble(&self, cpu: &CPU, memory: &mut Memory) -> (r: String)
        requires
            old(memory).wf(),
            opcode_table(self.0).is_some(),
        ensures
            r@ == disassembly(*self, cpu.regs(), old(memory)@),
            final(memory)@ == old(memory)@,
            final(memory).wf(),
    {
        proof {
            reveal(disassembly);
        }
        let opcode = self.opcode();
        let name = mnemonic_name(opcode.mnemonic);
        match opcode.mode {
            AddressingMode::Implied => self.disassemble_implied(name),
            AddressingMode::Accumulator => self.disassemble_accumulator(name),
            AddressingMode::Immediate => self.disassemble_immediate(name),
            AddressingMode::ZeroPage => self.disassemble_zero_page(name, memory),
            AddressingMode::ZeroPageX => self.disassemble_zero_page_indexed(name, ",X @ ", cpu.x, memory),
            AddressingMode::ZeroPageY => self.disassemble_zero_page_indexed(name, ",Y @ ", cpu.y, memory),
            AddressingMode::Relative => self.disassemble_relative(name, cpu),
            AddressingMode::Absolute => {
                if opcode.mnemonic == Mnemonic::Jmp || opcode.mnemonic == Mnemonic::Jsr {
                    self.disassemble_absolute_noref(name)
                } else {
                    self.disassemble_absolute(name, memory)
                }
            },
            AddressingMode::AbsoluteX => self.disassemble_absolute_indexed(name, ",X @ ", cpu.x, memory),
            AddressingMode::AbsoluteY => self.disassemble_absolute_indexed(name, ",Y @ ", cpu.y, memory),
            AddressingMode::Indirect => self.disassemble_indirect(name, memory),
            AddressingMode::IndexedIndirect => self.disassemble_indirect_x(name, memory, cpu),
            AddressingMode::IndirectIndexed => self.disassemble_indirect_y(name, memory, cpu),
        }
    }

    /// The instruction and CPU state as a Nintendulator trace line.
    pub fn log(&self, cpu: &CPU, memory: &mut Memory) -> (r: String)
        requires
            old(memory).wf(),
            opcode_table(self.0).is_some(),
        ensures
            r@ == trace_line(*self, cpu.regs(), cpu.ppu_dots, old(memory)@),
            final(memory)@ == old(memory)@,
            final(memory).wf(),
    {
        let mut s = String::new();
        push_hex4(&mut s, cpu.pc);
        s.append("  ");
        let bytes = instruction_bytes_text(*self);
        s.append(bytes.as_str());
        s.append("  ");
        let mut text = self.disassemble(cpu, memory);
        pad_to(&mut text, 30);
        s.append(text.as_str());
        let fields = register_fields_text(cpu);
        s.append(fields.as_str());
        assert(s@ =~= trace_line(*self, cpu.regs(), cpu.ppu_dots, old(memory)@));
        s
    }
}

impl CPU {
    /// The trace line of the instruction at PC, read without touching the
    /// I/O register state; `None` when the byte at PC is not an official
    /// opcode.
    pub fn trace(&self, memory: &mut Memory) -> (r: Option<String>)
        requires
            old(memory).wf(),
        ensures
            final(memory)@ == old(memory)@,
            final(memory).wf(),
            match raw_fetch(self.pc, old(memory)@) {
                None => r.is_none(),
                Some(i) => r.is_some() && r.unwrap()@ == trace_line(
                    i,
                    self.regs(),
                    self.ppu_dots,
                    old(memory)@,
                ),
            },
    {
        let op = memory.read_u8_unrestricted(self.pc as usize);
        let b1 = memory.read_u8_unrestricted(((self.pc as u32 + 1) % 0x10000) as usize);
        let b2 = memory.read_u8_unrestricted(((self.pc as u32 + 2) % 0x10000) as usize);
        match lookup_opcode(op) {
            None => None,
            Some(o) => {
                let len = opcode_len(&o);
                let instr = if len == 1 {
                    Instruction(op, 0, 0)
                } else if len == 2 {
                    Instruction(op, b1, 0)
                } else {
                    Instruction(op, b1, b2)
                };
                Some(instr.log(self, memory))
            },
        }
    }
}

/// Value of the hexadecimal digits `s[start..end]`; `None` when one of them
/// is not a digit.
pub open spec fn hex_field(s: Seq<char>, start: int, end: int) -> Option<int>
    decreases end - start,
{
    if end <= start {
        Some(0)
    } else {
        match (hex_field(s, start, end - 1), hex_digit_value(s[end - 1])) {
            (Some(h), Some(d)) => Some(16 * h + d),
            _ => None,
        }
    }
}

/// Index of the first non-space character of `s[i..end]`, or `end`.
pub open spec fn skip_spaces(s: Seq<char>, i: int, end: int) -> int
    decreases end - i,
{
    if i < end && s[i] == ' ' {
        skip_spaces(s, i + 1, end)
    } else {
        i
    }
}

/// Value of the decimal digits `s[start..end]`.
pub open spec fn dec_digits(s: Seq<char>, start: int, end: int) -> Option<int>
    decreases end - start,
{
    if end <= start {
        Some(0)
    } else {
        let c = s[end - 1];
        match dec_digits(s, start, end - 1) {
            Some(h) => if '0' <= c && c <= '9' {
                Some(10 * h + (c as int - '0' as int))
            } else {
                None
            },
            None => None,
        }
    }
}

/// A right-aligned decimal column: leading spaces, then at least one digit.
pub open spec fn dec_column(s: Seq<char>, start: int, end: int) -> Option<int> {
    let i = skip_spaces(s, start, end);
    if i >= end {
        None
    } else {
        dec_digits(s, i, end)
    }
}

/// Why a trace line could not be read as a CPU frame.
#[derive(Clone, Copy, Debug, PartialEq, Eq, Structural)]
pub enum FrameError {
    /// The line is shorter than the 81 columns of a frame.
    TooShort,
    /// A register or counter column does not hold a number.
    InvalidNumber,
}

/// The CPU state a trace line records, used to compare the emulator's
/// trace with a reference log.
#[derive(Debug, PartialEq)]
pub struct CPUFrame {
    pub instruction: Instruction,
    pub disassembly: String,
    pub pc: u16,
    pub a: u8,
    pub x: u8,
    pub y: u8,
    pub p: u8,
    pub sp: u8,
    pub cycles: u16,
}

fn digit_value(c: char) -> (r: Option<u8>)
    ensures
        match hex_digit_value(c) {
            Some(v) => r == Some(v as u8) && v < 16,
            None => r.is_none(),
        },
{
    if '0' <= c && c <= '9' {
        Some((c as u32 - '0' as u32) as u8)
    } else if 'a' <= c && c <= 'f' {
        Some((c as u32 - 'a' as u32 + 10) as u8)
    } else if 'A' <= c && c <= 'F' {
        Some((c as u32 - 'A' as u32 + 10) as u8)
    } else {
        None
    }
}

/// Reads the hexadecimal column `frame[start..end]` of at most four digits.
fn hex_column(frame: &str, start: usize, end: usize) -> (r: Option<u16>)
    requires
        start <= end <= frame@.len(),
        end - start <= 4,
    ensures
        match hex_field(frame@, start as int, end as int) {
            Some(v) => r == Some(v as u16) && 0 <= v < 0x10000 && (end - start <= 2 ==> v < 256),
            None => r.is_none(),
        },
{
    let mut acc: u32 = 0;
    let mut i = start;
    while i < end
        invariant
            start <= i <= end,
            end <= frame@.len(),
            end - start <= 4,
            hex_field(frame@, start as int, i as int) == Some(acc as int),
            i - start == 0 ==> acc < 1,
            i - start <= 1 ==> acc < 16,
            i - start <= 2 ==> acc < 256,
            i - start <= 3 ==> acc < 4096,
            acc < 0x10000,
        decreases end - i,
    {
        match digit_value(frame.get_char(i)) {
            None => {
                proof {
                    assert(hex_field(frame@, start as int, (i + 1) as int).is_none());
                    lemma_hex_field_none(frame@, start as int, (i + 1) as int, end as int);
                }
                return None;
            },
            Some(d) => {
                acc = acc * 16 + d as u32;
            },
        }
        i = i + 1;
    }
    Some(acc as u16)
}

/// A digit that fails makes every longer field fail.
proof fn lemma_hex_field_none(s: Seq<char>, start: int, mid: int, end: int)
    requires
        start <= mid <= end,
        hex_field(s, start, mid).is_none(),
    ensures
        hex_field(s, start, end).is_none(),
    decreases end - mid,
{
    if mid < end {
        lemma_hex_field_none(s, start, mid, end - 1);
    }
}

proof fn lemma_dec_digits_none(s: Seq<char>, start: int, mid: int, end: int)
    requires
        start <= mid <= end,
        dec_digits(s, start, mid).is_none(),
    ensures
        dec_digits(s, start, end).is_none(),
    decreases end - mid,
{
    if mid < end {
        lemma_dec_digits_none(s, start, mid, end - 1);
    }
}

/// Reads a right-aligned decimal column of at most three characters.
fn dec_column_value(frame: &str, start: usize, end: usize) -> (r: Option<u16>)
    requires
        start <= end <= frame@.len(),
        end - start <= 3,
    ensures
        match dec_column(frame@, start as int, end as int) {
            Some(v) => r == Some(v as u16) && 0 <= v < 1000,
            None => r.is_none(),
        },
{
    let mut first = start;
    while first < end && frame.get_char(first) == ' '
        invariant
            start <= first <= end,
            end <= frame@.len(),
            skip_spaces(frame@, start as int, end as int) == skip_spaces(
                frame@,
                first as int,
                end as int,
            ),
        decreases end - first,
    {
        first = first + 1;
    }
    assert(skip_spaces(frame@, first as int, end as int) == first as int);
    if first >= end {
        return None;
    }
    let mut acc: u32 = 0;
    let mut i = first;
    while i < end
        invariant
            first <= i <= end,
            end <= frame@.len(),
            end - first <= 3,
            first < end,
            skip_spaces(frame@, start as int, end as int) == first as int,
            dec_digits(frame@, first as int, i as int) == Some(acc as int),
            i - first == 0 ==> acc < 1,
            i - first <= 1 ==> acc < 10,
            i - first <= 2 ==> acc < 100,
            acc < 1000,
        decreases end - i,
    {
        let c = frame.get_char(i);
        if '0' <= c && c <= '9' {
            acc = acc * 10 + (c as u32 - '0' as u32);
        } else {
            proof {
                assert(dec_digits(frame@, first as int, (i + 1) as int).is_none());
                lemma_dec_digits_none(frame@, first as int, (i + 1) as int, end as int);
            }
            return None;
        }
        i = i + 1;
    }
    Some(acc as u16)
}

/// An instruction byte column: two hexadecimal digits, or 0 when the column
/// is blank.
pub open spec fn byte_column(s: Seq<char>, start: int) -> u8 {
    match hex_field(s, start, start + 2) {
        Some(v) => (v % 256) as u8,
        None => 0,
    }
}

/// Whether `f` holds the columns of the trace line `s`.
pub open spec fn frame_of(f: CPUFrame, s: Seq<char>) -> bool {
    &&& f.instruction == Instruction(byte_column(s, 6), byte_column(s, 9), byte_column(s, 12))
    &&& f.disassembly@ == s.subrange(16, 46)
    &&& hex_field(s, 0, 4) == Some(f.pc as int)
    &&& hex_field(s, 50, 52) == Some(f.a as int)
    &&& hex_field(s, 55, 57) == Some(f.x as int)
    &&& hex_field(s, 60, 62) == Some(f.y as int)
    &&& hex_field(s, 65, 67) == Some(f.p as int)
    &&& hex_field(s, 71, 73) == Some(f.sp as int)
    &&& dec_column(s, 78, 81) == Some(f.cycles as int)
}

/// Whether every number column of the trace line `s` reads.
pub open spec fn numbers_read(s: Seq<char>) -> bool {
    &&& hex_field(s, 0, 4).is_some()
    &&& hex_field(s, 50, 52).is_some()
    &&& hex_field(s, 55, 57).is_some()
    &&& hex_field(s, 60, 62).is_some()
    &&& hex_field(s, 65, 67).is_some()
    &&& hex_field(s, 71, 73).is_some()
    &&& dec_column(s, 78, 81).is_some()
}

impl CPUFrame {
    /// Parses a Nintendulator trace line.
    pub fn parse(frame: &str) -> (r: Result<CPUFrame, FrameError>)
        ensures
            frame@.len() < 81 ==> r == Err::<CPUFrame, FrameError>(FrameError::TooShort),
            frame@.len() >= 81 && !numbers_read(frame@) ==> r == Err::<CPUFrame, FrameError>(
                FrameError::InvalidNumber,
            ),
            frame@.len() >= 81 && numbers_read(frame@) ==> r.is_ok() && frame_of(r.unwrap(), frame@),
    {
        if frame.unicode_len() < 81 {
            return Err(FrameError::TooShort);
        }
        let instr = Instruction(
            CPUFrame::extract_word(frame, 6),
            CPUFrame::extract_word(frame, 9),
            CPUFrame::extract_word(frame, 12),
        );
        let disassembly = String::from_str(frame.substring_char(16, 46));
        let pc = match hex_column(frame, 0, 4) {
            Some(v) => v,
            None => return Err(FrameError::InvalidNumber),
        };
        let a = match hex_column(frame, 50, 52) {
            Some(v) => (v % 256) as u8,
            None => return Err(FrameError::InvalidNumber),
        };
        let x = match hex_column(frame, 55, 57) {
            Some(v) => (v % 256) as u8,
            None => return Err(FrameError::InvalidNumber),
        };
        let y = match hex_column(frame, 60, 62) {
            Some(v) => (v % 256) as u8,
            None => return Err(FrameError::InvalidNumber),
        };
        let p = match hex_column(frame, 65, 67) {
            Some(v) => (v % 256) as u8,
            None => return Err(FrameError::InvalidNumber),
        };
        let sp = match hex_column(frame, 71, 73) {
            Some(v) => (v % 256) as u8,
            None => return Err(FrameError::InvalidNumber),
        };
        let cycles = match dec_column_value(frame, 78, 81) {
            Some(v) => v,
            None => return Err(FrameError::InvalidNumber),
        };
        Ok(
            CPUFrame {
                instruction: instr,
                disassembly: disassembly,
                pc: pc,
                a: a,
                x: x,
                y: y,
                p: p,
                sp: sp,
                cycles: cycles,
            },
        )
    }

    /// Reads a two-digit hexadecimal byte column; a blank column reads 0.
    fn extract_word(frame: &str, start: usize) -> (r: u8)
        requires
            start <= 12,
            start + 2 <= frame@.len(),
        ensures
            r == byte_column(frame@, start as int),
    {
        match hex_column(frame, start, start + 2) {
            Some(v) => (v % 256) as u8,
            None => 0,
        }
    }
}

} // verus!
