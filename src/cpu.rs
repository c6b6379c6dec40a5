use vstd::prelude::*;

use crate::instruction::{execute_spec, fetch, wrap16, Instruction};
use crate::memory::{
    lemma_stack_round_trip_u16, lemma_stack_round_trip_u8, sp_inc, stack_pop, stack_pop_word,
    stack_push, stack_push_word, Memory, MemoryView,
};
use crate::nes::NESRuntimeOptions;
use crate::utils::is_negative;

verus! {

// Bit masks of the flags in the status register.
pub const CARRY_FLAG: u8 = 0x1;
pub const ZERO_FLAG: u8 = 0x2;
pub const INTERRUPT_DISABLE: u8 = 0x4;
pub const DECIMAL_MODE: u8 = 0x8;
pub const BREAK_COMMAND: u8 = 0x10;
pub const UNUSED_FLAG: u8 = 0x20;
pub const OVERFLOW_FLAG: u8 = 0x40;
pub const NEGATIVE_FLAG: u8 = 0x80;

/// `p` with the bits of `mask` set when `on`, cleared otherwise.
pub open spec fn with_flag(p: u8, mask: u8, on: bool) -> u8 {
    if on {
        p | mask
    } else {
        p & !mask
    }
}

/// Whether every bit of `mask` is set in `p`.
pub open spec fn flag_set(p: u8, mask: u8) -> bool {
    p & mask == mask
}

/// `p` with Z set from `v == 0` and N set from bit 7 of `v`.
pub open spec fn with_zn(p: u8, v: u8) -> u8 {
    with_flag(with_flag(p, ZERO_FLAG, v == 0), NEGATIVE_FLAG, v >= 0x80)
}

/// Why a CPU step could not run.
#[derive(Clone, Copy, Debug, PartialEq, Eq, Structural)]
pub enum CpuError {
    /// The byte at `pc` is not an official opcode.
    UnknownOpcode { pc: u16, opcode: u8 },
}

/// One fetch-decode-execute step on registers and bus: the registers, the
/// bus and the cycles of the instruction, or `None` when the byte at PC is
/// not an official opcode.
#[verifier::opaque]
pub open spec fn step_spec(r: Registers, m: MemoryView) -> Option<(Registers, MemoryView, u16)> {
    match fetch(r.pc, m).0 {
        None => None,
        Some(i) => Some(execute_spec(i, r, fetch(r.pc, m).1)),
    }
}

/// A touch of the register state never changes what a read returns.
proof fn lemma_peek_after_read(m: MemoryView, x: int, y: int)
    requires
        m.wf(),
        0 <= x <= 0xFFFF,
    ensures
        m.after_read(x).peek(y) == m.peek(y),
        m.after_read(x).wf(),
{
}

/// Popping a word reads the same bytes after a touch of the register state.
proof fn lemma_pop_word_after_read(m: MemoryView, x: int, sp: u8)
    requires
        m.wf(),
        0 <= x <= 0xFFFF,
    ensures
        stack_pop_word(m.after_read(x), sp).0 == stack_pop_word(m, sp).0,
        stack_pop_word(m.after_read(x), sp).2 == stack_pop_word(m, sp).2,
{
    let m1 = m.after_read(x);
    let (l0, ma, s0) = stack_pop(m, sp);
    let (l1, mb, s1) = stack_pop(m1, sp);
    lemma_peek_after_read(m, x, 0x100 + sp_inc(sp));
    assert(l0 == l1);
    lemma_peek_after_read(m, 0x100 + sp_inc(sp), 0x100 + sp_inc(s0));
    lemma_peek_after_read(m1, 0x100 + sp_inc(sp), 0x100 + sp_inc(s0));
    lemma_peek_after_read(m, x, 0x100 + sp_inc(s0));
}

proof fn lemma_jsr_step(r: Registers, m: MemoryView)
    requires
        m.wf(),
        m.peek(r.pc as int) == 0x20,
    ensures
        ({
            let mf = fetch(r.pc, m).1;
            let (m1, sp1) = stack_push_word(mf, r.sp, wrap16(r.pc + 2));
            &&& mf.wf()
            &&& step_spec(r, m).unwrap().1 == m1
            &&& step_spec(r, m).unwrap().0.sp == sp1
        }),
{
    reveal(step_spec);
}

proof fn lemma_rts_step(r: Registers, m: MemoryView)
    requires
        m.wf(),
        m.peek(r.pc as int) == 0x60,
    ensures
        ({
            let (v, m2, sp2) = stack_pop_word(m.after_read(r.pc as int), r.sp);
            &&& step_spec(r, m).unwrap().0.pc == wrap16(v + 1)
            &&& step_spec(r, m).unwrap().0.sp == sp2
        }),
{
    reveal(step_spec);
}

/// JSR followed at its target by RTS comes back to the instruction after
/// the JSR, with the stack pointer restored.
pub proof fn lemma_jsr_rts(r: Registers, m: MemoryView)
    requires
        m.wf(),
        m.peek(r.pc as int) == 0x20,
        ({
            let (r1, m1, c1) = step_spec(r, m).unwrap();
            m1.peek(r1.pc as int) == 0x60
        }),
    ensures
        ({
            let (r1, m1, c1) = step_spec(r, m).unwrap();
            let (r2, m2, c2) = step_spec(r1, m1).unwrap();
            r2.pc == wrap16(r.pc + 3) && r2.sp == r.sp
        }),
{
    lemma_jsr_step(r, m);
    let mf = fetch(r.pc, m).1;
    let ret = wrap16(r.pc + 2);
    let (m1, sp1) = stack_push_word(mf, r.sp, ret);
    lemma_stack_round_trip_u16(mf, r.sp, ret);
    let (r1, m1x, c1) = step_spec(r, m).unwrap();
    assert(m1.wf());
    lemma_rts_step(r1, m1);
    lemma_pop_word_after_read(m1, r1.pc as int, sp1);
}

/// PHP followed by PLP leaves P as it was with B cleared; bit 5 is kept.
pub proof fn lemma_php_plp(r: Registers, m: MemoryView)
    requires
        m.wf(),
        m.peek(r.pc as int) == 0x08,
        ({
            let (r1, m1, c1) = step_spec(r, m).unwrap();
            m1.peek(r1.pc as int) == 0x28
        }),
    ensures
        ({
            let (r1, m1, c1) = step_spec(r, m).unwrap();
            let (r2, m2, c2) = step_spec(r1, m1).unwrap();
            &&& r2.p == r.p & 0xEF
            &&& r2.p & 0x20 == r.p & 0x20
            &&& r2.p & BREAK_COMMAND == 0
            &&& r2.sp == r.sp
        }),
{
    reveal(step_spec);
    let (fi, mf) = fetch(r.pc, m);
    assert(mf.wf());
    let pushed = r.p | BREAK_COMMAND;
    let (m1, sp1) = stack_push(mf, r.sp, pushed);
    lemma_stack_round_trip_u8(mf, r.sp, pushed);
    let (r1, m1x, c1) = step_spec(r, m).unwrap();
    assert(m1x == m1);
    assert(m1.wf());
    lemma_peek_after_read(m1, r1.pc as int, 0x100 + sp_inc(sp1));
    let p = r.p;
    assert((((p | 0x10) & 0xCF) | (p & 0x20)) == p & 0xEF) by (bit_vector);
    assert((p & 0xEF) & 0x20 == p & 0x20) by (bit_vector);
    assert((p & 0xEF) & 0x10 == 0) by (bit_vector);
}

/// PPU dot counter after an instruction of `cycles` cycles: three dots per
/// cycle, 341 dots per scanline.
pub open spec fn next_ppu_dots(dots: u16, cycles: u16) -> u16 {
    ((dots + 3 * cycles) % 341) as u16
}

/// The programmer-visible registers of the 6502.
#[derive(Clone, Copy, Debug, PartialEq, Eq, Structural)]
pub struct Registers {
    pub pc: u16,
    pub sp: u8,
    pub a: u8,
    pub x: u8,
    pub y: u8,
    pub p: u8,
}

/// The 2A03, the 6502 variant of the NES (no decimal arithmetic).
pub struct CPU {
    /// Address of the next instruction.
    pub pc: u16,
    /// Next free slot of the stack at `$0100 + sp`; the stack grows down.
    pub sp: u8,
    /// Accumulator.
    pub a: u8,
    /// Index register X.
    pub x: u8,
    /// Index register Y.
    pub y: u8,
    /// Status register: C Z I D B - V N from bit 0 to bit 7.
    pub p: u8,
    /// Cycles of the instruction being executed.
    pub cycles: u16,
    /// PPU dot counter shown in trace lines, kept modulo 341.
    pub ppu_dots: u16,
    pub runtime_options: NESRuntimeOptions,
}

impl CPU {
    pub open spec fn regs(&self) -> Registers {
        Registers { pc: self.pc, sp: self.sp, a: self.a, x: self.x, y: self.y, p: self.p }
    }

    /// The same CPU with its registers replaced.
    pub open spec fn with_regs(self, r: Registers) -> CPU {
        CPU { pc: r.pc, sp: r.sp, a: r.a, x: r.x, y: r.y, p: r.p, ..self }
    }

    /// The same CPU with another status register.
    pub open spec fn with_p(self, p: u8) -> CPU {
        CPU { p: p, ..self }
    }

    pub fn new(runtime_options: NESRuntimeOptions, pc: u16) -> (r: CPU)
        ensures
            r.regs() == (Registers { pc: pc, sp: 0xFD, a: 0, x: 0, y: 0, p: 0x24 }),
            r.cycles == 0,
            r.ppu_dots == 0,
    {
        CPU {
            pc: pc,
            sp: 0xFD,
            a: 0,
            x: 0,
            y: 0,
            p: 0x24,
            cycles: 0,
            ppu_dots: 0,
            runtime_options: runtime_options,
        }
    }

    pub fn get_regs(&self) -> (r: Registers)
        ensures
            r == self.regs(),
    {
        Registers { pc: self.pc, sp: self.sp, a: self.a, x: self.x, y: self.y, p: self.p }
    }

    pub fn set_regs(&mut self, r: Registers)
        ensures
            *final(self) == old(self).with_regs(r),
    {
        self.pc = r.pc;
        self.sp = r.sp;
        self.a = r.a;
        self.x = r.x;
        self.y = r.y;
        self.p = r.p;
    }

    /// Sets the carry flag.
    pub fn set_carry_flag(&mut self)
        ensures
            *final(self) == old(self).with_p(old(self).p | CARRY_FLAG),
    {
        self.p = self.p | CARRY_FLAG;
    }

    /// Sets the zero flag.
    pub fn set_zero_flag(&mut self)
        ensures
            *final(self) == old(self).with_p(old(self).p | ZERO_FLAG),
    {
        self.p = self.p | ZERO_FLAG;
    }

    /// Sets the interrupt disable flag.
    pub fn set_interrupt_disable(&mut self)
        ensures
            *final(self) == old(self).with_p(old(self).p | INTERRUPT_DISABLE),
    {
        self.p = self.p | INTERRUPT_DISABLE;
    }

    /// Sets the decimal mode flag (it has no effect on the 2A03).
    pub fn set_decimal_mode(&mut self)
        ensures
            *final(self) == old(self).with_p(old(self).p | DECIMAL_MODE),
    {
        self.p = self.p | DECIMAL_MODE;
    }

    /// Sets the break command flag.
    pub fn set_break_command(&mut self)
        ensures
            *final(self) == old(self).with_p(old(self).p | BREAK_COMMAND),
    {
        self.p = self.p | BREAK_COMMAND;
    }

    /// Sets the overflow flag.
    pub fn set_overflow_flag(&mut self)
        ensures
            *final(self) == old(self).with_p(old(self).p | OVERFLOW_FLAG),
    {
        self.p = self.p | OVERFLOW_FLAG;
    }

    /// Sets the negative flag.
    pub fn set_negative_flag(&mut self)
        ensures
            *final(self) == old(self).with_p(old(self).p | NEGATIVE_FLAG),
    {
        self.p = self.p | NEGATIVE_FLAG;
    }

    /// Clears the carry flag.
    pub fn unset_carry_flag(&mut self)
        ensures
            *final(self) == old(self).with_p(old(self).p & !CARRY_FLAG),
    {
        self.p = self.p & !CARRY_FLAG;
    }

    /// Clears the zero flag.
    pub fn unset_zero_flag(&mut self)
        ensures
            *final(self) == old(self).with_p(old(self).p & !ZERO_FLAG),
    {
        self.p = self.p & !ZERO_FLAG;
    }

    /// Clears the interrupt disable flag.
    pub fn unset_interrupt_disable(&mut self)
        ensures
            *final(self) == old(self).with_p(old(self).p & !INTERRUPT_DISABLE),
    {
        self.p = self.p & !INTERRUPT_DISABLE;
    }

    /// Clears the decimal mode flag.
    pub fn unset_decimal_mode(&mut self)
        ensures
            *final(self) == old(self).with_p(old(self).p & !DECIMAL_MODE),
    {
        self.p = self.p & !DECIMAL_MODE;
    }

    /// Clears the break command flag.
    pub fn unset_break_command(&mut self)
        ensures
            *final(self) == old(self).with_p(old(self).p & !BREAK_COMMAND),
    {
        self.p = self.p & !BREAK_COMMAND;
    }

    /// Clears the overflow flag.
    pub fn unset_overflow_flag(&mut self)
        ensures
            *final(self) == old(self).with_p(old(self).p & !OVERFLOW_FLAG),
    {
        self.p = self.p & !OVERFLOW_FLAG;
    }

    /// Clears the negative flag.
    pub fn unset_negative_flag(&mut self)
        ensures
            *final(self) == old(self).with_p(old(self).p & !NEGATIVE_FLAG),
    {
        self.p = self.p & !NEGATIVE_FLAG;
    }

    /// Whether the carry flag is set.
    pub fn carry_flag_set(&self) -> (r: bool)
        ensures
            r == flag_set(self.p, CARRY_FLAG),
    {
        self.p & CARRY_FLAG == CARRY_FLAG
    }

    /// Whether the zero flag is set.
    pub fn zero_flag_set(&self) -> (r: bool)
        ensures
            r == flag_set(self.p, ZERO_FLAG),
    {
        self.p & ZERO_FLAG == ZERO_FLAG
    }

    /// Whether the interrupt disable flag is set.
    pub fn interrupt_disable_set(&self) -> (r: bool)
        ensures
            r == flag_set(self.p, INTERRUPT_DISABLE),
    {
        self.p & INTERRUPT_DISABLE == INTERRUPT_DISABLE
    }

    /// Whether the decimal mode flag is set.
    pub fn decimal_mode_set(&self) -> (r: bool)
        ensures
            r == flag_set(self.p, DECIMAL_MODE),
    {
        self.p & DECIMAL_MODE == DECIMAL_MODE
    }

    /// Whether the break command flag is set.
    pub fn break_command_set(&self) -> (r: bool)
        ensures
            r == flag_set(self.p, BREAK_COMMAND),
    {
        self.p & BREAK_COMMAND == BREAK_COMMAND
    }

    /// Whether the overflow flag is set.
    pub fn overflow_flag_set(&self) -> (r: bool)
        ensures
            r == flag_set(self.p, OVERFLOW_FLAG),
    {
        self.p & OVERFLOW_FLAG == OVERFLOW_FLAG
    }

    /// Whether the negative flag is set.
    pub fn negative_flag_set(&self) -> (r: bool)
        ensures
            r == flag_set(self.p, NEGATIVE_FLAG),
    {
        self.p & NEGATIVE_FLAG == NEGATIVE_FLAG
    }

    /// Sets the carry flag when `overflow` holds and clears it otherwise.
    pub fn toggle_carry_flag(&mut self, overflow: bool)
        ensures
            *final(self) == old(self).with_p(with_flag(old(self).p, CARRY_FLAG, overflow)),
    {
        if overflow {
            self.set_carry_flag();
        } else {
            self.unset_carry_flag();
        }
    }

    /// Sets the zero flag when `value` is zero and clears it otherwise.
    pub fn toggle_zero_flag(&mut self, value: u8)
        ensures
            *final(self) == old(self).with_p(with_flag(old(self).p, ZERO_FLAG, value == 0)),
    {
        if value == 0 {
            self.set_zero_flag();
        } else {
            self.unset_zero_flag();
        }
    }

    /// Sets the negative flag from bit 7 of `value`.
    pub fn toggle_negative_flag(&mut self, value: u8)
        ensures
            *final(self) == old(self).with_p(
                with_flag(old(self).p, NEGATIVE_FLAG, value >= 0x80),
            ),
    {
        if is_negative(value) {
            self.set_negative_flag();
        } else {
            self.unset_negative_flag();
        }
    }
    /// Fetches, decodes and executes the instruction at PC. Returns the
    /// cycles it took; the cycle counter is then reset and the PPU dot
    /// counter advanced by three dots per cycle. An unknown opcode leaves the
    /// registers alone and is reported.
    pub fn execute(&mut self, memory: &mut Memory) -> (r: Result<u16, CpuError>)
        requires
            old(memory).wf(),
            old(self).cycles <= 0xFF00,
        ensures
            final(memory).wf(),
            match fetch(old(self).pc, old(memory)@) {
                (None, m1) => {
                    &&& r == Err::<u16, CpuError>(
                        CpuError::UnknownOpcode {
                            pc: old(self).pc,
                            opcode: old(memory)@.peek(old(self).pc as int),
                        },
                    )
                    &&& final(memory)@ == m1
                    &&& *final(self) == *old(self)
                },
                (Some(i), m1) => {
                    let (regs, m2, c) = execute_spec(i, old(self).regs(), m1);
                    &&& r == Ok::<u16, CpuError>((old(self).cycles + c) as u16)
                    &&& final(memory)@ == m2
                    &&& *final(self) == (CPU {
                        cycles: 0,
                        ppu_dots: next_ppu_dots(old(self).ppu_dots, (old(self).cycles + c) as u16),
                        ..old(self).with_regs(regs)
                    })
                },
            },
    {
        let opcode_addr = self.pc as usize;
        match Instruction::parse(opcode_addr, memory) {
            None => {
                let opcode = memory.read_u8_unrestricted(opcode_addr);
                Err(CpuError::UnknownOpcode { pc: self.pc, opcode: opcode })
            },
            Some(instr) => {
                instr.execute(self, memory);
                let cycles = self.cycles;
                self.ppu_dots = ((self.ppu_dots as u32 + 3 * cycles as u32) % 341) as u16;
                self.cycles = 0;
                Ok(cycles)
            },
        }
    }
}

} // verus!
