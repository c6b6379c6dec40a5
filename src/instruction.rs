use vstd::prelude::*;

use crate::cpu::{
    flag_set, with_flag, with_zn, Registers, BREAK_COMMAND, CARRY_FLAG, CPU, DECIMAL_MODE,
    INTERRUPT_DISABLE, NEGATIVE_FLAG, OVERFLOW_FLAG, ZERO_FLAG,
};
use crate::memory::{
    read_wrapped, wrapped_msb_addr, stack_pop, stack_pop_word, stack_push, stack_push_word, word, word_from_bytes, Memory,
    MemoryView,
};
use crate::opcode::{
    base_cycles, decode_opcode, has_page_penalty, is_branch, is_branch_op, is_modify_op,
    is_read_op, is_store_op, lookup_opcode, mode_len, modifies_operand, opcode_len, opcode_table,
    page_penalty, reads_operand, spec_base_cycles, stores_register, AddressingMode, Mnemonic,
    Opcode,
};
use crate::utils::{add_relative, page_cross, signed_of, spec_page_cross, PageCross};

verus! {

/// An instruction as fetched: the opcode byte and up to two argument bytes.
/// Argument bytes past the opcode's length are zero.
#[derive(Clone, Copy, Debug, PartialEq, Eq, Structural)]
pub struct Instruction(pub u8, pub u8, pub u8);

/// Where an instruction finds its operand.
#[derive(Clone, Copy, Debug, PartialEq, Eq, Structural)]
pub enum Operand {
    Implied,
    Accumulator,
    Value(u8),
    Address(u16, PageCross),
}

/// `base + offset` wrapped into the 16-bit address space.
pub open spec fn wrap16(v: int) -> u16 {
    (v % 0x10000) as u16
}

/// `base + offset` wrapped into the zero page.
pub open spec fn wrap8(v: int) -> u8 {
    (v % 0x100) as u8
}

impl Instruction {
    /// The two argument bytes read as a little-endian word.
    pub open spec fn spec_arg_u16(self) -> u16 {
        word(self.1, self.2)
    }
}

/// Bytes of an instruction that a fetch at `pc` yields, with the bus after
/// the reads; `None` when the opcode byte is not an official opcode.
pub open spec fn fetch(pc: u16, m: MemoryView) -> (Option<Instruction>, MemoryView) {
    let op = m.peek(pc as int);
    let m1 = m.after_read(pc as int);
    match opcode_table(op) {
        None => (None, m1),
        Some(o) => {
            let a1 = wrap16(pc + 1);
            let a2 = wrap16(pc + 2);
            if mode_len(o.mode) == 1 {
                (Some(Instruction(op, 0, 0)), m1)
            } else if mode_len(o.mode) == 2 {
                (Some(Instruction(op, m1.peek(a1 as int), 0)), m1.after_read(a1 as int))
            } else {
                let m2 = m1.after_read(a1 as int);
                (
                    Some(Instruction(op, m1.peek(a1 as int), m2.peek(a2 as int))),
                    m2.after_read(a2 as int),
                )
            }
        },
    }
}

/// The operand of an instruction in a given mode, and the bus after any
/// pointer reads.
pub open spec fn resolve(mode: AddressingMode, i: Instruction, r: Registers, m: MemoryView) -> (
    Operand,
    MemoryView,
) {
    match mode {
        AddressingMode::Implied => (Operand::Implied, m),
        AddressingMode::Accumulator => (Operand::Accumulator, m),
        AddressingMode::Immediate | AddressingMode::Relative => (Operand::Value(i.1), m),
        AddressingMode::ZeroPage => (Operand::Address(i.1 as u16, PageCross::Same), m),
        AddressingMode::ZeroPageX => (
            Operand::Address(wrap8(i.1 + r.x) as u16, PageCross::Same),
            m,
        ),
        AddressingMode::ZeroPageY => (
            Operand::Address(wrap8(i.1 + r.y) as u16, PageCross::Same),
            m,
        ),
        AddressingMode::Absolute => (Operand::Address(i.spec_arg_u16(), PageCross::Same), m),
        AddressingMode::AbsoluteX => {
            let a = wrap16(i.spec_arg_u16() + r.x);
            (Operand::Address(a, spec_page_cross(i.spec_arg_u16() as int, a as int)), m)
        },
        AddressingMode::AbsoluteY => {
            let a = wrap16(i.spec_arg_u16() + r.y);
            (Operand::Address(a, spec_page_cross(i.spec_arg_u16() as int, a as int)), m)
        },
        AddressingMode::Indirect => {
            let (t, m1) = read_wrapped(m, i.spec_arg_u16() as int);
            (Operand::Address(t, PageCross::Same), m1)
        },
        AddressingMode::IndexedIndirect => {
            let (t, m1) = read_wrapped(m, wrap8(i.1 + r.x) as int);
            (Operand::Address(t, PageCross::Same), m1)
        },
        AddressingMode::IndirectIndexed => {
            let (b, m1) = read_wrapped(m, i.1 as int);
            let a = wrap16(b + r.y);
            (Operand::Address(a, spec_page_cross(b as int, a as int)), m1)
        },
    }
}

/// Whether the operand's address was reached across a page boundary.
pub open spec fn crossed(op: Operand) -> bool {
    match op {
        Operand::Address(_, c) => c != PageCross::Same,
        _ => false,
    }
}

/// The byte an operand designates, and the bus after reading it.
pub open spec fn load(op: Operand, r: Registers, m: MemoryView) -> (u8, MemoryView) {
    match op {
        Operand::Value(v) => (v, m),
        Operand::Address(a, _) => (m.peek(a as int), m.after_read(a as int)),
        _ => (r.a, m),
    }
}

/// Whether the carry flag is set, as 0 or 1.
pub open spec fn carry_in(p: u8) -> int {
    if flag_set(p, CARRY_FLAG) {
        1
    } else {
        0
    }
}

/// ADC: `A + M + C`, with C from the unsigned carry out and V set when A and
/// M have the same sign and the result has the other one.
pub open spec fn spec_adc(r: Registers, v: u8) -> Registers {
    let sum = r.a + v + carry_in(r.p);
    let result = (sum % 256) as u8;
    let overflow = (r.a >= 0x80) == (v >= 0x80) && (result >= 0x80) != (r.a >= 0x80);
    Registers {
        a: result,
        p: with_zn(
            with_flag(with_flag(r.p, CARRY_FLAG, sum > 0xFF), OVERFLOW_FLAG, overflow),
            result,
        ),
        ..r
    }
}

/// SBC: `A - M - (1 - C)`, with C set when nothing was borrowed and V set
/// when A and M differ in sign and the result's sign differs from A's.
pub open spec fn spec_sbc(r: Registers, v: u8) -> Registers {
    let diff = r.a - v - (1 - carry_in(r.p));
    let result = ((diff + 256) % 256) as u8;
    let overflow = (r.a >= 0x80) != (v >= 0x80) && (result >= 0x80) != (r.a >= 0x80);
    Registers {
        a: result,
        p: with_zn(
            with_flag(with_flag(r.p, CARRY_FLAG, diff >= 0), OVERFLOW_FLAG, overflow),
            result,
        ),
        ..r
    }
}

/// Flags after comparing a register with a byte: C when `reg >= v`, Z and N
/// from `reg - v`.
pub open spec fn spec_compare(p: u8, reg: u8, v: u8) -> u8 {
    with_zn(with_flag(p, CARRY_FLAG, reg >= v), ((reg - v + 256) % 256) as u8)
}

/// BIT: Z from `A & M`; bits 7 and 6 of M copied into N and V.
pub open spec fn spec_bit(p: u8, a: u8, v: u8) -> u8 {
    (with_flag(p, ZERO_FLAG, a & v == 0) & 0x3F) | (v & 0xC0)
}

/// Registers after a read instruction whose operand is `v`.
pub open spec fn apply_read(mn: Mnemonic, r: Registers, v: u8) -> Registers {
    match mn {
        Mnemonic::Lda => Registers { a: v, p: with_zn(r.p, v), ..r },
        Mnemonic::Ldx => Registers { x: v, p: with_zn(r.p, v), ..r },
        Mnemonic::Ldy => Registers { y: v, p: with_zn(r.p, v), ..r },
        Mnemonic::And => Registers { a: r.a & v, p: with_zn(r.p, r.a & v), ..r },
        Mnemonic::Ora => Registers { a: r.a | v, p: with_zn(r.p, r.a | v), ..r },
        Mnemonic::Eor => Registers { a: r.a ^ v, p: with_zn(r.p, r.a ^ v), ..r },
        Mnemonic::Adc => spec_adc(r, v),
        Mnemonic::Sbc => spec_sbc(r, v),
        Mnemonic::Cmp => Registers { p: spec_compare(r.p, r.a, v), ..r },
        Mnemonic::Cpx => Registers { p: spec_compare(r.p, r.x, v), ..r },
        Mnemonic::Cpy => Registers { p: spec_compare(r.p, r.y, v), ..r },
        Mnemonic::Bit => Registers { p: spec_bit(r.p, r.a, v), ..r },
        _ => r,
    }
}

/// Register a store instruction writes.
pub open spec fn store_value(mn: Mnemonic, r: Registers) -> u8 {
    match mn {
        Mnemonic::Stx => r.x,
        Mnemonic::Sty => r.y,
        _ => r.a,
    }
}

/// Result byte and status register of a read-modify-write instruction on `v`.
pub open spec fn modify_value(mn: Mnemonic, p: u8, v: u8) -> (u8, u8) {
    let (result, carry) = match mn {
        Mnemonic::Asl => (((v * 2) % 256) as u8, Some(v >= 0x80)),
        Mnemonic::Lsr => ((v / 2) as u8, Some(v % 2 == 1)),
        Mnemonic::Rol => ((((v * 2) % 256) + carry_in(p)) as u8, Some(v >= 0x80)),
        Mnemonic::Ror => ((v / 2 + 128 * carry_in(p)) as u8, Some(v % 2 == 1)),
        Mnemonic::Inc => (((v + 1) % 256) as u8, None),
        _ => (((v + 255) % 256) as u8, None),
    };
    let p1 = match carry {
        Some(c) => with_flag(p, CARRY_FLAG, c),
        None => p,
    };
    (result, with_zn(p1, result))
}

/// Registers after an instruction that only works on registers.
pub open spec fn apply_implied(mn: Mnemonic, r: Registers) -> Registers {
    match mn {
        Mnemonic::Tax => Registers { x: r.a, p: with_zn(r.p, r.a), ..r },
        Mnemonic::Tay => Registers { y: r.a, p: with_zn(r.p, r.a), ..r },
        Mnemonic::Tsx => Registers { x: r.sp, p: with_zn(r.p, r.sp), ..r },
        Mnemonic::Txa => Registers { a: r.x, p: with_zn(r.p, r.x), ..r },
        Mnemonic::Txs => Registers { sp: r.x, ..r },
        Mnemonic::Tya => Registers { a: r.y, p: with_zn(r.p, r.y), ..r },
        Mnemonic::Inx => Registers {
            x: wrap8(r.x + 1),
            p: with_zn(r.p, wrap8(r.x + 1)),
            ..r
        },
        Mnemonic::Iny => Registers {
            y: wrap8(r.y + 1),
            p: with_zn(r.p, wrap8(r.y + 1)),
            ..r
        },
        Mnemonic::Dex => Registers {
            x: wrap8(r.x + 255),
            p: with_zn(r.p, wrap8(r.x + 255)),
            ..r
        },
        Mnemonic::Dey => Registers {
            y: wrap8(r.y + 255),
            p: with_zn(r.p, wrap8(r.y + 255)),
            ..r
        },
        Mnemonic::Clc => Registers { p: with_flag(r.p, CARRY_FLAG, false), ..r },
        Mnemonic::Cld => Registers { p: with_flag(r.p, DECIMAL_MODE, false), ..r },
        Mnemonic::Cli => Registers { p: with_flag(r.p, INTERRUPT_DISABLE, false), ..r },
        Mnemonic::Clv => Registers { p: with_flag(r.p, OVERFLOW_FLAG, false), ..r },
        Mnemonic::Sec => Registers { p: with_flag(r.p, CARRY_FLAG, true), ..r },
        Mnemonic::Sed => Registers { p: with_flag(r.p, DECIMAL_MODE, true), ..r },
        Mnemonic::Sei => Registers { p: with_flag(r.p, INTERRUPT_DISABLE, true), ..r },
        _ => r,
    }
}

/// Whether a branch is taken under the status register `p`.
pub open spec fn branch_taken(mn: Mnemonic, p: u8) -> bool {
    match mn {
        Mnemonic::Bcc => !flag_set(p, CARRY_FLAG),
        Mnemonic::Bcs => flag_set(p, CARRY_FLAG),
        Mnemonic::Bne => !flag_set(p, ZERO_FLAG),
        Mnemonic::Beq => flag_set(p, ZERO_FLAG),
        Mnemonic::Bpl => !flag_set(p, NEGATIVE_FLAG),
        Mnemonic::Bmi => flag_set(p, NEGATIVE_FLAG),
        Mnemonic::Bvc => !flag_set(p, OVERFLOW_FLAG),
        _ => flag_set(p, OVERFLOW_FLAG),
    }
}

/// Status register pulled from the stack: B cleared, bit 5 kept from the
/// current status.
pub open spec fn pulled_status(current: u8, pulled: u8) -> u8 {
    (pulled & 0xCF) | (current & 0x20)
}

/// Registers with the program counter moved past the instruction.
pub open spec fn advance(o: Opcode, r: Registers) -> Registers {
    Registers { pc: wrap16(r.pc + mode_len(o.mode)), ..r }
}

/// Effect of a read instruction: registers, bus, cycles.
pub open spec fn read_effect(o: Opcode, operand: Operand, r: Registers, m: MemoryView) -> (
    Registers,
    MemoryView,
    u16,
) {
    let (v, m2) = load(operand, r, m);
    let penalty: int = if has_page_penalty(o) && crossed(operand) {
        1
    } else {
        0
    };
    (apply_read(o.mnemonic, advance(o, r), v), m2, (spec_base_cycles(o) + penalty) as u16)
}

/// Effect of a store instruction.
pub open spec fn store_effect(o: Opcode, operand: Operand, r: Registers, m: MemoryView) -> (
    Registers,
    MemoryView,
    u16,
) {
    match operand {
        Operand::Address(a, _) => (
            advance(o, r),
            m.store(a as int, store_value(o.mnemonic, r)),
            spec_base_cycles(o),
        ),
        _ => (advance(o, r), m, spec_base_cycles(o)),
    }
}

/// Effect of a read-modify-write instruction, on memory or on A.
pub open spec fn modify_effect(o: Opcode, operand: Operand, r: Registers, m: MemoryView) -> (
    Registers,
    MemoryView,
    u16,
) {
    match operand {
        Operand::Address(a, _) => {
            let (res, p) = modify_value(o.mnemonic, r.p, m.peek(a as int));
            (
                Registers { p: p, ..advance(o, r) },
                m.after_read(a as int).store(a as int, res),
                spec_base_cycles(o),
            )
        },
        _ => {
            let (res, p) = modify_value(o.mnemonic, r.p, r.a);
            (Registers { a: res, p: p, ..advance(o, r) }, m, spec_base_cycles(o))
        },
    }
}

/// Target of a taken branch: the displacement is signed and counts from
/// the instruction that follows the branch.
pub open spec fn branch_target(next_pc: u16, displacement: u8) -> u16 {
    wrap16(next_pc + signed_of(displacement) + 0x10000)
}

/// Effect of a branch: 2 cycles, one more when taken, two more again when
/// the target is on another page than the next instruction.
pub open spec fn branch_effect(o: Opcode, i: Instruction, r: Registers) -> (Registers, u16) {
    let next = advance(o, r);
    if branch_taken(o.mnemonic, r.p) {
        let target = branch_target(next.pc, i.1);
        let extra: int = if spec_page_cross(next.pc as int, target as int) != PageCross::Same {
            3
        } else {
            1
        };
        (Registers { pc: target, ..r }, (spec_base_cycles(o) + extra) as u16)
    } else {
        (next, spec_base_cycles(o))
    }
}

/// Effect of the stack, jump and interrupt instructions.
pub open spec fn control_effect(
    o: Opcode,
    i: Instruction,
    operand: Operand,
    r: Registers,
    m: MemoryView,
) -> (Registers, MemoryView) {
    let next = advance(o, r);
    match o.mnemonic {
        Mnemonic::Pha => {
            let (m2, sp) = stack_push(m, r.sp, r.a);
            (Registers { sp: sp, ..next }, m2)
        },
        Mnemonic::Php => {
            let (m2, sp) = stack_push(m, r.sp, r.p | BREAK_COMMAND);
            (Registers { sp: sp, ..next }, m2)
        },
        Mnemonic::Pla => {
            let (v, m2, sp) = stack_pop(m, r.sp);
            (Registers { sp: sp, a: v, p: with_zn(r.p, v), ..next }, m2)
        },
        Mnemonic::Plp => {
            let (v, m2, sp) = stack_pop(m, r.sp);
            (Registers { sp: sp, p: pulled_status(r.p, v), ..next }, m2)
        },
        Mnemonic::Jmp => match operand {
            Operand::Address(a, _) => (Registers { pc: a, ..r }, m),
            _ => (next, m),
        },
        Mnemonic::Jsr => {
            let (m2, sp) = stack_push_word(m, r.sp, wrap16(r.pc + 2));
            (Registers { pc: i.spec_arg_u16(), sp: sp, ..r }, m2)
        },
        Mnemonic::Rts => {
            let (v, m2, sp) = stack_pop_word(m, r.sp);
            (Registers { pc: wrap16(v + 1), sp: sp, ..r }, m2)
        },
        Mnemonic::Rti => {
            let (v, m2, sp) = stack_pop(m, r.sp);
            let (pc, m3, sp2) = stack_pop_word(m2, sp);
            (Registers { pc: pc, sp: sp2, p: pulled_status(r.p, v), ..r }, m3)
        },
        Mnemonic::Brk => {
            let (m2, sp) = stack_push_word(m, r.sp, wrap16(r.pc + 2));
            let (m3, sp2) = stack_push(m2, sp, r.p | BREAK_COMMAND);
            let lo = m3.peek(0xFFFE);
            let m4 = m3.after_read(0xFFFE);
            let hi = m4.peek(0xFFFF);
            (
                Registers { pc: word(lo, hi), sp: sp2, p: r.p | BREAK_COMMAND, ..r },
                m4.after_read(0xFFFF),
            )
        },
        _ => (apply_implied(o.mnemonic, next), m),
    }
}

/// Effect of one instruction: registers, bus, and the cycles it took.
pub open spec fn execute_spec(i: Instruction, r: Registers, m: MemoryView) -> (
    Registers,
    MemoryView,
    u16,
) {
    let o = opcode_table(i.0).unwrap();
    let (operand, m1) = resolve(o.mode, i, r, m);
    if is_read_op(o.mnemonic) {
        read_effect(o, operand, r, m1)
    } else if is_store_op(o.mnemonic) {
        store_effect(o, operand, r, m1)
    } else if is_modify_op(o.mnemonic) {
        modify_effect(o, operand, r, m1)
    } else if is_branch_op(o.mnemonic) {
        let (r2, c) = branch_effect(o, i, r);
        (r2, m1, c)
    } else {
        let (r2, m2) = control_effect(o, i, operand, r, m1);
        (r2, m2, spec_base_cycles(o))
    }
}

/// Every instruction takes at least two cycles.
pub proof fn lemma_cycles_positive(i: Instruction, r: Registers, m: MemoryView)
    requires
        opcode_table(i.0).is_some(),
    ensures
        execute_spec(i, r, m).2 >= 2,
{
    let o = opcode_table(i.0).unwrap();
    assert(spec_base_cycles(o) >= 2);
}

/// Z and N after an update from `v`: Z is set exactly when `v` is zero and N
/// exactly when bit 7 of `v` is set; the other bits of P are kept.
pub proof fn lemma_zn_flags(p: u8, v: u8)
    ensures
        flag_set(with_zn(p, v), ZERO_FLAG) == (v == 0),
        flag_set(with_zn(p, v), NEGATIVE_FLAG) == (v & 0x80 != 0),
        with_zn(p, v) & 0x7D == p & 0x7D,
{
    let z = v == 0;
    let n = v >= 0x80;
    assert((v & 0x80 != 0) == (v >= 0x80)) by (bit_vector);
    let p1 = with_flag(p, ZERO_FLAG, z);
    assert(((p | 2) & 2 == 2) && ((p & !2u8) & 2 != 2) && (p | 2) & 0x7D == p & 0x7D
        && (p & !2u8) & 0x7D == p & 0x7D) by (bit_vector);
    assert(((p1 | 0x80) & 0x80 == 0x80) && ((p1 & !0x80u8) & 0x80 != 0x80) && ((p1 | 0x80) & 2
        == p1 & 2) && ((p1 & !0x80u8) & 2 == p1 & 2) && (p1 | 0x80) & 0x7D == p1 & 0x7D && (p1
        & !0x80u8) & 0x7D == p1 & 0x7D) by (bit_vector);
}

/// Every instruction that loads, combines, adds or subtracts into a
/// register sets Z and N from the byte it leaves there.
pub proof fn lemma_read_flags(mn: Mnemonic, r: Registers, v: u8)
    requires
        mn == Mnemonic::Lda || mn == Mnemonic::Ldx || mn == Mnemonic::Ldy || mn == Mnemonic::And
            || mn == Mnemonic::Ora || mn == Mnemonic::Eor || mn == Mnemonic::Adc || mn
            == Mnemonic::Sbc,
    ensures
        ({
            let r2 = apply_read(mn, r, v);
            let result = if mn == Mnemonic::Ldx {
                r2.x
            } else if mn == Mnemonic::Ldy {
                r2.y
            } else {
                r2.a
            };
            &&& flag_set(r2.p, ZERO_FLAG) == (result == 0)
            &&& flag_set(r2.p, NEGATIVE_FLAG) == (result & 0x80 != 0)
        }),
{
    let r2 = apply_read(mn, r, v);
    match mn {
        Mnemonic::Lda | Mnemonic::Ldx | Mnemonic::Ldy => lemma_zn_flags(r.p, v),
        Mnemonic::And => lemma_zn_flags(r.p, r.a & v),
        Mnemonic::Ora => lemma_zn_flags(r.p, r.a | v),
        Mnemonic::Eor => lemma_zn_flags(r.p, r.a ^ v),
        Mnemonic::Adc => {
            let sum = r.a + v + carry_in(r.p);
            let result = (sum % 256) as u8;
            let overflow = (r.a >= 0x80) == (v >= 0x80) && (result >= 0x80) != (r.a >= 0x80);
            lemma_zn_flags(
                with_flag(with_flag(r.p, CARRY_FLAG, sum > 0xFF), OVERFLOW_FLAG, overflow),
                result,
            );
        },
        _ => {
            let diff = r.a - v - (1 - carry_in(r.p));
            let result = ((diff + 256) % 256) as u8;
            let overflow = (r.a >= 0x80) != (v >= 0x80) && (result >= 0x80) != (r.a >= 0x80);
            lemma_zn_flags(
                with_flag(with_flag(r.p, CARRY_FLAG, diff >= 0), OVERFLOW_FLAG, overflow),
                result,
            );
        },
    }
}

/// Transfers, and increments and decrements of X and Y, set Z and N from the
/// byte they leave in the destination register.
pub proof fn lemma_implied_flags(mn: Mnemonic, r: Registers)
    requires
        mn == Mnemonic::Tax || mn == Mnemonic::Tay || mn == Mnemonic::Txa || mn == Mnemonic::Tya
            || mn == Mnemonic::Tsx || mn == Mnemonic::Inx || mn == Mnemonic::Iny || mn
            == Mnemonic::Dex || mn == Mnemonic::Dey,
    ensures
        ({
            let r2 = apply_implied(mn, r);
            let result = match mn {
                Mnemonic::Tax | Mnemonic::Tsx | Mnemonic::Inx | Mnemonic::Dex => r2.x,
                Mnemonic::Tay | Mnemonic::Iny | Mnemonic::Dey => r2.y,
                _ => r2.a,
            };
            &&& flag_set(r2.p, ZERO_FLAG) == (result == 0)
            &&& flag_set(r2.p, NEGATIVE_FLAG) == (result & 0x80 != 0)
        }),
{
    let r2 = apply_implied(mn, r);
    match mn {
        Mnemonic::Tax | Mnemonic::Tay => lemma_zn_flags(r.p, r.a),
        Mnemonic::Txa => lemma_zn_flags(r.p, r.x),
        Mnemonic::Tya => lemma_zn_flags(r.p, r.y),
        Mnemonic::Tsx => lemma_zn_flags(r.p, r.sp),
        Mnemonic::Inx => lemma_zn_flags(r.p, wrap8(r.x + 1)),
        Mnemonic::Iny => lemma_zn_flags(r.p, wrap8(r.y + 1)),
        Mnemonic::Dex => lemma_zn_flags(r.p, wrap8(r.x + 255)),
        _ => lemma_zn_flags(r.p, wrap8(r.y + 255)),
    }
}

/// CMP, CPX and CPY set Z and N from `(R - M) mod 256`, and C when `R >= M`.
pub proof fn lemma_compare_flags(p: u8, reg: u8, v: u8)
    ensures
        ({
            let result = ((reg - v + 256) % 256) as u8;
            let q = spec_compare(p, reg, v);
            &&& flag_set(q, ZERO_FLAG) == (result == 0)
            &&& flag_set(q, NEGATIVE_FLAG) == (result & 0x80 != 0)
            &&& result == 0 <==> reg == v
        }),
{
    lemma_zn_flags(with_flag(p, CARRY_FLAG, reg >= v), ((reg - v + 256) % 256) as u8);
}

/// PLA sets Z and N from the byte it pulls into A.
pub proof fn lemma_pull_flags(i: Instruction, r: Registers, m: MemoryView)
    requires
        i.0 == 0x68,
    ensures
        ({
            let a = execute_spec(i, r, m).0.a;
            let p = execute_spec(i, r, m).0.p;
            &&& flag_set(p, ZERO_FLAG) == (a == 0)
            &&& flag_set(p, NEGATIVE_FLAG) == (a & 0x80 != 0)
        }),
{
    let (v, m2, sp) = stack_pop(m, r.sp);
    lemma_zn_flags(r.p, v);
}

/// Shifts, rotates, increments and decrements set Z and N from the byte
/// they produce.
pub proof fn lemma_modify_flags(mn: Mnemonic, p: u8, v: u8)
    ensures
        ({
            let (result, p2) = modify_value(mn, p, v);
            &&& flag_set(p2, ZERO_FLAG) == (result == 0)
            &&& flag_set(p2, NEGATIVE_FLAG) == (result & 0x80 != 0)
        }),
{
    let (result, p2) = modify_value(mn, p, v);
    match mn {
        Mnemonic::Asl | Mnemonic::Rol => lemma_zn_flags(with_flag(p, CARRY_FLAG, v >= 0x80), result),
        Mnemonic::Lsr | Mnemonic::Ror => lemma_zn_flags(
            with_flag(p, CARRY_FLAG, v % 2 == 1),
            result,
        ),
        _ => lemma_zn_flags(p, result),
    }
}

/// SBC subtracts the operand and one more when C is clear, and exactly the
/// operand when C is set.
pub proof fn lemma_sbc_borrow(r: Registers, v: u8)
    ensures
        !flag_set(r.p, CARRY_FLAG) ==> spec_sbc(r, v).a == (r.a - v - 1 + 512) % 256,
        flag_set(r.p, CARRY_FLAG) ==> spec_sbc(r, v).a == (r.a - v + 256) % 256,
{
}

/// The overflow flag after ADC is set exactly when A and the operand have
/// the same sign and the result has the other sign.
pub proof fn lemma_adc_overflow(r: Registers, v: u8)
    ensures
        ({
            let r2 = spec_adc(r, v);
            flag_set(r2.p, OVERFLOW_FLAG) == ((r.a & 0x80) == (v & 0x80) && (r2.a & 0x80) != (r.a
                & 0x80))
        }),
{
    let sum = r.a + v + carry_in(r.p);
    let result = (sum % 256) as u8;
    let overflow = (r.a >= 0x80) == (v >= 0x80) && (result >= 0x80) != (r.a >= 0x80);
    let p1 = with_flag(with_flag(r.p, CARRY_FLAG, sum > 0xFF), OVERFLOW_FLAG, overflow);
    let pc = with_flag(r.p, CARRY_FLAG, sum > 0xFF);
    assert(((pc | 0x40) & 0x40 == 0x40) && ((pc & !0x40u8) & 0x40 != 0x40)) by (bit_vector);
    lemma_zn_flags(p1, result);
    assert(p1 & 0x40 == with_zn(p1, result) & 0x40) by {
        let q = with_zn(p1, result);
        assert(q & 0x7D == p1 & 0x7D);
        assert(q & 0x7D == p1 & 0x7D ==> q & 0x40 == p1 & 0x40) by (bit_vector);
    }
    let a = r.a;
    assert(((a & 0x80) == (v & 0x80)) == ((a >= 0x80) == (v >= 0x80))) by (bit_vector);
    assert(((result & 0x80) != (a & 0x80)) == ((result >= 0x80) != (a >= 0x80))) by (bit_vector);
}

/// BIT copies bits 7 and 6 of the operand into N and V whatever A holds.
pub proof fn lemma_bit_copies(p: u8, a: u8, v: u8)
    ensures
        spec_bit(p, a, v) & 0xC0 == v & 0xC0,
        flag_set(spec_bit(p, a, v), NEGATIVE_FLAG) == (v & 0x80 == 0x80),
        flag_set(spec_bit(p, a, v), OVERFLOW_FLAG) == (v & 0x40 == 0x40),
{
    let q = with_flag(p, ZERO_FLAG, a & v == 0);
    assert(((q & 0x3F) | (v & 0xC0)) & 0xC0 == v & 0xC0) by (bit_vector);
    assert((((q & 0x3F) | (v & 0xC0)) & 0x80 == 0x80) == (v & 0x80 == 0x80)) by (bit_vector);
    assert((((q & 0x3F) | (v & 0xC0)) & 0x40 == 0x40) == (v & 0x40 == 0x40)) by (bit_vector);
}

/// An indexed read costs exactly one cycle more when the index carries the
/// address onto another page.
pub proof fn lemma_page_cross_penalty(i: Instruction, r: Registers, m: MemoryView)
    requires
        opcode_table(i.0).is_some(),
        has_page_penalty(opcode_table(i.0).unwrap()),
    ensures
        execute_spec(i, r, m).2 == spec_base_cycles(opcode_table(i.0).unwrap()) + if crossed(
            resolve(opcode_table(i.0).unwrap().mode, i, r, m).0,
        ) {
            1int
        } else {
            0int
        },
{
    let o = opcode_table(i.0).unwrap();
    assert(spec_base_cycles(o) <= 7);
}

/// The word an indirect JMP reads at `$xxFF` takes its high byte from
/// `$xx00`, not from the next page.
pub proof fn lemma_indirect_jmp_wrap(i: Instruction, r: Registers, m: MemoryView)
    requires
        i.0 == 0x6C,
        i.spec_arg_u16() % 0x100 == 0xFF,
    ensures
        execute_spec(i, r, m).0.pc == word(
            m.peek(i.spec_arg_u16() as int),
            m.peek(i.spec_arg_u16() - 0xFF),
        ),
{
    let a = i.spec_arg_u16() as int;
    assert(wrapped_msb_addr(a) == a - 0xFF);
    assert(m.after_read(a).peek(a - 0xFF) == m.peek(a - 0xFF));
}

/// `p` with the bits of `mask` set when `on`, cleared otherwise.
pub fn set_flag(p: u8, mask: u8, on: bool) -> (r: u8)
    ensures
        r == with_flag(p, mask, on),
{
    if on {
        p | mask
    } else {
        p & !mask
    }
}

/// `p` with Z and N set from `v`.
pub fn set_zn(p: u8, v: u8) -> (r: u8)
    ensures
        r == with_zn(p, v),
{
    set_flag(set_flag(p, ZERO_FLAG, v == 0), NEGATIVE_FLAG, v >= 0x80)
}

fn carry_bit(p: u8) -> (r: u8)
    ensures
        r as int == carry_in(p),
{
    if p & CARRY_FLAG == CARRY_FLAG {
        1
    } else {
        0
    }
}

/// Adds with carry.
pub fn adc(r: Registers, v: u8) -> (o: Registers)
    ensures
        o == spec_adc(r, v),
{
    let sum: u16 = r.a as u16 + v as u16 + carry_bit(r.p) as u16;
    let result = (sum % 256) as u8;
    let overflow = (r.a >= 0x80) == (v >= 0x80) && (result >= 0x80) != (r.a >= 0x80);
    Registers {
        a: result,
        p: set_zn(set_flag(set_flag(r.p, CARRY_FLAG, sum > 0xFF), OVERFLOW_FLAG, overflow), result),
        ..r
    }
}

/// Subtracts with borrow.
pub fn sbc(r: Registers, v: u8) -> (o: Registers)
    ensures
        o == spec_sbc(r, v),
{
    let diff: i16 = r.a as i16 - v as i16 - (1 - carry_bit(r.p) as i16);
    let result = ((diff + 256) % 256) as u8;
    let overflow = (r.a >= 0x80) != (v >= 0x80) && (result >= 0x80) != (r.a >= 0x80);
    Registers {
        a: result,
        p: set_zn(set_flag(set_flag(r.p, CARRY_FLAG, diff >= 0), OVERFLOW_FLAG, overflow), result),
        ..r
    }
}

/// Flags after comparing `reg` with `v`.
pub fn compare(p: u8, reg: u8, v: u8) -> (r: u8)
    ensures
        r == spec_compare(p, reg, v),
{
    let diff = ((reg as i16 - v as i16 + 256) % 256) as u8;
    set_zn(set_flag(p, CARRY_FLAG, reg >= v), diff)
}

/// Registers after a read instruction whose operand is `v`.
fn read_op(mn: Mnemonic, r: Registers, v: u8) -> (o: Registers)
    ensures
        o == apply_read(mn, r, v),
{
    match mn {
        Mnemonic::Lda => Registers { a: v, p: set_zn(r.p, v), ..r },
        Mnemonic::Ldx => Registers { x: v, p: set_zn(r.p, v), ..r },
        Mnemonic::Ldy => Registers { y: v, p: set_zn(r.p, v), ..r },
        Mnemonic::And => Registers { a: r.a & v, p: set_zn(r.p, r.a & v), ..r },
        Mnemonic::Ora => Registers { a: r.a | v, p: set_zn(r.p, r.a | v), ..r },
        Mnemonic::Eor => Registers { a: r.a ^ v, p: set_zn(r.p, r.a ^ v), ..r },
        Mnemonic::Adc => adc(r, v),
        Mnemonic::Sbc => sbc(r, v),
        Mnemonic::Cmp => Registers { p: compare(r.p, r.a, v), ..r },
        Mnemonic::Cpx => Registers { p: compare(r.p, r.x, v), ..r },
        Mnemonic::Cpy => Registers { p: compare(r.p, r.y, v), ..r },
        Mnemonic::Bit => Registers {
            p: (set_flag(r.p, ZERO_FLAG, r.a & v == 0) & 0x3F) | (v & 0xC0),
            ..r
        },
        _ => r,
    }
}

/// Result byte and status of a read-modify-write instruction on `v`.
fn modify(mn: Mnemonic, p: u8, v: u8) -> (r: (u8, u8))
    ensures
        r == modify_value(mn, p, v),
{
    let c = carry_bit(p);
    match mn {
        Mnemonic::Asl => {
            let res = ((v as u16 * 2) % 256) as u8;
            (res, set_zn(set_flag(p, CARRY_FLAG, v >= 0x80), res))
        },
        Mnemonic::Lsr => {
            let res = v / 2;
            (res, set_zn(set_flag(p, CARRY_FLAG, v % 2 == 1), res))
        },
        Mnemonic::Rol => {
            let res = (((v as u16 * 2) % 256) + c as u16) as u8;
            (res, set_zn(set_flag(p, CARRY_FLAG, v >= 0x80), res))
        },
        Mnemonic::Ror => {
            let res = (v / 2 + 128 * c) as u8;
            (res, set_zn(set_flag(p, CARRY_FLAG, v % 2 == 1), res))
        },
        Mnemonic::Inc => {
            let res = ((v as u16 + 1) % 256) as u8;
            (res, set_zn(p, res))
        },
        _ => {
            let res = ((v as u16 + 255) % 256) as u8;
            (res, set_zn(p, res))
        },
    }
}

/// Registers after an instruction that only works on registers.
fn implied_op(mn: Mnemonic, r: Registers) -> (o: Registers)
    ensures
        o == apply_implied(mn, r),
{
    match mn {
        Mnemonic::Tax => Registers { x: r.a, p: set_zn(r.p, r.a), ..r },
        Mnemonic::Tay => Registers { y: r.a, p: set_zn(r.p, r.a), ..r },
        Mnemonic::Tsx => Registers { x: r.sp, p: set_zn(r.p, r.sp), ..r },
        Mnemonic::Txa => Registers { a: r.x, p: set_zn(r.p, r.x), ..r },
        Mnemonic::Txs => Registers { sp: r.x, ..r },
        Mnemonic::Tya => Registers { a: r.y, p: set_zn(r.p, r.y), ..r },
        Mnemonic::Inx => {
            let v = ((r.x as u16 + 1) % 256) as u8;
            Registers { x: v, p: set_zn(r.p, v), ..r }
        },
        Mnemonic::Iny => {
            let v = ((r.y as u16 + 1) % 256) as u8;
            Registers { y: v, p: set_zn(r.p, v), ..r }
        },
        Mnemonic::Dex => {
            let v = ((r.x as u16 + 255) % 256) as u8;
            Registers { x: v, p: set_zn(r.p, v), ..r }
        },
        Mnemonic::Dey => {
            let v = ((r.y as u16 + 255) % 256) as u8;
            Registers { y: v, p: set_zn(r.p, v), ..r }
        },
        Mnemonic::Clc => Registers { p: set_flag(r.p, CARRY_FLAG, false), ..r },
        Mnemonic::Cld => Registers { p: set_flag(r.p, DECIMAL_MODE, false), ..r },
        Mnemonic::Cli => Registers { p: set_flag(r.p, INTERRUPT_DISABLE, false), ..r },
        Mnemonic::Clv => Registers { p: set_flag(r.p, OVERFLOW_FLAG, false), ..r },
        Mnemonic::Sec => Registers { p: set_flag(r.p, CARRY_FLAG, true), ..r },
        Mnemonic::Sed => Registers { p: set_flag(r.p, DECIMAL_MODE, true), ..r },
        Mnemonic::Sei => Registers { p: set_flag(r.p, INTERRUPT_DISABLE, true), ..r },
        _ => r,
    }
}

/// Whether a branch is taken.
fn taken(mn: Mnemonic, p: u8) -> (r: bool)
    ensures
        r == branch_taken(mn, p),
{
    match mn {
        Mnemonic::Bcc => p & CARRY_FLAG != CARRY_FLAG,
        Mnemonic::Bcs => p & CARRY_FLAG == CARRY_FLAG,
        Mnemonic::Bne => p & ZERO_FLAG != ZERO_FLAG,
        Mnemonic::Beq => p & ZERO_FLAG == ZERO_FLAG,
        Mnemonic::Bpl => p & NEGATIVE_FLAG != NEGATIVE_FLAG,
        Mnemonic::Bmi => p & NEGATIVE_FLAG == NEGATIVE_FLAG,
        Mnemonic::Bvc => p & OVERFLOW_FLAG != OVERFLOW_FLAG,
        _ => p & OVERFLOW_FLAG == OVERFLOW_FLAG,
    }
}

impl Instruction {
    /// Fetches the instruction at `pc`: the opcode byte, then as many
    /// argument bytes as its addressing mode takes. `None` when the opcode
    /// byte is not an official opcode.
    pub fn parse(pc: usize, memory: &mut Memory) -> (r: Option<Instruction>)
        requires
            old(memory).wf(),
            pc <= 0xFFFF,
        ensures
            (r, final(memory)@) == fetch(pc as u16, old(memory)@),
            final(memory).wf(),
    {
        let raw_opcode = memory.read_u8(pc);
        match lookup_opcode(raw_opcode) {
            None => None,
            Some(opcode) => {
                let len = opcode_len(&opcode);
                let a1 = (pc + 1) % 0x10000;
                let a2 = (pc + 2) % 0x10000;
                if len == 1 {
                    Some(Instruction(raw_opcode, 0, 0))
                } else if len == 2 {
                    Some(Instruction(raw_opcode, memory.read_u8(a1), 0))
                } else {
                    let b1 = memory.read_u8(a1);
                    let b2 = memory.read_u8(a2);
                    Some(Instruction(raw_opcode, b1, b2))
                }
            },
        }
    }

    /// The decoded opcode.
    pub fn opcode(&self) -> (r: Opcode)
        requires
            opcode_table(self.0).is_some(),
        ensures
            opcode_table(self.0) == Some(r),
    {
        decode_opcode(self.0)
    }

    /// The first argument byte.
    pub fn arg_u8(&self) -> (r: u8)
        ensures
            r == self.1,
    {
        self.1
    }

    /// The two argument bytes as a little-endian word.
    pub fn arg_u16(&self) -> (r: u16)
        ensures
            r == self.spec_arg_u16(),
    {
        word_from_bytes(self.1, self.2)
    }

    /// Immediate addressing: the argument is the operand.
    pub fn immediate(&self) -> (r: u8)
        ensures
            r == self.1,
    {
        self.arg_u8()
    }

    /// Zero page addressing: an address in `$00-$FF`.
    pub fn zero_page(&self) -> (r: usize)
        ensures
            r == self.1,
    {
        self.arg_u8() as usize
    }

    /// Zero page addressing indexed by X, wrapping within the zero page.
    pub fn zero_page_x(&self, cpu: &CPU) -> (r: usize)
        ensures
            r == wrap8(self.1 + cpu.x),
    {
        ((self.1 as usize + cpu.x as usize) % 0x100)
    }

    /// Zero page addressing indexed by Y, wrapping within the zero page.
    pub fn zero_page_y(&self, cpu: &CPU) -> (r: usize)
        ensures
            r == wrap8(self.1 + cpu.y),
    {
        ((self.1 as usize + cpu.y as usize) % 0x100)
    }

    /// Relative addressing: the argument as a signed displacement.
    pub fn relative(&self) -> (r: i8)
        ensures
            r as int == signed_of(self.1),
    {
        if self.1 < 0x80 {
            self.1 as i8
        } else {
            (self.1 as i16 - 256) as i8
        }
    }

    /// Absolute addressing: the argument word is the address.
    pub fn absolute(&self) -> (r: usize)
        ensures
            r == self.spec_arg_u16(),
    {
        self.arg_u16() as usize
    }

    /// Absolute addressing indexed by X, with the page cross between the
    /// base and the effective address.
    pub fn absolute_x(&self, cpu: &CPU) -> (r: (usize, PageCross))
        ensures
            r.0 == wrap16(self.spec_arg_u16() + cpu.x),
            r.1 == spec_page_cross(self.spec_arg_u16() as int, r.0 as int),
    {
        let base = self.arg_u16() as usize;
        let addr = (base + cpu.x as usize) % 0x10000;
        (addr, page_cross(base, addr))
    }

    /// Absolute addressing indexed by Y, with the page cross between the
    /// base and the effective address.
    pub fn absolute_y(&self, cpu: &CPU) -> (r: (usize, PageCross))
        ensures
            r.0 == wrap16(self.spec_arg_u16() + cpu.y),
            r.1 == spec_page_cross(self.spec_arg_u16() as int, r.0 as int),
    {
        let base = self.arg_u16() as usize;
        let addr = (base + cpu.y as usize) % 0x10000;
        (addr, page_cross(base, addr))
    }

    /// Indirect addressing (JMP only): the word at the argument address,
    /// with the page-wrap bug.
    pub fn indirect(&self, memory: &mut Memory) -> (r: usize)
        requires
            old(memory).wf(),
        ensures
            (r as u16, final(memory)@) == read_wrapped(old(memory)@, self.spec_arg_u16() as int),
            r <= 0xFFFF,
            final(memory).wf(),
    {
        let arg = self.arg_u16() as usize;
        memory.read_u16_wrapped_msb(arg) as usize
    }

    /// Indexed indirect addressing `(zp,X)`: the pointer sits at
    /// `arg + X` in the zero page, its high byte wrapping within the page.
    pub fn indirect_x(&self, cpu: &CPU, memory: &mut Memory) -> (r: usize)
        requires
            old(memory).wf(),
        ensures
            (r as u16, final(memory)@) == read_wrapped(
                old(memory)@,
                wrap8(self.1 + cpu.x) as int,
            ),
            r <= 0xFFFF,
            final(memory).wf(),
    {
        let addr = self.zero_page_x(cpu);
        memory.read_u16_wrapped_msb(addr) as usize
    }

    /// Indirect indexed addressing `(zp),Y`: the pointer at `arg` plus Y,
    /// with the page cross between the pointer and the effective address.
    pub fn indirect_y(&self, cpu: &CPU, memory: &mut Memory) -> (r: (usize, PageCross))
        requires
            old(memory).wf(),
        ensures
            ({
                let (b, m1) = read_wrapped(old(memory)@, self.1 as int);
                &&& r.0 == wrap16(b + cpu.y)
                &&& r.1 == spec_page_cross(b as int, r.0 as int)
                &&& final(memory)@ == m1
            }),
            final(memory).wf(),
    {
        let base = memory.read_u16_wrapped_msb(self.1 as usize) as usize;
        let addr = (base + cpu.y as usize) % 0x10000;
        (addr, page_cross(base, addr))
    }

    /// Resolves the operand of the instruction for an addressing mode.
    fn resolve_operand(&self, mode: AddressingMode, cpu: &CPU, memory: &mut Memory) -> (r: Operand)
        requires
            old(memory).wf(),
        ensures
            (r, final(memory)@) == resolve(mode, *self, cpu.regs(), old(memory)@),
            final(memory).wf(),
    {
        match mode {
            AddressingMode::Implied => Operand::Implied,
            AddressingMode::Accumulator => Operand::Accumulator,
            AddressingMode::Immediate | AddressingMode::Relative => Operand::Value(self.immediate()),
            AddressingMode::ZeroPage => Operand::Address(self.zero_page() as u16, PageCross::Same),
            AddressingMode::ZeroPageX => Operand::Address(self.zero_page_x(cpu) as u16, PageCross::Same),
            AddressingMode::ZeroPageY => Operand::Address(self.zero_page_y(cpu) as u16, PageCross::Same),
            AddressingMode::Absolute => Operand::Address(self.arg_u16(), PageCross::Same),
            AddressingMode::AbsoluteX => {
                let (a, c) = self.absolute_x(cpu);
                Operand::Address(a as u16, c)
            },
            AddressingMode::AbsoluteY => {
                let (a, c) = self.absolute_y(cpu);
                Operand::Address(a as u16, c)
            },
            AddressingMode::Indirect => Operand::Address(self.indirect(memory) as u16, PageCross::Same),
            AddressingMode::IndexedIndirect => Operand::Address(
                self.indirect_x(cpu, memory) as u16,
                PageCross::Same,
            ),
            AddressingMode::IndirectIndexed => {
                let (a, c) = self.indirect_y(cpu, memory);
                Operand::Address(a as u16, c)
            },
        }
    }
}

fn advance_pc(o: Opcode, r: Registers) -> (n: Registers)
    ensures
        n == advance(o, r),
{
    let len = opcode_len(&o);
    Registers { pc: ((r.pc as u32 + len as u32) % 0x10000) as u16, ..r }
}

fn operand_crossed(operand: Operand) -> (r: bool)
    ensures
        r == crossed(operand),
{
    match operand {
        Operand::Address(_, c) => c != PageCross::Same,
        _ => false,
    }
}

impl Instruction {
    fn execute_read(&self, o: Opcode, operand: Operand, cpu: &mut CPU, memory: &mut Memory) -> (c: u16)
        requires
            old(memory).wf(),
        ensures
            ({
                let (r2, m2, c2) = read_effect(o, operand, old(cpu).regs(), old(memory)@);
                &&& *final(cpu) == old(cpu).with_regs(r2)
                &&& final(memory)@ == m2
                &&& c == c2
            }),
            c <= 8,
            final(memory).wf(),
    {
        let r = cpu.get_regs();
        let v = match operand {
            Operand::Value(v) => v,
            Operand::Address(a, _) => memory.read_u8(a as usize),
            _ => r.a,
        };
        let penalty: u16 = if page_penalty(o) && operand_crossed(operand) {
            1
        } else {
            0
        };
        cpu.set_regs(read_op(o.mnemonic, advance_pc(o, r), v));
        base_cycles(o) + penalty
    }

    fn execute_store(&self, o: Opcode, operand: Operand, cpu: &mut CPU, memory: &mut Memory) -> (c: u16)
        requires
            old(memory).wf(),
        ensures
            ({
                let (r2, m2, c2) = store_effect(o, operand, old(cpu).regs(), old(memory)@);
                &&& *final(cpu) == old(cpu).with_regs(r2)
                &&& final(memory)@ == m2
                &&& c == c2
            }),
            c <= 7,
            final(memory).wf(),
    {
        let r = cpu.get_regs();
        let value = match o.mnemonic {
            Mnemonic::Stx => r.x,
            Mnemonic::Sty => r.y,
            _ => r.a,
        };
        match operand {
            Operand::Address(a, _) => memory.write_u8(a as usize, value),
            _ => {},
        }
        cpu.set_regs(advance_pc(o, r));
        base_cycles(o)
    }

    fn execute_modify(&self, o: Opcode, operand: Operand, cpu: &mut CPU, memory: &mut Memory) -> (c: u16)
        requires
            old(memory).wf(),
        ensures
            ({
                let (r2, m2, c2) = modify_effect(o, operand, old(cpu).regs(), old(memory)@);
                &&& *final(cpu) == old(cpu).with_regs(r2)
                &&& final(memory)@ == m2
                &&& c == c2
            }),
            c <= 7,
            final(memory).wf(),
    {
        let r = cpu.get_regs();
        let next = advance_pc(o, r);
        match operand {
            Operand::Address(a, _) => {
                let v = memory.read_u8(a as usize);
                let (res, p) = modify(o.mnemonic, r.p, v);
                memory.write_u8(a as usize, res);
                cpu.set_regs(Registers { p: p, ..next });
            },
            _ => {
                let (res, p) = modify(o.mnemonic, r.p, r.a);
                cpu.set_regs(Registers { a: res, p: p, ..next });
            },
        }
        base_cycles(o)
    }

    fn execute_branch(&self, o: Opcode, cpu: &mut CPU) -> (c: u16)
        ensures
            ({
                let (r2, c2) = branch_effect(o, *self, old(cpu).regs());
                &&& *final(cpu) == old(cpu).with_regs(r2)
                &&& c == c2
            }),
            c <= 10,
    {
        let r = cpu.get_regs();
        let next = advance_pc(o, r);
        if taken(o.mnemonic, r.p) {
            let target = add_relative(next.pc, self.relative());
            let extra: u16 = if page_cross(next.pc as usize, target as usize) != PageCross::Same {
                3
            } else {
                1
            };
            cpu.set_regs(Registers { pc: target, ..r });
            base_cycles(o) + extra
        } else {
            cpu.set_regs(next);
            base_cycles(o)
        }
    }

    fn execute_control(&self, o: Opcode, operand: Operand, cpu: &mut CPU, memory: &mut Memory)
        requires
            old(memory).wf(),
        ensures
            ({
                let (r2, m2) = control_effect(o, *self, operand, old(cpu).regs(), old(memory)@);
                &&& *final(cpu) == old(cpu).with_regs(r2)
                &&& final(memory)@ == m2
            }),
            final(memory).wf(),
    {
        let r = cpu.get_regs();
        let next = advance_pc(o, r);
        match o.mnemonic {
            Mnemonic::Pha => {
                memory.stack_push_u8(cpu, r.a);
                let sp = cpu.sp;
                cpu.set_regs(Registers { sp: sp, ..next });
            },
            Mnemonic::Php => {
                memory.stack_push_u8(cpu, r.p | BREAK_COMMAND);
                let sp = cpu.sp;
                cpu.set_regs(Registers { sp: sp, ..next });
            },
            Mnemonic::Pla => {
                let v = memory.stack_pop_u8(cpu);
                let sp = cpu.sp;
                cpu.set_regs(Registers { sp: sp, a: v, p: set_zn(r.p, v), ..next });
            },
            Mnemonic::Plp => {
                let v = memory.stack_pop_u8(cpu);
                let sp = cpu.sp;
                cpu.set_regs(Registers { sp: sp, p: (v & 0xCF) | (r.p & 0x20), ..next });
            },
            Mnemonic::Jmp => match operand {
                Operand::Address(a, _) => cpu.set_regs(Registers { pc: a, ..r }),
                _ => cpu.set_regs(next),
            },
            Mnemonic::Jsr => {
                memory.stack_push_u16(cpu, ((r.pc as u32 + 2) % 0x10000) as u16);
                let sp = cpu.sp;
                cpu.set_regs(Registers { pc: self.arg_u16(), sp: sp, ..r });
            },
            Mnemonic::Rts => {
                let v = memory.stack_pop_u16(cpu);
                let sp = cpu.sp;
                cpu.set_regs(Registers { pc: ((v as u32 + 1) % 0x10000) as u16, sp: sp, ..r });
            },
            Mnemonic::Rti => {
                let v = memory.stack_pop_u8(cpu);
                let pc = memory.stack_pop_u16(cpu);
                let sp = cpu.sp;
                cpu.set_regs(Registers { pc: pc, sp: sp, p: (v & 0xCF) | (r.p & 0x20), ..r });
            },
            Mnemonic::Brk => {
                memory.stack_push_u16(cpu, ((r.pc as u32 + 2) % 0x10000) as u16);
                memory.stack_push_u8(cpu, r.p | BREAK_COMMAND);
                let lo = memory.read_u8(0xFFFE);
                let hi = memory.read_u8(0xFFFF);
                let sp = cpu.sp;
                cpu.set_regs(
                    Registers { pc: word_from_bytes(lo, hi), sp: sp, p: r.p | BREAK_COMMAND, ..r },
                );
            },
            _ => cpu.set_regs(implied_op(o.mnemonic, next)),
        }
    }

    /// Executes the instruction: registers, bus and the cycle counter change
    /// as `execute_spec` says.
    pub fn execute(&self, cpu: &mut CPU, memory: &mut Memory)
        requires
            old(memory).wf(),
            opcode_table(self.0).is_some(),
            old(cpu).cycles <= 0xFF00,
        ensures
            ({
                let (r, m, c) = execute_spec(*self, old(cpu).regs(), old(memory)@);
                &&& *final(cpu) == (CPU {
                    cycles: (old(cpu).cycles + c) as u16,
                    ..old(cpu).with_regs(r)
                })
                &&& final(memory)@ == m
            }),
            final(memory).wf(),
    {
        let o = self.opcode();
        let operand = self.resolve_operand(o.mode, cpu, memory);
        let c = if reads_operand(o.mnemonic) {
            self.execute_read(o, operand, cpu, memory)
        } else if stores_register(o.mnemonic) {
            self.execute_store(o, operand, cpu, memory)
        } else if modifies_operand(o.mnemonic) {
            self.execute_modify(o, operand, cpu, memory)
        } else if is_branch(o.mnemonic) {
            self.execute_branch(o, cpu)
        } else {
            self.execute_control(o, operand, cpu, memory);
            base_cycles(o)
        };
        cpu.cycles = cpu.cycles + c;
    }
}

} // verus!
