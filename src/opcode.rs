use vstd::prelude::*;

verus! {

/// The official 6502 instruction names.
#[derive(Clone, Copy, Debug, PartialEq, Eq, Structural)]
pub enum Mnemonic {
    Adc,
    And,
    Asl,
    Bcc,
    Bcs,
    Beq,
    Bit,
    Bmi,
    Bne,
    Bpl,
    Brk,
    Bvc,
    Bvs,
    Clc,
    Cld,
    Cli,
    Clv,
    Cmp,
    Cpx,
    Cpy,
    Dec,
    Dex,
    Dey,
    Eor,
    Inc,
    Inx,
    Iny,
    Jmp,
    Jsr,
    Lda,
    Ldx,
    Ldy,
    Lsr,
    Nop,
    Ora,
    Pha,
    Php,
    Pla,
    Plp,
    Rol,
    Ror,
    Rti,
    Rts,
    Sbc,
    Sec,
    Sed,
    Sei,
    Sta,
    Stx,
    Sty,
    Tax,
    Tay,
    Tsx,
    Txa,
    Txs,
    Tya,
}

/// The thirteen 6502 addressing modes.
#[derive(Clone, Copy, Debug, PartialEq, Eq, Structural)]
pub enum AddressingMode {
    Implied,
    Accumulator,
    Immediate,
    ZeroPage,
    ZeroPageX,
    ZeroPageY,
    Relative,
    Absolute,
    AbsoluteX,
    AbsoluteY,
    Indirect,
    IndexedIndirect,
    IndirectIndexed,
}

/// A decoded opcode: what the instruction does and how it finds its operand.
#[derive(Clone, Copy, Debug, PartialEq, Eq, Structural)]
pub struct Opcode {
    pub mnemonic: Mnemonic,
    pub mode: AddressingMode,
}

/// The table of the 151 official opcodes; every other byte is undefined.
pub open spec fn opcode_table(opcode: u8) -> Option<Opcode> {
    match opcode {
        0x00 => Some(Opcode { mnemonic: Mnemonic::Brk, mode: AddressingMode::Implied }),
        0x01 => Some(Opcode { mnemonic: Mnemonic::Ora, mode: AddressingMode::IndexedIndirect }),
        0x05 => Some(Opcode { mnemonic: Mnemonic::Ora, mode: AddressingMode::ZeroPage }),
        0x06 => Some(Opcode { mnemonic: Mnemonic::Asl, mode: AddressingMode::ZeroPage }),
        0x08 => Some(Opcode { mnemonic: Mnemonic::Php, mode: AddressingMode::Implied }),
        0x09 => Some(Opcode { mnemonic: Mnemonic::Ora, mode: AddressingMode::Immediate }),
        0x0A => Some(Opcode { mnemonic: Mnemonic::Asl, mode: AddressingMode::Accumulator }),
        0x0D => Some(Opcode { mnemonic: Mnemonic::Ora, mode: AddressingMode::Absolute }),
        0x0E => Some(Opcode { mnemonic: Mnemonic::Asl, mode: AddressingMode::Absolute }),
        0x10 => Some(Opcode { mnemonic: Mnemonic::Bpl, mode: AddressingMode::Relative }),
        0x11 => Some(Opcode { mnemonic: Mnemonic::Ora, mode: AddressingMode::IndirectIndexed }),
        0x15 => Some(Opcode { mnemonic: Mnemonic::Ora, mode: AddressingMode::ZeroPageX }),
        0x16 => Some(Opcode { mnemonic: Mnemonic::Asl, mode: AddressingMode::ZeroPageX }),
        0x18 => Some(Opcode { mnemonic: Mnemonic::Clc, mode: AddressingMode::Implied }),
        0x19 => Some(Opcode { mnemonic: Mnemonic::Ora, mode: AddressingMode::AbsoluteY }),
        0x1D => Some(Opcode { mnemonic: Mnemonic::Ora, mode: AddressingMode::AbsoluteX }),
        0x1E => Some(Opcode { mnemonic: Mnemonic::Asl, mode: AddressingMode::AbsoluteX }),
        0x20 => Some(Opcode { mnemonic: Mnemonic::Jsr, mode: AddressingMode::Absolute }),
        0x21 => Some(Opcode { mnemonic: Mnemonic::And, mode: AddressingMode::IndexedIndirect }),
        0x24 => Some(Opcode { mnemonic: Mnemonic::Bit, mode: AddressingMode::ZeroPage }),
        0x25 => Some(Opcode { mnemonic: Mnemonic::And, mode: AddressingMode::ZeroPage }),
        0x26 => Some(Opcode { mnemonic: Mnemonic::Rol, mode: AddressingMode::ZeroPage }),
        0x28 => Some(Opcode { mnemonic: Mnemonic::Plp, mode: AddressingMode::Implied }),
        0x29 => Some(Opcode { mnemonic: Mnemonic::And, mode: AddressingMode::Immediate }),
        0x2A => Some(Opcode { mnemonic: Mnemonic::Rol, mode: AddressingMode::Accumulator }),
        0x2C => Some(Opcode { mnemonic: Mnemonic::Bit, mode: AddressingMode::Absolute }),
        0x2D => Some(Opcode { mnemonic: Mnemonic::And, mode: AddressingMode::Absolute }),
        0x2E => Some(Opcode { mnemonic: Mnemonic::Rol, mode: AddressingMode::Absolute }),
        0x30 => Some(Opcode { mnemonic: Mnemonic::Bmi, mode: AddressingMode::Relative }),
        0x31 => Some(Opcode { mnemonic: Mnemonic::And, mode: AddressingMode::IndirectIndexed }),
        0x35 => Some(Opcode { mnemonic: Mnemonic::And, mode: AddressingMode::ZeroPageX }),
        0x36 => Some(Opcode { mnemonic: Mnemonic::Rol, mode: AddressingMode::ZeroPageX }),
        0x38 => Some(Opcode { mnemonic: Mnemonic::Sec, mode: AddressingMode::Implied }),
        0x39 => Some(Opcode { mnemonic: Mnemonic::And, mode: AddressingMode::AbsoluteY }),
        0x3D => Some(Opcode { mnemonic: Mnemonic::And, mode: AddressingMode::AbsoluteX }),
        0x3E => Some(Opcode { mnemonic: Mnemonic::Rol, mode: AddressingMode::AbsoluteX }),
        0x40 => Some(Opcode { mnemonic: Mnemonic::Rti, mode: AddressingMode::Implied }),
        0x41 => Some(Opcode { mnemonic: Mnemonic::Eor, mode: AddressingMode::IndexedIndirect }),
        0x45 => Some(Opcode { mnemonic: Mnemonic::Eor, mode: AddressingMode::ZeroPage }),
        0x46 => Some(Opcode { mnemonic: Mnemonic::Lsr, mode: AddressingMode::ZeroPage }),
        0x48 => Some(Opcode { mnemonic: Mnemonic::Pha, mode: AddressingMode::Implied }),
        0x49 => Some(Opcode { mnemonic: Mnemonic::Eor, mode: AddressingMode::Immediate }),
        0x4A => Some(Opcode { mnemonic: Mnemonic::Lsr, mode: AddressingMode::Accumulator }),
        0x4C => Some(Opcode { mnemonic: Mnemonic::Jmp, mode: AddressingMode::Absolute }),
        0x4D => Some(Opcode { mnemonic: Mnemonic::Eor, mode: AddressingMode::Absolute }),
        0x4E => Some(Opcode { mnemonic: Mnemonic::Lsr, mode: AddressingMode::Absolute }),
        0x50 => Some(Opcode { mnemonic: Mnemonic::Bvc, mode: AddressingMode::Relative }),
        0x51 => Some(Opcode { mnemonic: Mnemonic::Eor, mode: AddressingMode::IndirectIndexed }),
        0x55 => Some(Opcode { mnemonic: Mnemonic::Eor, mode: AddressingMode::ZeroPageX }),
        0x56 => Some(Opcode { mnemonic: Mnemonic::Lsr, mode: AddressingMode::ZeroPageX }),
        0x58 => Some(Opcode { mnemonic: Mnemonic::Cli, mode: AddressingMode::Implied }),
        0x59 => Some(Opcode { mnemonic: Mnemonic::Eor, mode: AddressingMode::AbsoluteY }),
        0x5D => Some(Opcode { mnemonic: Mnemonic::Eor, mode: AddressingMode::AbsoluteX }),
        0x5E => Some(Opcode { mnemonic: Mnemonic::Lsr, mode: AddressingMode::AbsoluteX }),
        0x60 => Some(Opcode { mnemonic: Mnemonic::Rts, mode: AddressingMode::Implied }),
        0x61 => Some(Opcode { mnemonic: Mnemonic::Adc, mode: AddressingMode::IndexedIndirect }),
        0x65 => Some(Opcode { mnemonic: Mnemonic::Adc, mode: AddressingMode::ZeroPage }),
        0x66 => Some(Opcode { mnemonic: Mnemonic::Ror, mode: AddressingMode::ZeroPage }),
        0x68 => Some(Opcode { mnemonic: Mnemonic::Pla, mode: AddressingMode::Implied }),
        0x69 => Some(Opcode { mnemonic: Mnemonic::Adc, mode: AddressingMode::Immediate }),
        0x6A => Some(Opcode { mnemonic: Mnemonic::Ror, mode: AddressingMode::Accumulator }),
        0x6C => Some(Opcode { mnemonic: Mnemonic::Jmp, mode: AddressingMode::Indirect }),
        0x6D => Some(Opcode { mnemonic: Mnemonic::Adc, mode: AddressingMode::Absolute }),
        0x6E => Some(Opcode { mnemonic: Mnemonic::Ror, mode: AddressingMode::Absolute }),
        0x70 => Some(Opcode { mnemonic: Mnemonic::Bvs, mode: AddressingMode::Relative }),
        0x71 => Some(Opcode { mnemonic: Mnemonic::Adc, mode: AddressingMode::IndirectIndexed }),
        0x75 => Some(Opcode { mnemonic: Mnemonic::Adc, mode: AddressingMode::ZeroPageX }),
        0x76 => Some(Opcode { mnemonic: Mnemonic::Ror, mode: AddressingMode::ZeroPageX }),
        0x78 => Some(Opcode { mnemonic: Mnemonic::Sei, mode: AddressingMode::Implied }),
        0x79 => Some(Opcode { mnemonic: Mnemonic::Adc, mode: AddressingMode::AbsoluteY }),
        0x7D => Some(Opcode { mnemonic: Mnemonic::Adc, mode: AddressingMode::AbsoluteX }),
        0x7E => Some(Opcode { mnemonic: Mnemonic::Ror, mode: AddressingMode::AbsoluteX }),
        0x81 => Some(Opcode { mnemonic: Mnemonic::Sta, mode: AddressingMode::IndexedIndirect }),
        0x84 => Some(Opcode { mnemonic: Mnemonic::Sty, mode: AddressingMode::ZeroPage }),
        0x85 => Some(Opcode { mnemonic: Mnemonic::Sta, mode: AddressingMode::ZeroPage }),
        0x86 => Some(Opcode { mnemonic: Mnemonic::Stx, mode: AddressingMode::ZeroPage }),
        0x88 => Some(Opcode { mnemonic: Mnemonic::Dey, mode: AddressingMode::Implied }),
        0x8A => Some(Opcode { mnemonic: Mnemonic::Txa, mode: AddressingMode::Implied }),
        0x8C => Some(Opcode { mnemonic: Mnemonic::Sty, mode: AddressingMode::Absolute }),
        0x8D => Some(Opcode { mnemonic: Mnemonic::Sta, mode: AddressingMode::Absolute }),
        0x8E => Some(Opcode { mnemonic: Mnemonic::Stx, mode: AddressingMode::Absolute }),
        0x90 => Some(Opcode { mnemonic: Mnemonic::Bcc, mode: AddressingMode::Relative }),
        0x91 => Some(Opcode { mnemonic: Mnemonic::Sta, mode: AddressingMode::IndirectIndexed }),
        0x94 => Some(Opcode { mnemonic: Mnemonic::Sty, mode: AddressingMode::ZeroPageX }),
        0x95 => Some(Opcode { mnemonic: Mnemonic::Sta, mode: AddressingMode::ZeroPageX }),
        0x96 => Some(Opcode { mnemonic: Mnemonic::Stx, mode: AddressingMode::ZeroPageY }),
        0x98 => Some(Opcode { mnemonic: Mnemonic::Tya, mode: AddressingMode::Implied }),
        0x99 => Some(Opcode { mnemonic: Mnemonic::Sta, mode: AddressingMode::AbsoluteY }),
        0x9A => Some(Opcode { mnemonic: Mnemonic::Txs, mode: AddressingMode::Implied }),
        0x9D => Some(Opcode { mnemonic: Mnemonic::Sta, mode: AddressingMode::AbsoluteX }),
        0xA0 => Some(Opcode { mnemonic: Mnemonic::Ldy, mode: AddressingMode::Immediate }),
        0xA1 => Some(Opcode { mnemonic: Mnemonic::Lda, mode: AddressingMode::IndexedIndirect }),
        0xA2 => Some(Opcode { mnemonic: Mnemonic::Ldx, mode: AddressingMode::Immediate }),
        0xA4 => Some(Opcode { mnemonic: Mnemonic::Ldy, mode: AddressingMode::ZeroPage }),
        0xA5 => Some(Opcode { mnemonic: Mnemonic::Lda, mode: AddressingMode::ZeroPage }),
        0xA6 => Some(Opcode { mnemonic: Mnemonic::Ldx, mode: AddressingMode::ZeroPage }),
        0xA8 => Some(Opcode { mnemonic: Mnemonic::Tay, mode: AddressingMode::Implied }),
        0xA9 => Some(Opcode { mnemonic: Mnemonic::Lda, mode: AddressingMode::Immediate }),
        0xAA => Some(Opcode { mnemonic: Mnemonic::Tax, mode: AddressingMode::Implied }),
        0xAC => Some(Opcode { mnemonic: Mnemonic::Ldy, mode: AddressingMode::Absolute }),
        0xAD => Some(Opcode { mnemonic: Mnemonic::Lda, mode: AddressingMode::Absolute }),
        0xAE => Some(Opcode { mnemonic: Mnemonic::Ldx, mode: AddressingMode::Absolute }),
        0xB0 => Some(Opcode { mnemonic: Mnemonic::Bcs, mode: AddressingMode::Relative }),
        0xB1 => Some(Opcode { mnemonic: Mnemonic::Lda, mode: AddressingMode::IndirectIndexed }),
        0xB4 => Some(Opcode { mnemonic: Mnemonic::Ldy, mode: AddressingMode::ZeroPageX }),
        0xB5 => Some(Opcode { mnemonic: Mnemonic::Lda, mode: AddressingMode::ZeroPageX }),
        0xB6 => Some(Opcode { mnemonic: Mnemonic::Ldx, mode: AddressingMode::ZeroPageY }),
        0xB8 => Some(Opcode { mnemonic: Mnemonic::Clv, mode: AddressingMode::Implied }),
        0xB9 => Some(Opcode { mnemonic: Mnemonic::Lda, mode: AddressingMode::AbsoluteY }),
        0xBA => Some(Opcode { mnemonic: Mnemonic::Tsx, mode: AddressingMode::Implied }),
        0xBC => Some(Opcode { mnemonic: Mnemonic::Ldy, mode: AddressingMode::AbsoluteX }),
        0xBD => Some(Opcode { mnemonic: Mnemonic::Lda, mode: AddressingMode::AbsoluteX }),
        0xBE => Some(Opcode { mnemonic: Mnemonic::Ldx, mode: AddressingMode::AbsoluteY }),
        0xC0 => Some(Opcode { mnemonic: Mnemonic::Cpy, mode: AddressingMode::Immediate }),
        0xC1 => Some(Opcode { mnemonic: Mnemonic::Cmp, mode: AddressingMode::IndexedIndirect }),
        0xC4 => Some(Opcode { mnemonic: Mnemonic::Cpy, mode: AddressingMode::ZeroPage }),
        0xC5 => Some(Opcode { mnemonic: Mnemonic::Cmp, mode: AddressingMode::ZeroPage }),
        0xC6 => Some(Opcode { mnemonic: Mnemonic::Dec, mode: AddressingMode::ZeroPage }),
        0xC8 => Some(Opcode { mnemonic: Mnemonic::Iny, mode: AddressingMode::Implied }),
        0xC9 => Some(Opcode { mnemonic: Mnemonic::Cmp, mode: AddressingMode::Immediate }),
        0xCA => Some(Opcode { mnemonic: Mnemonic::Dex, mode: AddressingMode::Implied }),
        0xCC => Some(Opcode { mnemonic: Mnemonic::Cpy, mode: AddressingMode::Absolute }),
        0xCD => Some(Opcode { mnemonic: Mnemonic::Cmp, mode: AddressingMode::Absolute }),
        0xCE => Some(Opcode { mnemonic: Mnemonic::Dec, mode: AddressingMode::Absolute }),
        0xD0 => Some(Opcode { mnemonic: Mnemonic::Bne, mode: AddressingMode::Relative }),
        0xD1 => Some(Opcode { mnemonic: Mnemonic::Cmp, mode: AddressingMode::IndirectIndexed }),
        0xD5 => Some(Opcode { mnemonic: Mnemonic::Cmp, mode: AddressingMode::ZeroPageX }),
        0xD6 => Some(Opcode { mnemonic: Mnemonic::Dec, mode: AddressingMode::ZeroPageX }),
        0xD8 => Some(Opcode { mnemonic: Mnemonic::Cld, mode: AddressingMode::Implied }),
        0xD9 => Some(Opcode { mnemonic: Mnemonic::Cmp, mode: AddressingMode::AbsoluteY }),
        0xDD => Some(Opcode { mnemonic: Mnemonic::Cmp, mode: AddressingMode::AbsoluteX }),
        0xDE => Some(Opcode { mnemonic: Mnemonic::Dec, mode: AddressingMode::AbsoluteX }),
        0xE0 => Some(Opcode { mnemonic: Mnemonic::Cpx, mode: AddressingMode::Immediate }),
        0xE1 => Some(Opcode { mnemonic: Mnemonic::Sbc, mode: AddressingMode::IndexedIndirect }),
        0xE4 => Some(Opcode { mnemonic: Mnemonic::Cpx, mode: AddressingMode::ZeroPage }),
        0xE5 => Some(Opcode { mnemonic: Mnemonic::Sbc, mode: AddressingMode::ZeroPage }),
        0xE6 => Some(Opcode { mnemonic: Mnemonic::Inc, mode: AddressingMode::ZeroPage }),
        0xE8 => Some(Opcode { mnemonic: Mnemonic::Inx, mode: AddressingMode::Implied }),
        0xE9 => Some(Opcode { mnemonic: Mnemonic::Sbc, mode: AddressingMode::Immediate }),
        0xEA => Some(Opcode { mnemonic: Mnemonic::Nop, mode: AddressingMode::Implied }),
        0xEC => Some(Opcode { mnemonic: Mnemonic::Cpx, mode: AddressingMode::Absolute }),
        0xED => Some(Opcode { mnemonic: Mnemonic::Sbc, mode: AddressingMode::Absolute }),
        0xEE => Some(Opcode { mnemonic: Mnemonic::Inc, mode: AddressingMode::Absolute }),
        0xF0 => Some(Opcode { mnemonic: Mnemonic::Beq, mode: AddressingMode::Relative }),
        0xF1 => Some(Opcode { mnemonic: Mnemonic::Sbc, mode: AddressingMode::IndirectIndexed }),
        0xF5 => Some(Opcode { mnemonic: Mnemonic::Sbc, mode: AddressingMode::ZeroPageX }),
        0xF6 => Some(Opcode { mnemonic: Mnemonic::Inc, mode: AddressingMode::ZeroPageX }),
        0xF8 => Some(Opcode { mnemonic: Mnemonic::Sed, mode: AddressingMode::Implied }),
        0xF9 => Some(Opcode { mnemonic: Mnemonic::Sbc, mode: AddressingMode::AbsoluteY }),
        0xFD => Some(Opcode { mnemonic: Mnemonic::Sbc, mode: AddressingMode::AbsoluteX }),
        0xFE => Some(Opcode { mnemonic: Mnemonic::Inc, mode: AddressingMode::AbsoluteX }),
        _ => None,
    }
}

/// Looks an opcode byte up in the table of official opcodes.
pub fn lookup_opcode(opcode: u8) -> (r: Option<Opcode>)
    ensures
        r == opcode_table(opcode),
{
    match opcode {
        0x00 => Some(Opcode { mnemonic: Mnemonic::Brk, mode: AddressingMode::Implied }),
        0x01 => Some(Opcode { mnemonic: Mnemonic::Ora, mode: AddressingMode::IndexedIndirect }),
        0x05 => Some(Opcode { mnemonic: Mnemonic::Ora, mode: AddressingMode::ZeroPage }),
        0x06 => Some(Opcode { mnemonic: Mnemonic::Asl, mode: AddressingMode::ZeroPage }),
        0x08 => Some(Opcode { mnemonic: Mnemonic::Php, mode: AddressingMode::Implied }),
        0x09 => Some(Opcode { mnemonic: Mnemonic::Ora, mode: AddressingMode::Immediate }),
        0x0A => Some(Opcode { mnemonic: Mnemonic::Asl, mode: AddressingMode::Accumulator }),
        0x0D => Some(Opcode { mnemonic: Mnemonic::Ora, mode: AddressingMode::Absolute }),
        0x0E => Some(Opcode { mnemonic: Mnemonic::Asl, mode: AddressingMode::Absolute }),
        0x10 => Some(Opcode { mnemonic: Mnemonic::Bpl, mode: AddressingMode::Relative }),
        0x11 => Some(Opcode { mnemonic: Mnemonic::Ora, mode: AddressingMode::IndirectIndexed }),
        0x15 => Some(Opcode { mnemonic: Mnemonic::Ora, mode: AddressingMode::ZeroPageX }),
        0x16 => Some(Opcode { mnemonic: Mnemonic::Asl, mode: AddressingMode::ZeroPageX }),
        0x18 => Some(Opcode { mnemonic: Mnemonic::Clc, mode: AddressingMode::Implied }),
        0x19 => Some(Opcode { mnemonic: Mnemonic::Ora, mode: AddressingMode::AbsoluteY }),
        0x1D => Some(Opcode { mnemonic: Mnemonic::Ora, mode: AddressingMode::AbsoluteX }),
        0x1E => Some(Opcode { mnemonic: Mnemonic::Asl, mode: AddressingMode::AbsoluteX }),
        0x20 => Some(Opcode { mnemonic: Mnemonic::Jsr, mode: AddressingMode::Absolute }),
        0x21 => Some(Opcode { mnemonic: Mnemonic::And, mode: AddressingMode::IndexedIndirect }),
        0x24 => Some(Opcode { mnemonic: Mnemonic::Bit, mode: AddressingMode::ZeroPage }),
        0x25 => Some(Opcode { mnemonic: Mnemonic::And, mode: AddressingMode::ZeroPage }),
        0x26 => Some(Opcode { mnemonic: Mnemonic::Rol, mode: AddressingMode::ZeroPage }),
        0x28 => Some(Opcode { mnemonic: Mnemonic::Plp, mode: AddressingMode::Implied }),
        0x29 => Some(Opcode { mnemonic: Mnemonic::And, mode: AddressingMode::Immediate }),
        0x2A => Some(Opcode { mnemonic: Mnemonic::Rol, mode: AddressingMode::Accumulator }),
        0x2C => Some(Opcode { mnemonic: Mnemonic::Bit, mode: AddressingMode::Absolute }),
        0x2D => Some(Opcode { mnemonic: Mnemonic::And, mode: AddressingMode::Absolute }),
        0x2E => Some(Opcode { mnemonic: Mnemonic::Rol, mode: AddressingMode::Absolute }),
        0x30 => Some(Opcode { mnemonic: Mnemonic::Bmi, mode: AddressingMode::Relative }),
        0x31 => Some(Opcode { mnemonic: Mnemonic::And, mode: AddressingMode::IndirectIndexed }),
        0x35 => Some(Opcode { mnemonic: Mnemonic::And, mode: AddressingMode::ZeroPageX }),
        0x36 => Some(Opcode { mnemonic: Mnemonic::Rol, mode: AddressingMode::ZeroPageX }),
        0x38 => Some(Opcode { mnemonic: Mnemonic::Sec, mode: AddressingMode::Implied }),
        0x39 => Some(Opcode { mnemonic: Mnemonic::And, mode: AddressingMode::AbsoluteY }),
        0x3D => Some(Opcode { mnemonic: Mnemonic::And, mode: AddressingMode::AbsoluteX }),
        0x3E => Some(Opcode { mnemonic: Mnemonic::Rol, mode: AddressingMode::AbsoluteX }),
        0x40 => Some(Opcode { mnemonic: Mnemonic::Rti, mode: AddressingMode::Implied }),
        0x41 => Some(Opcode { mnemonic: Mnemonic::Eor, mode: AddressingMode::IndexedIndirect }),
        0x45 => Some(Opcode { mnemonic: Mnemonic::Eor, mode: AddressingMode::ZeroPage }),
        0x46 => Some(Opcode { mnemonic: Mnemonic::Lsr, mode: AddressingMode::ZeroPage }),
        0x48 => Some(Opcode { mnemonic: Mnemonic::Pha, mode: AddressingMode::Implied }),
        0x49 => Some(Opcode { mnemonic: Mnemonic::Eor, mode: AddressingMode::Immediate }),
        0x4A => Some(Opcode { mnemonic: Mnemonic::Lsr, mode: AddressingMode::Accumulator }),
        0x4C => Some(Opcode { mnemonic: Mnemonic::Jmp, mode: AddressingMode::Absolute }),
        0x4D => Some(Opcode { mnemonic: Mnemonic::Eor, mode: AddressingMode::Absolute }),
        0x4E => Some(Opcode { mnemonic: Mnemonic::Lsr, mode: AddressingMode::Absolute }),
        0x50 => Some(Opcode { mnemonic: Mnemonic::Bvc, mode: AddressingMode::Relative }),
        0x51 => Some(Opcode { mnemonic: Mnemonic::Eor, mode: AddressingMode::IndirectIndexed }),
        0x55 => Some(Opcode { mnemonic: Mnemonic::Eor, mode: AddressingMode::ZeroPageX }),
        0x56 => Some(Opcode { mnemonic: Mnemonic::Lsr, mode: AddressingMode::ZeroPageX }),
        0x58 => Some(Opcode { mnemonic: Mnemonic::Cli, mode: AddressingMode::Implied }),
        0x59 => Some(Opcode { mnemonic: Mnemonic::Eor, mode: AddressingMode::AbsoluteY }),
        0x5D => Some(Opcode { mnemonic: Mnemonic::Eor, mode: AddressingMode::AbsoluteX }),
        0x5E => Some(Opcode { mnemonic: Mnemonic::Lsr, mode: AddressingMode::AbsoluteX }),
        0x60 => Some(Opcode { mnemonic: Mnemonic::Rts, mode: AddressingMode::Implied }),
        0x61 => Some(Opcode { mnemonic: Mnemonic::Adc, mode: AddressingMode::IndexedIndirect }),
        0x65 => Some(Opcode { mnemonic: Mnemonic::Adc, mode: AddressingMode::ZeroPage }),
        0x66 => Some(Opcode { mnemonic: Mnemonic::Ror, mode: AddressingMode::ZeroPage }),
        0x68 => Some(Opcode { mnemonic: Mnemonic::Pla, mode: AddressingMode::Implied }),
        0x69 => Some(Opcode { mnemonic: Mnemonic::Adc, mode: AddressingMode::Immediate }),
        0x6A => Some(Opcode { mnemonic: Mnemonic::Ror, mode: AddressingMode::Accumulator }),
        0x6C => Some(Opcode { mnemonic: Mnemonic::Jmp, mode: AddressingMode::Indirect }),
        0x6D => Some(Opcode { mnemonic: Mnemonic::Adc, mode: AddressingMode::Absolute }),
        0x6E => Some(Opcode { mnemonic: Mnemonic::Ror, mode: AddressingMode::Absolute }),
        0x70 => Some(Opcode { mnemonic: Mnemonic::Bvs, mode: AddressingMode::Relative }),
        0x71 => Some(Opcode { mnemonic: Mnemonic::Adc, mode: AddressingMode::IndirectIndexed }),
        0x75 => Some(Opcode { mnemonic: Mnemonic::Adc, mode: AddressingMode::ZeroPageX }),
        0x76 => Some(Opcode { mnemonic: Mnemonic::Ror, mode: AddressingMode::ZeroPageX }),
        0x78 => Some(Opcode { mnemonic: Mnemonic::Sei, mode: AddressingMode::Implied }),
        0x79 => Some(Opcode { mnemonic: Mnemonic::Adc, mode: AddressingMode::AbsoluteY }),
        0x7D => Some(Opcode { mnemonic: Mnemonic::Adc, mode: AddressingMode::AbsoluteX }),
        0x7E => Some(Opcode { mnemonic: Mnemonic::Ror, mode: AddressingMode::AbsoluteX }),
        0x81 => Some(Opcode { mnemonic: Mnemonic::Sta, mode: AddressingMode::IndexedIndirect }),
        0x84 => Some(Opcode { mnemonic: Mnemonic::Sty, mode: AddressingMode::ZeroPage }),
        0x85 => Some(Opcode { mnemonic: Mnemonic::Sta, mode: AddressingMode::ZeroPage }),
        0x86 => Some(Opcode { mnemonic: Mnemonic::Stx, mode: AddressingMode::ZeroPage }),
        0x88 => Some(Opcode { mnemonic: Mnemonic::Dey, mode: AddressingMode::Implied }),
        0x8A => Some(Opcode { mnemonic: Mnemonic::Txa, mode: AddressingMode::Implied }),
        0x8C => Some(Opcode { mnemonic: Mnemonic::Sty, mode: AddressingMode::Absolute }),
        0x8D => Some(Opcode { mnemonic: Mnemonic::Sta, mode: AddressingMode::Absolute }),
        0x8E => Some(Opcode { mnemonic: Mnemonic::Stx, mode: AddressingMode::Absolute }),
        0x90 => Some(Opcode { mnemonic: Mnemonic::Bcc, mode: AddressingMode::Relative }),
        0x91 => Some(Opcode { mnemonic: Mnemonic::Sta, mode: AddressingMode::IndirectIndexed }),
        0x94 => Some(Opcode { mnemonic: Mnemonic::Sty, mode: AddressingMode::ZeroPageX }),
        0x95 => Some(Opcode { mnemonic: Mnemonic::Sta, mode: AddressingMode::ZeroPageX }),
        0x96 => Some(Opcode { mnemonic: Mnemonic::Stx, mode: AddressingMode::ZeroPageY }),
        0x98 => Some(Opcode { mnemonic: Mnemonic::Tya, mode: AddressingMode::Implied }),
        0x99 => Some(Opcode { mnemonic: Mnemonic::Sta, mode: AddressingMode::AbsoluteY }),
        0x9A => Some(Opcode { mnemonic: Mnemonic::Txs, mode: AddressingMode::Implied }),
        0x9D => Some(Opcode { mnemonic: Mnemonic::Sta, mode: AddressingMode::AbsoluteX }),
        0xA0 => Some(Opcode { mnemonic: Mnemonic::Ldy, mode: AddressingMode::Immediate }),
        0xA1 => Some(Opcode { mnemonic: Mnemonic::Lda, mode: AddressingMode::IndexedIndirect }),
        0xA2 => Some(Opcode { mnemonic: Mnemonic::Ldx, mode: AddressingMode::Immediate }),
        0xA4 => Some(Opcode { mnemonic: Mnemonic::Ldy, mode: AddressingMode::ZeroPage }),
        0xA5 => Some(Opcode { mnemonic: Mnemonic::Lda, mode: AddressingMode::ZeroPage }),
        0xA6 => Some(Opcode { mnemonic: Mnemonic::Ldx, mode: AddressingMode::ZeroPage }),
        0xA8 => Some(Opcode { mnemonic: Mnemonic::Tay, mode: AddressingMode::Implied }),
        0xA9 => Some(Opcode { mnemonic: Mnemonic::Lda, mode: AddressingMode::Immediate }),
        0xAA => Some(Opcode { mnemonic: Mnemonic::Tax, mode: AddressingMode::Implied }),
        0xAC => Some(Opcode { mnemonic: Mnemonic::Ldy, mode: AddressingMode::Absolute }),
        0xAD => Some(Opcode { mnemonic: Mnemonic::Lda, mode: AddressingMode::Absolute }),
        0xAE => Some(Opcode { mnemonic: Mnemonic::Ldx, mode: AddressingMode::Absolute }),
        0xB0 => Some(Opcode { mnemonic: Mnemonic::Bcs, mode: AddressingMode::Relative }),
        0xB1 => Some(Opcode { mnemonic: Mnemonic::Lda, mode: AddressingMode::IndirectIndexed }),
        0xB4 => Some(Opcode { mnemonic: Mnemonic::Ldy, mode: AddressingMode::ZeroPageX }),
        0xB5 => Some(Opcode { mnemonic: Mnemonic::Lda, mode: AddressingMode::ZeroPageX }),
        0xB6 => Some(Opcode { mnemonic: Mnemonic::Ldx, mode: AddressingMode::ZeroPageY }),
        0xB8 => Some(Opcode { mnemonic: Mnemonic::Clv, mode: AddressingMode::Implied }),
        0xB9 => Some(Opcode { mnemonic: Mnemonic::Lda, mode: AddressingMode::AbsoluteY }),
        0xBA => Some(Opcode { mnemonic: Mnemonic::Tsx, mode: AddressingMode::Implied }),
        0xBC => Some(Opcode { mnemonic: Mnemonic::Ldy, mode: AddressingMode::AbsoluteX }),
        0xBD => Some(Opcode { mnemonic: Mnemonic::Lda, mode: AddressingMode::AbsoluteX }),
        0xBE => Some(Opcode { mnemonic: Mnemonic::Ldx, mode: AddressingMode::AbsoluteY }),
        0xC0 => Some(Opcode { mnemonic: Mnemonic::Cpy, mode: AddressingMode::Immediate }),
        0xC1 => Some(Opcode { mnemonic: Mnemonic::Cmp, mode: AddressingMode::IndexedIndirect }),
        0xC4 => Some(Opcode { mnemonic: Mnemonic::Cpy, mode: AddressingMode::ZeroPage }),
        0xC5 => Some(Opcode { mnemonic: Mnemonic::Cmp, mode: AddressingMode::ZeroPage }),
        0xC6 => Some(Opcode { mnemonic: Mnemonic::Dec, mode: AddressingMode::ZeroPage }),
        0xC8 => Some(Opcode { mnemonic: Mnemonic::Iny, mode: AddressingMode::Implied }),
        0xC9 => Some(Opcode { mnemonic: Mnemonic::Cmp, mode: AddressingMode::Immediate }),
        0xCA => Some(Opcode { mnemonic: Mnemonic::Dex, mode: AddressingMode::Implied }),
        0xCC => Some(Opcode { mnemonic: Mnemonic::Cpy, mode: AddressingMode::Absolute }),
        0xCD => Some(Opcode { mnemonic: Mnemonic::Cmp, mode: AddressingMode::Absolute }),
        0xCE => Some(Opcode { mnemonic: Mnemonic::Dec, mode: AddressingMode::Absolute }),
        0xD0 => Some(Opcode { mnemonic: Mnemonic::Bne, mode: AddressingMode::Relative }),
        0xD1 => Some(Opcode { mnemonic: Mnemonic::Cmp, mode: AddressingMode::IndirectIndexed }),
        0xD5 => Some(Opcode { mnemonic: Mnemonic::Cmp, mode: AddressingMode::ZeroPageX }),
        0xD6 => Some(Opcode { mnemonic: Mnemonic::Dec, mode: AddressingMode::ZeroPageX }),
        0xD8 => Some(Opcode { mnemonic: Mnemonic::Cld, mode: AddressingMode::Implied }),
        0xD9 => Some(Opcode { mnemonic: Mnemonic::Cmp, mode: AddressingMode::AbsoluteY }),
        0xDD => Some(Opcode { mnemonic: Mnemonic::Cmp, mode: AddressingMode::AbsoluteX }),
        0xDE => Some(Opcode { mnemonic: Mnemonic::Dec, mode: AddressingMode::AbsoluteX }),
        0xE0 => Some(Opcode { mnemonic: Mnemonic::Cpx, mode: AddressingMode::Immediate }),
        0xE1 => Some(Opcode { mnemonic: Mnemonic::Sbc, mode: AddressingMode::IndexedIndirect }),
        0xE4 => Some(Opcode { mnemonic: Mnemonic::Cpx, mode: AddressingMode::ZeroPage }),
        0xE5 => Some(Opcode { mnemonic: Mnemonic::Sbc, mode: AddressingMode::ZeroPage }),
        0xE6 => Some(Opcode { mnemonic: Mnemonic::Inc, mode: AddressingMode::ZeroPage }),
        0xE8 => Some(Opcode { mnemonic: Mnemonic::Inx, mode: AddressingMode::Implied }),
        0xE9 => Some(Opcode { mnemonic: Mnemonic::Sbc, mode: AddressingMode::Immediate }),
        0xEA => Some(Opcode { mnemonic: Mnemonic::Nop, mode: AddressingMode::Implied }),
        0xEC => Some(Opcode { mnemonic: Mnemonic::Cpx, mode: AddressingMode::Absolute }),
        0xED => Some(Opcode { mnemonic: Mnemonic::Sbc, mode: AddressingMode::Absolute }),
        0xEE => Some(Opcode { mnemonic: Mnemonic::Inc, mode: AddressingMode::Absolute }),
        0xF0 => Some(Opcode { mnemonic: Mnemonic::Beq, mode: AddressingMode::Relative }),
        0xF1 => Some(Opcode { mnemonic: Mnemonic::Sbc, mode: AddressingMode::IndirectIndexed }),
        0xF5 => Some(Opcode { mnemonic: Mnemonic::Sbc, mode: AddressingMode::ZeroPageX }),
        0xF6 => Some(Opcode { mnemonic: Mnemonic::Inc, mode: AddressingMode::ZeroPageX }),
        0xF8 => Some(Opcode { mnemonic: Mnemonic::Sed, mode: AddressingMode::Implied }),
        0xF9 => Some(Opcode { mnemonic: Mnemonic::Sbc, mode: AddressingMode::AbsoluteY }),
        0xFD => Some(Opcode { mnemonic: Mnemonic::Sbc, mode: AddressingMode::AbsoluteX }),
        0xFE => Some(Opcode { mnemonic: Mnemonic::Inc, mode: AddressingMode::AbsoluteX }),
        _ => None,
    }
}

/// Decodes an official opcode byte.
pub fn decode_opcode(opcode: u8) -> (r: Opcode)
    requires
        opcode_table(opcode).is_some(),
    ensures
        opcode_table(opcode) == Some(r),
{
    lookup_opcode(opcode).unwrap()
}

/// Instruction length in bytes for each addressing mode.
pub open spec fn mode_len(mode: AddressingMode) -> u8 {
    match mode {
        AddressingMode::Implied | AddressingMode::Accumulator => 1,
        AddressingMode::Absolute | AddressingMode::AbsoluteX | AddressingMode::AbsoluteY
        | AddressingMode::Indirect => 3,
        _ => 2,
    }
}

/// Determines the length in bytes of an instruction with the given opcode.
pub fn opcode_len(opcode: &Opcode) -> (r: u8)
    ensures
        r == mode_len(opcode.mode),
        1 <= r <= 3,
{
    match opcode.mode {
        AddressingMode::Implied | AddressingMode::Accumulator => 1,
        AddressingMode::Absolute | AddressingMode::AbsoluteX | AddressingMode::AbsoluteY
        | AddressingMode::Indirect => 3,
        _ => 2,
    }
}

/// Instructions that read one operand byte and update registers from it.
pub open spec fn is_read_op(m: Mnemonic) -> bool {
    match m {
        Mnemonic::Adc | Mnemonic::And | Mnemonic::Bit | Mnemonic::Cmp | Mnemonic::Cpx
        | Mnemonic::Cpy | Mnemonic::Eor | Mnemonic::Lda | Mnemonic::Ldx | Mnemonic::Ldy
        | Mnemonic::Ora | Mnemonic::Sbc => true,
        _ => false,
    }
}

/// Instructions that store a register to memory.
pub open spec fn is_store_op(m: Mnemonic) -> bool {
    match m {
        Mnemonic::Sta | Mnemonic::Stx | Mnemonic::Sty => true,
        _ => false,
    }
}

/// Instructions that read, modify and write back their operand.
pub open spec fn is_modify_op(m: Mnemonic) -> bool {
    match m {
        Mnemonic::Asl | Mnemonic::Lsr | Mnemonic::Rol | Mnemonic::Ror | Mnemonic::Inc
        | Mnemonic::Dec => true,
        _ => false,
    }
}

/// Conditional branches.
pub open spec fn is_branch_op(m: Mnemonic) -> bool {
    match m {
        Mnemonic::Bcc | Mnemonic::Bcs | Mnemonic::Beq | Mnemonic::Bne | Mnemonic::Bmi
        | Mnemonic::Bpl | Mnemonic::Bvc | Mnemonic::Bvs => true,
        _ => false,
    }
}

/// Read instructions whose indexed addressing costs a cycle more when the
/// index carries into the next page.
pub open spec fn has_page_penalty(o: Opcode) -> bool {
    is_read_op(o.mnemonic) && (o.mode == AddressingMode::AbsoluteX
        || o.mode == AddressingMode::AbsoluteY || o.mode == AddressingMode::IndirectIndexed)
}

/// Cycles an instruction costs before any page-cross or branch penalty.
pub open spec fn spec_base_cycles(o: Opcode) -> u16 {
    if is_read_op(o.mnemonic) {
        match o.mode {
            AddressingMode::Immediate => 2,
            AddressingMode::ZeroPage => 3,
            AddressingMode::IndexedIndirect => 6,
            AddressingMode::IndirectIndexed => 5,
            _ => 4,
        }
    } else if is_store_op(o.mnemonic) {
        match o.mode {
            AddressingMode::ZeroPage => 3,
            AddressingMode::AbsoluteX | AddressingMode::AbsoluteY => 5,
            AddressingMode::IndexedIndirect | AddressingMode::IndirectIndexed => 6,
            _ => 4,
        }
    } else if is_modify_op(o.mnemonic) {
        match o.mode {
            AddressingMode::Accumulator => 2,
            AddressingMode::ZeroPage => 5,
            AddressingMode::AbsoluteX => 7,
            _ => 6,
        }
    } else {
        match o.mnemonic {
            Mnemonic::Jmp => if o.mode == AddressingMode::Indirect { 5 } else { 3 },
            Mnemonic::Jsr | Mnemonic::Rts | Mnemonic::Rti => 6,
            Mnemonic::Brk => 7,
            Mnemonic::Pha | Mnemonic::Php => 3,
            Mnemonic::Pla | Mnemonic::Plp => 4,
            _ => 2,
        }
    }
}

/// Whether the instruction reads one operand byte into the registers.
pub fn reads_operand(m: Mnemonic) -> (r: bool)
    ensures
        r == is_read_op(m),
{
    match m {
        Mnemonic::Adc | Mnemonic::And | Mnemonic::Bit | Mnemonic::Cmp | Mnemonic::Cpx
        | Mnemonic::Cpy | Mnemonic::Eor | Mnemonic::Lda | Mnemonic::Ldx | Mnemonic::Ldy
        | Mnemonic::Ora | Mnemonic::Sbc => true,
        _ => false,
    }
}

/// Whether the instruction stores a register.
pub fn stores_register(m: Mnemonic) -> (r: bool)
    ensures
        r == is_store_op(m),
{
    match m {
        Mnemonic::Sta | Mnemonic::Stx | Mnemonic::Sty => true,
        _ => false,
    }
}

/// Whether the instruction reads, modifies and writes back its operand.
pub fn modifies_operand(m: Mnemonic) -> (r: bool)
    ensures
        r == is_modify_op(m),
{
    match m {
        Mnemonic::Asl | Mnemonic::Lsr | Mnemonic::Rol | Mnemonic::Ror | Mnemonic::Inc
        | Mnemonic::Dec => true,
        _ => false,
    }
}

/// Whether the instruction is a conditional branch.
pub fn is_branch(m: Mnemonic) -> (r: bool)
    ensures
        r == is_branch_op(m),
{
    match m {
        Mnemonic::Bcc | Mnemonic::Bcs | Mnemonic::Beq | Mnemonic::Bne | Mnemonic::Bmi
        | Mnemonic::Bpl | Mnemonic::Bvc | Mnemonic::Bvs => true,
        _ => false,
    }
}

/// Whether a page cross of the operand address costs this opcode a cycle.
pub fn page_penalty(o: Opcode) -> (r: bool)
    ensures
        r == has_page_penalty(o),
{
    reads_operand(o.mnemonic) && (o.mode == AddressingMode::AbsoluteX
        || o.mode == AddressingMode::AbsoluteY || o.mode == AddressingMode::IndirectIndexed)
}

/// The base cycle cost of an opcode.
pub fn base_cycles(o: Opcode) -> (r: u16)
    ensures
        r == spec_base_cycles(o),
        2 <= r <= 7,
{
    let read = reads_operand(o.mnemonic);
    let store = stores_register(o.mnemonic);
    let modify = modifies_operand(o.mnemonic);
    if read {
        match o.mode {
            AddressingMode::Immediate => 2,
            AddressingMode::ZeroPage => 3,
            AddressingMode::IndexedIndirect => 6,
            AddressingMode::IndirectIndexed => 5,
            _ => 4,
        }
    } else if store {
        match o.mode {
            AddressingMode::ZeroPage => 3,
            AddressingMode::AbsoluteX | AddressingMode::AbsoluteY => 5,
            AddressingMode::IndexedIndirect | AddressingMode::IndirectIndexed => 6,
            _ => 4,
        }
    } else if modify {
        match o.mode {
            AddressingMode::Accumulator => 2,
            AddressingMode::ZeroPage => 5,
            AddressingMode::AbsoluteX => 7,
            _ => 6,
        }
    } else {
        match o.mnemonic {
            Mnemonic::Jmp => if o.mode == AddressingMode::Indirect { 5 } else { 3 },
            Mnemonic::Jsr | Mnemonic::Rts | Mnemonic::Rti => 6,
            Mnemonic::Brk => 7,
            Mnemonic::Pha | Mnemonic::Php => 3,
            Mnemonic::Pla | Mnemonic::Plp => 4,
            _ => 2,
        }
    }
}

pub open spec fn spec_mnemonic_name(m: Mnemonic) -> &'static str {
    match m {
        Mnemonic::Adc => "ADC",
        Mnemonic::And => "AND",
        Mnemonic::Asl => "ASL",
        Mnemonic::Bcc => "BCC",
        Mnemonic::Bcs => "BCS",
        Mnemonic::Beq => "BEQ",
        Mnemonic::Bit => "BIT",
        Mnemonic::Bmi => "BMI",
        Mnemonic::Bne => "BNE",
        Mnemonic::Bpl => "BPL",
        Mnemonic::Brk => "BRK",
        Mnemonic::Bvc => "BVC",
        Mnemonic::Bvs => "BVS",
        Mnemonic::Clc => "CLC",
        Mnemonic::Cld => "CLD",
        Mnemonic::Cli => "CLI",
        Mnemonic::Clv => "CLV",
        Mnemonic::Cmp => "CMP",
        Mnemonic::Cpx => "CPX",
        Mnemonic::Cpy => "CPY",
        Mnemonic::Dec => "DEC",
        Mnemonic::Dex => "DEX",
        Mnemonic::Dey => "DEY",
        Mnemonic::Eor => "EOR",
        Mnemonic::Inc => "INC",
        Mnemonic::Inx => "INX",
        Mnemonic::Iny => "INY",
        Mnemonic::Jmp => "JMP",
        Mnemonic::Jsr => "JSR",
        Mnemonic::Lda => "LDA",
        Mnemonic::Ldx => "LDX",
        Mnemonic::Ldy => "LDY",
        Mnemonic::Lsr => "LSR",
        Mnemonic::Nop => "NOP",
        Mnemonic::Ora => "ORA",
        Mnemonic::Pha => "PHA",
        Mnemonic::Php => "PHP",
        Mnemonic::Pla => "PLA",
        Mnemonic::Plp => "PLP",
        Mnemonic::Rol => "ROL",
        Mnemonic::Ror => "ROR",
        Mnemonic::Rti => "RTI",
        Mnemonic::Rts => "RTS",
        Mnemonic::Sbc => "SBC",
        Mnemonic::Sec => "SEC",
        Mnemonic::Sed => "SED",
        Mnemonic::Sei => "SEI",
        Mnemonic::Sta => "STA",
        Mnemonic::Stx => "STX",
        Mnemonic::Sty => "STY",
        Mnemonic::Tax => "TAX",
        Mnemonic::Tay => "TAY",
        Mnemonic::Tsx => "TSX",
        Mnemonic::Txa => "TXA",
        Mnemonic::Txs => "TXS",
        Mnemonic::Tya => "TYA",
    }
}

/// The assembler name of a mnemonic, as Nintendulator prints it.
pub fn mnemonic_name(m: Mnemonic) -> (r: &'static str)
    ensures
        r == spec_mnemonic_name(m),
{
    match m {
        Mnemonic::Adc => "ADC",
        Mnemonic::And => "AND",
        Mnemonic::Asl => "ASL",
        Mnemonic::Bcc => "BCC",
        Mnemonic::Bcs => "BCS",
        Mnemonic::Beq => "BEQ",
        Mnemonic::Bit => "BIT",
        Mnemonic::Bmi => "BMI",
        Mnemonic::Bne => "BNE",
        Mnemonic::Bpl => "BPL",
        Mnemonic::Brk => "BRK",
        Mnemonic::Bvc => "BVC",
        Mnemonic::Bvs => "BVS",
        Mnemonic::Clc => "CLC",
        Mnemonic::Cld => "CLD",
        Mnemonic::Cli => "CLI",
        Mnemonic::Clv => "CLV",
        Mnemonic::Cmp => "CMP",
        Mnemonic::Cpx => "CPX",
        Mnemonic::Cpy => "CPY",
        Mnemonic::Dec => "DEC",
        Mnemonic::Dex => "DEX",
        Mnemonic::Dey => "DEY",
        Mnemonic::Eor => "EOR",
        Mnemonic::Inc => "INC",
        Mnemonic::Inx => "INX",
        Mnemonic::Iny => "INY",
        Mnemonic::Jmp => "JMP",
        Mnemonic::Jsr => "JSR",
        Mnemonic::Lda => "LDA",
        Mnemonic::Ldx => "LDX",
        Mnemonic::Ldy => "LDY",
        Mnemonic::Lsr => "LSR",
        Mnemonic::Nop => "NOP",
        Mnemonic::Ora => "ORA",
        Mnemonic::Pha => "PHA",
        Mnemonic::Php => "PHP",
        Mnemonic::Pla => "PLA",
        Mnemonic::Plp => "PLP",
        Mnemonic::Rol => "ROL",
        Mnemonic::Ror => "ROR",
        Mnemonic::Rti => "RTI",
        Mnemonic::Rts => "RTS",
        Mnemonic::Sbc => "SBC",
        Mnemonic::Sec => "SEC",
        Mnemonic::Sed => "SED",
        Mnemonic::Sei => "SEI",
        Mnemonic::Sta => "STA",
        Mnemonic::Stx => "STX",
        Mnemonic::Sty => "STY",
        Mnemonic::Tax => "TAX",
        Mnemonic::Tay => "TAY",
        Mnemonic::Tsx => "TSX",
        Mnemonic::Txa => "TXA",
        Mnemonic::Txs => "TXS",
        Mnemonic::Tya => "TYA",
    }
}

} // verus!
