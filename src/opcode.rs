use vstd::prelude::*;

verus! {

/// The documented 6502 instructions.
#[derive(Clone, Copy, Debug, PartialEq, Eq, Structural)]
pub enum Operation {
    Adc,
    And,
    Asl,
    Bcc,
    Bcs,
    Beq,
    Bit,
    Bmi,
    Bne,
    Bpl,
    Brk,
    Bvc,
    Bvs,
    Clc,
    Cld,
    Cli,
    Clv,
    Cmp,
    Cpx,
    Cpy,
    Dec,
    Dex,
    Dey,
    Eor,
    Inc,
    Inx,
    Iny,
    Jmp,
    Jsr,
    Lda,
    Ldx,
    Ldy,
    Lsr,
    Nop,
    Ora,
    Pha,
    Php,
    Pla,
    Plp,
    Rol,
    Ror,
    Rti,
    Rts,
    Sbc,
    Sec,
    Sed,
    Sei,
    Sta,
    Stx,
    Sty,
    Tax,
    Tay,
    Tsx,
    Txa,
    Txs,
    Tya,
}

/// How an instruction finds its operand.
#[derive(Clone, Copy, Debug, PartialEq, Eq, Structural)]
pub enum AddressMode {
    /// No operand.
    Implied,
    /// The operand is the accumulator.
    Accumulator,
    /// The operand is the byte after the opcode.
    Immediate,
    /// One-byte address in page zero.
    ZeroPage,
    /// One-byte address plus X, wrapping within page zero.
    ZeroPageX,
    /// One-byte address plus Y, wrapping within page zero.
    ZeroPageY,
    /// Two-byte address, low byte first.
    Absolute,
    /// Two-byte address plus X, wrapping in 16 bits.
    AbsoluteX,
    /// Two-byte address plus Y, wrapping in 16 bits.
    AbsoluteY,
    /// Two-byte pointer to the target, with the page-boundary quirk.
    Indirect,
    /// Page-zero pointer at the operand plus X.
    IndirectX,
    /// Page-zero pointer at the operand, then plus Y.
    IndirectY,
    /// Signed displacement from the address after the operand.
    Relative,
}

/// Number of operand bytes that follow the opcode in each mode.
pub open spec fn operand_len(mode: AddressMode) -> nat {
    match mode {
        AddressMode::Implied | AddressMode::Accumulator => 0,
        AddressMode::Absolute | AddressMode::AbsoluteX | AddressMode::AbsoluteY
        | AddressMode::Indirect => 2,
        _ => 1,
    }
}

/// The official opcode table: the instruction and mode of each defined opcode byte.
pub open spec fn decoded(opcode: u8) -> Option<(Operation, AddressMode)> {
    match opcode {
        0x00 => Some((Operation::Brk, AddressMode::Implied)),
        0x01 => Some((Operation::Ora, AddressMode::IndirectX)),
        0x05 => Some((Operation::Ora, AddressMode::ZeroPage)),
        0x06 => Some((Operation::Asl, AddressMode::ZeroPage)),
        0x08 => Some((Operation::Php, AddressMode::Implied)),
        0x09 => Some((Operation::Ora, AddressMode::Immediate)),
        0x0a => Some((Operation::Asl, AddressMode::Accumulator)),
        0x0d => Some((Operation::Ora, AddressMode::Absolute)),
        0x0e => Some((Operation::Asl, AddressMode::Absolute)),
        0x10 => Some((Operation::Bpl, AddressMode::Relative)),
        0x11 => Some((Operation::Ora, AddressMode::IndirectY)),
        0x15 => Some((Operation::Ora, AddressMode::ZeroPageX)),
        0x16 => Some((Operation::Asl, AddressMode::ZeroPageX)),
        0x18 => Some((Operation::Clc, AddressMode::Implied)),
        0x19 => Some((Operation::Ora, AddressMode::AbsoluteY)),
        0x1d => Some((Operation::Ora, AddressMode::AbsoluteX)),
        0x1e => Some((Operation::Asl, AddressMode::AbsoluteX)),
        0x20 => Some((Operation::Jsr, AddressMode::Absolute)),
        0x21 => Some((Operation::And, AddressMode::IndirectX)),
        0x24 => Some((Operation::Bit, AddressMode::ZeroPage)),
        0x25 => Some((Operation::And, AddressMode::ZeroPage)),
        0x26 => Some((Operation::Rol, AddressMode::ZeroPage)),
        0x28 => Some((Operation::Plp, AddressMode::Implied)),
        0x29 => Some((Operation::And, AddressMode::Immediate)),
        0x2a => Some((Operation::Rol, AddressMode::Accumulator)),
        0x2c => Some((Operation::Bit, AddressMode::Absolute)),
        0x2d => Some((Operation::And, AddressMode::Absolute)),
        0x2e => Some((Operation::Rol, AddressMode::Absolute)),
        0x30 => Some((Operation::Bmi, AddressMode::Relative)),
        0x31 => Some((Operation::And, AddressMode::IndirectY)),
        0x35 => Some((Operation::And, AddressMode::ZeroPageX)),
        0x36 => Some((Operation::Rol, AddressMode::ZeroPageX)),
        0x38 => Some((Operation::Sec, AddressMode::Implied)),
        0x39 => Some((Operation::And, AddressMode::AbsoluteY)),
        0x3d => Some((Operation::And, AddressMode::AbsoluteX)),
        0x3e => Some((Operation::Rol, AddressMode::AbsoluteX)),
        0x40 => Some((Operation::Rti, AddressMode::Implied)),
        0x41 => Some((Operation::Eor, AddressMode::IndirectX)),
        0x45 => Some((Operation::Eor, AddressMode::ZeroPage)),
        0x46 => Some((Operation::Lsr, AddressMode::ZeroPage)),
        0x48 => Some((Operation::Pha, AddressMode::Implied)),
        0x49 => Some((Operation::Eor, AddressMode::Immediate)),
        0x4a => Some((Operation::Lsr, AddressMode::Accumulator)),
        0x4c => Some((Operation::Jmp, AddressMode::Absolute)),
        0x4d => Some((Operation::Eor, AddressMode::Absolute)),
        0x4e => Some((Operation::Lsr, AddressMode::Absolute)),
        0x50 => Some((Operation::Bvc, AddressMode::Relative)),
        0x51 => Some((Operation::Eor, AddressMode::IndirectY)),
        0x55 => Some((Operation::Eor, AddressMode::ZeroPageX)),
        0x56 => Some((Operation::Lsr, AddressMode::ZeroPageX)),
        0x58 => Some((Operation::Cli, AddressMode::Implied)),
        0x59 => Some((Operation::Eor, AddressMode::AbsoluteY)),
        0x5d => Some((Operation::Eor, AddressMode::AbsoluteX)),
        0x5e => Some((Operation::Lsr, AddressMode::AbsoluteX)),
        0x60 => Some((Operation::Rts, AddressMode::Implied)),
        0x61 => Some((Operation::Adc, AddressMode::IndirectX)),
        0x65 => Some((Operation::Adc, AddressMode::ZeroPage)),
        0x66 => Some((Operation::Ror, AddressMode::ZeroPage)),
        0x68 => Some((Operation::Pla, AddressMode::Implied)),
        0x69 => Some((Operation::Adc, AddressMode::Immediate)),
        0x6a => Some((Operation::Ror, AddressMode::Accumulator)),
        0x6c => Some((Operation::Jmp, AddressMode::Indirect)),
        0x6d => Some((Operation::Adc, AddressMode::Absolute)),
        0x6e => Some((Operation::Ror, AddressMode::Absolute)),
        0x70 => Some((Operation::Bvs, AddressMode::Relative)),
        0x71 => Some((Operation::Adc, AddressMode::IndirectY)),
        0x75 => Some((Operation::Adc, AddressMode::ZeroPageX)),
        0x76 => Some((Operation::Ror, AddressMode::ZeroPageX)),
        0x78 => Some((Operation::Sei, AddressMode::Implied)),
        0x79 => Some((Operation::Adc, AddressMode::AbsoluteY)),
        0x7d => Some((Operation::Adc, AddressMode::AbsoluteX)),
        0x7e => Some((Operation::Ror, AddressMode::AbsoluteX)),
        0x81 => Some((Operation::Sta, AddressMode::IndirectX)),
        0x84 => Some((Operation::Sty, AddressMode::ZeroPage)),
        0x85 => Some((Operation::Sta, AddressMode::ZeroPage)),
        0x86 => Some((Operation::Stx, AddressMode::ZeroPage)),
        0x88 => Some((Operation::Dey, AddressMode::Implied)),
        0x8a => Some((Operation::Txa, AddressMode::Implied)),
        0x8c => Some((Operation::Sty, AddressMode::Absolute)),
        0x8d => Some((Operation::Sta, AddressMode::Absolute)),
        0x8e => Some((Operation::Stx, AddressMode::Absolute)),
        0x90 => Some((Operation::Bcc, AddressMode::Relative)),
        0x91 => Some((Operation::Sta, AddressMode::IndirectY)),
        0x94 => Some((Operation::Sty, AddressMode::ZeroPageX)),
        0x95 => Some((Operation::Sta, AddressMode::ZeroPageX)),
        0x96 => Some((Operation::Stx, AddressMode::ZeroPageY)),
        0x98 => Some((Operation::Tya, AddressMode::Implied)),
        0x99 => Some((Operation::Sta, AddressMode::AbsoluteY)),
        0x9a => Some((Operation::Txs, AddressMode::Implied)),
        0x9d => Some((Operation::Sta, AddressMode::AbsoluteX)),
        0xa0 => Some((Operation::Ldy, AddressMode::Immediate)),
        0xa1 => Some((Operation::Lda, AddressMode::IndirectX)),
        0xa2 => Some((Operation::Ldx, AddressMode::Immediate)),
        0xa4 => Some((Operation::Ldy, AddressMode::ZeroPage)),
        0xa5 => Some((Operation::Lda, AddressMode::ZeroPage)),
        0xa6 => Some((Operation::Ldx, AddressMode::ZeroPage)),
        0xa8 => Some((Operation::Tay, AddressMode::Implied)),
        0xa9 => Some((Operation::Lda, AddressMode::Immediate)),
        0xaa => Some((Operation::Tax, AddressMode::Implied)),
        0xac => Some((Operation::Ldy, AddressMode::Absolute)),
        0xad => Some((Operation::Lda, AddressMode::Absolute)),
        0xae => Some((Operation::Ldx, AddressMode::Absolute)),
        0xb0 => Some((Operation::Bcs, AddressMode::Relative)),
        0xb1 => Some((Operation::Lda, AddressMode::IndirectY)),
        0xb4 => Some((Operation::Ldy, AddressMode::ZeroPageX)),
        0xb5 => Some((Operation::Lda, AddressMode::ZeroPageX)),
        0xb6 => Some((Operation::Ldx, AddressMode::ZeroPageY)),
        0xb8 => Some((Operation::Clv, AddressMode::Implied)),
        0xb9 => Some((Operation::Lda, AddressMode::AbsoluteY)),
        0xba => Some((Operation::Tsx, AddressMode::Implied)),
        0xbc => Some((Operation::Ldy, AddressMode::AbsoluteX)),
        0xbd => Some((Operation::Lda, AddressMode::AbsoluteX)),
        0xbe => Some((Operation::Ldx, AddressMode::AbsoluteY)),
        0xc0 => Some((Operation::Cpy, AddressMode::Immediate)),
        0xc1 => Some((Operation::Cmp, AddressMode::IndirectX)),
        0xc4 => Some((Operation::Cpy, AddressMode::ZeroPage)),
        0xc5 => Some((Operation::Cmp, AddressMode::ZeroPage)),
        0xc6 => Some((Operation::Dec, AddressMode::ZeroPage)),
        0xc8 => Some((Operation::Iny, AddressMode::Implied)),
        0xc9 => Some((Operation::Cmp, AddressMode::Immediate)),
        0xca => Some((Operation::Dex, AddressMode::Implied)),
        0xcc => Some((Operation::Cpy, AddressMode::Absolute)),
        0xcd => Some((Operation::Cmp, AddressMode::Absolute)),
        0xce => Some((Operation::Dec, AddressMode::Absolute)),
        0xd0 => Some((Operation::Bne, AddressMode::Relative)),
        0xd1 => Some((Operation::Cmp, AddressMode::IndirectY)),
        0xd5 => Some((Operation::Cmp, AddressMode::ZeroPageX)),
        0xd6 => Some((Operation::Dec, AddressMode::ZeroPageX)),
        0xd8 => Some((Operation::Cld, AddressMode::Implied)),
        0xd9 => Some((Operation::Cmp, AddressMode::AbsoluteY)),
        0xdd => Some((Operation::Cmp, AddressMode::AbsoluteX)),
        0xde => Some((Operation::Dec, AddressMode::AbsoluteX)),
        0xe0 => Some((Operation::Cpx, AddressMode::Immediate)),
        0xe1 => Some((Operation::Sbc, AddressMode::IndirectX)),
        0xe4 => Some((Operation::Cpx, AddressMode::ZeroPage)),
        0xe5 => Some((Operation::Sbc, AddressMode::ZeroPage)),
        0xe6 => Some((Operation::Inc, AddressMode::ZeroPage)),
        0xe8 => Some((Operation::Inx, AddressMode::Implied)),
        0xe9 => Some((Operation::Sbc, AddressMode::Immediate)),
        0xea => Some((Operation::Nop, AddressMode::Implied)),
        0xec => Some((Operation::Cpx, AddressMode::Absolute)),
        0xed => Some((Operation::Sbc, AddressMode::Absolute)),
        0xee => Some((Operation::Inc, AddressMode::Absolute)),
        0xf0 => Some((Operation::Beq, AddressMode::Relative)),
        0xf1 => Some((Operation::Sbc, AddressMode::IndirectY)),
        0xf5 => Some((Operation::Sbc, AddressMode::ZeroPageX)),
        0xf6 => Some((Operation::Inc, AddressMode::ZeroPageX)),
        0xf8 => Some((Operation::Sed, AddressMode::Implied)),
        0xf9 => Some((Operation::Sbc, AddressMode::AbsoluteY)),
        0xfd => Some((Operation::Sbc, AddressMode::AbsoluteX)),
        0xfe => Some((Operation::Inc, AddressMode::AbsoluteX)),

        _ => None,
    }
}

/// Looks an opcode byte up in the official table; `None` for undefined opcodes.
pub fn decode(opcode: u8) -> (r: Option<(Operation, AddressMode)>)
    ensures
        r == decoded(opcode),
{
    match opcode {
        0x00 => Some((Operation::Brk, AddressMode::Implied)),
        0x01 => Some((Operation::Ora, AddressMode::IndirectX)),
        0x05 => Some((Operation::Ora, AddressMode::ZeroPage)),
        0x06 => Some((Operation::Asl, AddressMode::ZeroPage)),
        0x08 => Some((Operation::Php, AddressMode::Implied)),
        0x09 => Some((Operation::Ora, AddressMode::Immediate)),
        0x0a => Some((Operation::Asl, AddressMode::Accumulator)),
        0x0d => Some((Operation::Ora, AddressMode::Absolute)),
        0x0e => Some((Operation::Asl, AddressMode::Absolute)),
        0x10 => Some((Operation::Bpl, AddressMode::Relative)),
        0x11 => Some((Operation::Ora, AddressMode::IndirectY)),
        0x15 => Some((Operation::Ora, AddressMode::ZeroPageX)),
        0x16 => Some((Operation::Asl, AddressMode::ZeroPageX)),
        0x18 => Some((Operation::Clc, AddressMode::Implied)),
        0x19 => Some((Operation::Ora, AddressMode::AbsoluteY)),
        0x1d => Some((Operation::Ora, AddressMode::AbsoluteX)),
        0x1e => Some((Operation::Asl, AddressMode::AbsoluteX)),
        0x20 => Some((Operation::Jsr, AddressMode::Absolute)),
        0x21 => Some((Operation::And, AddressMode::IndirectX)),
        0x24 => Some((Operation::Bit, AddressMode::ZeroPage)),
        0x25 => Some((Operation::And, AddressMode::ZeroPage)),
        0x26 => Some((Operation::Rol, AddressMode::ZeroPage)),
        0x28 => Some((Operation::Plp, AddressMode::Implied)),
        0x29 => Some((Operation::And, AddressMode::Immediate)),
        0x2a => Some((Operation::Rol, AddressMode::Accumulator)),
        0x2c => Some((Operation::Bit, AddressMode::Absolute)),
        0x2d => Some((Operation::And, AddressMode::Absolute)),
        0x2e => Some((Operation::Rol, AddressMode::Absolute)),
        0x30 => Some((Operation::Bmi, AddressMode::Relative)),
        0x31 => Some((Operation::And, AddressMode::IndirectY)),
        0x35 => Some((Operation::And, AddressMode::ZeroPageX)),
        0x36 => Some((Operation::Rol, AddressMode::ZeroPageX)),
        0x38 => Some((Operation::Sec, AddressMode::Implied)),
        0x39 => Some((Operation::And, AddressMode::AbsoluteY)),
        0x3d => Some((Operation::And, AddressMode::AbsoluteX)),
        0x3e => Some((Operation::Rol, AddressMode::AbsoluteX)),
        0x40 => Some((Operation::Rti, AddressMode::Implied)),
        0x41 => Some((Operation::Eor, AddressMode::IndirectX)),
        0x45 => Some((Operation::Eor, AddressMode::ZeroPage)),
        0x46 => Some((Operation::Lsr, AddressMode::ZeroPage)),
        0x48 => Some((Operation::Pha, AddressMode::Implied)),
        0x49 => Some((Operation::Eor, AddressMode::Immediate)),
        0x4a => Some((Operation::Lsr, AddressMode::Accumulator)),
        0x4c => Some((Operation::Jmp, AddressMode::Absolute)),
        0x4d => Some((Operation::Eor, AddressMode::Absolute)),
        0x4e => Some((Operation::Lsr, AddressMode::Absolute)),
        0x50 => Some((Operation::Bvc, AddressMode::Relative)),
        0x51 => Some((Operation::Eor, AddressMode::IndirectY)),
        0x55 => Some((Operation::Eor, AddressMode::ZeroPageX)),
        0x56 => Some((Operation::Lsr, AddressMode::ZeroPageX)),
        0x58 => Some((Operation::Cli, AddressMode::Implied)),
        0x59 => Some((Operation::Eor, AddressMode::AbsoluteY)),
        0x5d => Some((Operation::Eor, AddressMode::AbsoluteX)),
        0x5e => Some((Operation::Lsr, AddressMode::AbsoluteX)),
        0x60 => Some((Operation::Rts, AddressMode::Implied)),
        0x61 => Some((Operation::Adc, AddressMode::IndirectX)),
        0x65 => Some((Operation::Adc, AddressMode::ZeroPage)),
        0x66 => Some((Operation::Ror, AddressMode::ZeroPage)),
        0x68 => Some((Operation::Pla, AddressMode::Implied)),
        0x69 => Some((Operation::Adc, AddressMode::Immediate)),
        0x6a => Some((Operation::Ror, AddressMode::Accumulator)),
        0x6c => Some((Operation::Jmp, AddressMode::Indirect)),
        0x6d => Some((Operation::Adc, AddressMode::Absolute)),
        0x6e => Some((Operation::Ror, AddressMode::Absolute)),
        0x70 => Some((Operation::Bvs, AddressMode::Relative)),
        0x71 => Some((Operation::Adc, AddressMode::IndirectY)),
        0x75 => Some((Operation::Adc, AddressMode::ZeroPageX)),
        0x76 => Some((Operation::Ror, AddressMode::ZeroPageX)),
        0x78 => Some((Operation::Sei, AddressMode::Implied)),
        0x79 => Some((Operation::Adc, AddressMode::AbsoluteY)),
        0x7d => Some((Operation::Adc, AddressMode::AbsoluteX)),
        0x7e => Some((Operation::Ror, AddressMode::AbsoluteX)),
        0x81 => Some((Operation::Sta, AddressMode::IndirectX)),
        0x84 => Some((Operation::Sty, AddressMode::ZeroPage)),
        0x85 => Some((Operation::Sta, AddressMode::ZeroPage)),
        0x86 => Some((Operation::Stx, AddressMode::ZeroPage)),
        0x88 => Some((Operation::Dey, AddressMode::Implied)),
        0x8a => Some((Operation::Txa, AddressMode::Implied)),
        0x8c => Some((Operation::Sty, AddressMode::Absolute)),
        0x8d => Some((Operation::Sta, AddressMode::Absolute)),
        0x8e => Some((Operation::Stx, AddressMode::Absolute)),
        0x90 => Some((Operation::Bcc, AddressMode::Relative)),
        0x91 => Some((Operation::Sta, AddressMode::IndirectY)),
        0x94 => Some((Operation::Sty, AddressMode::ZeroPageX)),
        0x95 => Some((Operation::Sta, AddressMode::ZeroPageX)),
        0x96 => Some((Operation::Stx, AddressMode::ZeroPageY)),
        0x98 => Some((Operation::Tya, AddressMode::Implied)),
        0x99 => Some((Operation::Sta, AddressMode::AbsoluteY)),
        0x9a => Some((Operation::Txs, AddressMode::Implied)),
        0x9d => Some((Operation::Sta, AddressMode::AbsoluteX)),
        0xa0 => Some((Operation::Ldy, AddressMode::Immediate)),
        0xa1 => Some((Operation::Lda, AddressMode::IndirectX)),
        0xa2 => Some((Operation::Ldx, AddressMode::Immediate)),
        0xa4 => Some((Operation::Ldy, AddressMode::ZeroPage)),
        0xa5 => Some((Operation::Lda, AddressMode::ZeroPage)),
        0xa6 => Some((Operation::Ldx, AddressMode::ZeroPage)),
        0xa8 => Some((Operation::Tay, AddressMode::Implied)),
        0xa9 => Some((Operation::Lda, AddressMode::Immediate)),
        0xaa => Some((Operation::Tax, AddressMode::Implied)),
        0xac => Some((Operation::Ldy, AddressMode::Absolute)),
        0xad => Some((Operation::Lda, AddressMode::Absolute)),
        0xae => Some((Operation::Ldx, AddressMode::Absolute)),
        0xb0 => Some((Operation::Bcs, AddressMode::Relative)),
        0xb1 => Some((Operation::Lda, AddressMode::IndirectY)),
        0xb4 => Some((Operation::Ldy, AddressMode::ZeroPageX)),
        0xb5 => Some((Operation::Lda, AddressMode::ZeroPageX)),
        0xb6 => Some((Operation::Ldx, AddressMode::ZeroPageY)),
        0xb8 => Some((Operation::Clv, AddressMode::Implied)),
        0xb9 => Some((Operation::Lda, AddressMode::AbsoluteY)),
        0xba => Some((Operation::Tsx, AddressMode::Implied)),
        0xbc => Some((Operation::Ldy, AddressMode::AbsoluteX)),
        0xbd => Some((Operation::Lda, AddressMode::AbsoluteX)),
        0xbe => Some((Operation::Ldx, AddressMode::AbsoluteY)),
        0xc0 => Some((Operation::Cpy, AddressMode::Immediate)),
        0xc1 => Some((Operation::Cmp, AddressMode::IndirectX)),
        0xc4 => Some((Operation::Cpy, AddressMode::ZeroPage)),
        0xc5 => Some((Operation::Cmp, AddressMode::ZeroPage)),
        0xc6 => Some((Operation::Dec, AddressMode::ZeroPage)),
        0xc8 => Some((Operation::Iny, AddressMode::Implied)),
        0xc9 => Some((Operation::Cmp, AddressMode::Immediate)),
        0xca => Some((Operation::Dex, AddressMode::Implied)),
        0xcc => Some((Operation::Cpy, AddressMode::Absolute)),
        0xcd => Some((Operation::Cmp, AddressMode::Absolute)),
        0xce => Some((Operation::Dec, AddressMode::Absolute)),
        0xd0 => Some((Operation::Bne, AddressMode::Relative)),
        0xd1 => Some((Operation::Cmp, AddressMode::IndirectY)),
        0xd5 => Some((Operation::Cmp, AddressMode::ZeroPageX)),
        0xd6 => Some((Operation::Dec, AddressMode::ZeroPageX)),
        0xd8 => Some((Operation::Cld, AddressMode::Implied)),
        0xd9 => Some((Operation::Cmp, AddressMode::AbsoluteY)),
        0xdd => Some((Operation::Cmp, AddressMode::AbsoluteX)),
        0xde => Some((Operation::Dec, AddressMode::AbsoluteX)),
        0xe0 => Some((Operation::Cpx, AddressMode::Immediate)),
        0xe1 => Some((Operation::Sbc, AddressMode::IndirectX)),
        0xe4 => Some((Operation::Cpx, AddressMode::ZeroPage)),
        0xe5 => Some((Operation::Sbc, AddressMode::ZeroPage)),
        0xe6 => Some((Operation::Inc, AddressMode::ZeroPage)),
        0xe8 => Some((Operation::Inx, AddressMode::Implied)),
        0xe9 => Some((Operation::Sbc, AddressMode::Immediate)),
        0xea => Some((Operation::Nop, AddressMode::Implied)),
        0xec => Some((Operation::Cpx, AddressMode::Absolute)),
        0xed => Some((Operation::Sbc, AddressMode::Absolute)),
        0xee => Some((Operation::Inc, AddressMode::Absolute)),
        0xf0 => Some((Operation::Beq, AddressMode::Relative)),
        0xf1 => Some((Operation::Sbc, AddressMode::IndirectY)),
        0xf5 => Some((Operation::Sbc, AddressMode::ZeroPageX)),
        0xf6 => Some((Operation::Inc, AddressMode::ZeroPageX)),
        0xf8 => Some((Operation::Sed, AddressMode::Implied)),
        0xf9 => Some((Operation::Sbc, AddressMode::AbsoluteY)),
        0xfd => Some((Operation::Sbc, AddressMode::AbsoluteX)),
        0xfe => Some((Operation::Inc, AddressMode::AbsoluteX)),

        _ => None,
    }
}

} // verus!
