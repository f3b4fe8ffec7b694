use vstd::prelude::*;

use crate::utils::{bit_set, with_bit, get_bit_at, lemma_with_bit, ZERO, NEGATIVE};

verus! {

/// The six architectural registers of the processor.
#[derive(Clone, Copy, Debug, PartialEq, Eq, Structural)]
pub struct Registers {
    /// Accumulator.
    pub a: u8,
    /// Index register X.
    pub x: u8,
    /// Index register Y.
    pub y: u8,
    /// Program counter.
    pub pc: u16,
    /// Stack pointer: an offset into page one.
    pub sp: u8,
    /// Packed status flags.
    pub p: u8,
}

/// Power-on program counter.
pub const RESET_PC: u16 = 0x8000;

/// Power-on stack pointer.
pub const RESET_SP: u8 = 0xfd;

/// Power-on status register: I, B and the unused bit set.
pub const RESET_P: u8 = 0x34;

impl Registers {
    /// Whether status bit `bit` is set.
    pub open spec fn flag(self, bit: u8) -> bool {
        bit_set(self.p, bit)
    }

    /// The registers with status bit `bit` forced to `on`.
    pub open spec fn with_flag(self, bit: u8, on: bool) -> Registers {
        Registers { p: with_bit(self.p, bit, on), ..self }
    }

    /// The registers with Z and N describing `value`.
    pub open spec fn with_nz(self, value: u8) -> Registers {
        self.with_flag(ZERO, value == 0).with_flag(NEGATIVE, bit_set(value, 7))
    }

    /// The registers with another program counter.
    pub open spec fn with_pc(self, pc: u16) -> Registers {
        Registers { pc, ..self }
    }

    /// The power-on register file.
    pub open spec fn new_spec() -> Registers {
        Registers { a: 0, x: 0, y: 0, pc: RESET_PC, sp: RESET_SP, p: RESET_P }
    }

    /// Power-on register file: A, X and Y zero, PC at the reset address, SP 0xFD, P 0x34.
    pub fn new() -> (r: Registers)
        ensures
            r == Registers::new_spec(),
    {
        Registers { a: 0x0, x: 0x0, y: 0x0, pc: RESET_PC, sp: RESET_SP, p: RESET_P }
    }

    /// Reads one status bit.
    pub fn get_flag(&self, bit: u8) -> (r: bool)
        requires
            bit < 8,
        ensures
            r == self.flag(bit),
    {
        get_bit_at(self.p, bit) == 1
    }

    /// Forces one status bit, leaving the rest of the register file alone.
    pub fn set_flag(&mut self, bit: u8, on: bool)
        requires
            bit < 8,
        ensures
            *final(self) == old(self).with_flag(bit, on),
    {
        if on {
            self.p = self.p | (1u8 << bit);
        } else {
            self.p = self.p & !(1u8 << bit);
        }
    }

    /// Sets N from bit 7 of `value` and Z from `value == 0`.
    pub fn set_nz(&mut self, value: u8)
        ensures
            *final(self) == old(self).with_nz(value),
    {
        self.set_flag(ZERO, value == 0);
        let negative = get_bit_at(value, NEGATIVE) == 1;
        self.set_flag(NEGATIVE, negative);
    }
}

/// After `with_nz(v)`, N is bit 7 of `v`, Z is `v == 0`, and the other flags are kept.
pub proof fn lemma_with_nz(r: Registers, value: u8, bit: u8)
    requires
        bit < 8,
    ensures
        r.with_nz(value).flag(bit) == (if bit == NEGATIVE {
            value >= 0x80
        } else if bit == ZERO {
            value == 0
        } else {
            r.flag(bit)
        }),
{
    lemma_with_bit(r.p, ZERO, value == 0, bit);
    lemma_with_bit(with_bit(r.p, ZERO, value == 0), NEGATIVE, bit_set(value, 7), bit);
    crate::utils::lemma_sign_bit(value);
}

} // verus!
