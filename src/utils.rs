use vstd::prelude::*;

verus! {

/// Bit position of the carry flag in the status register.
pub const CARRY: u8 = 0;

/// Bit position of the zero flag.
pub const ZERO: u8 = 1;

/// Bit position of the IRQ-disable flag.
pub const INTERRUPT: u8 = 2;

/// Bit position of the decimal-mode flag (stored, never used by the ALU).
pub const DECIMAL: u8 = 3;

/// Bit position of the break marker, present only in pushed copies of P.
pub const BREAK: u8 = 4;

/// Bit position of the unused flag, conventionally 1 in pushed copies of P.
pub const UNUSED: u8 = 5;

/// Bit position of the signed-overflow flag.
pub const OVERFLOW: u8 = 6;

/// Bit position of the negative flag.
pub const NEGATIVE: u8 = 7;

/// A bit value of one.
pub const SET: u8 = 1;

/// A bit value of zero.
pub const CLEAR: u8 = 0;

/// Whether bit `index` of `value` is one.
pub open spec fn bit_set(value: u8, index: u8) -> bool {
    (value >> index) & 1u8 == 1u8
}

/// `value` with bit `index` forced to `on`, every other bit kept.
pub open spec fn with_bit(value: u8, index: u8, on: bool) -> u8 {
    if on {
        value | (1u8 << index)
    } else {
        value & !(1u8 << index)
    }
}

/// Bit `index` of `value`, as 0 or 1.
pub fn get_bit_at(value: u8, index: u8) -> (r: u8)
    requires
        index < 8,
    ensures
        r == (if bit_set(value, index) { 1u8 } else { 0u8 }),
{
    let r = (value >> index) & 1;
    assert(r == (if (value >> index) & 1u8 == 1u8 { 1u8 } else { 0u8 })) by (bit_vector)
        requires
            r == (value >> index) & 1u8,
    ;
    r
}

/// Forcing one bit leaves it as forced and every other bit as it was.
pub proof fn lemma_with_bit(value: u8, index: u8, on: bool, other: u8)
    requires
        index < 8,
        other < 8,
    ensures
        bit_set(with_bit(value, index, on), other) == (if other == index {
            on
        } else {
            bit_set(value, other)
        }),
{
    if on {
        assert(((value | (1u8 << index)) >> other) & 1u8 == 1u8 <==> (if other == index {
            true
        } else {
            (value >> other) & 1u8 == 1u8
        })) by (bit_vector)
            requires
                index < 8,
                other < 8,
        ;
    } else {
        assert(((value & !(1u8 << index)) >> other) & 1u8 == 1u8 <==> (if other == index {
            false
        } else {
            (value >> other) & 1u8 == 1u8
        })) by (bit_vector)
            requires
                index < 8,
                other < 8,
        ;
    }
}

/// Bit 7 of a byte is one exactly when the byte is at least 0x80.
pub proof fn lemma_sign_bit(value: u8)
    ensures
        bit_set(value, 7) == (value >= 0x80),
{
    assert(((value >> 7u8) & 1u8 == 1u8) == (value >= 0x80u8)) by (bit_vector);
}

} // verus!
