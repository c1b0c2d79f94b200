//! Single-bit operations on 32-bit register values.
//!
//! A register value is an in-memory `u32`; whether it denotes a live
//! hardware register is the caller's concern. Every operation demands a bit
//! index below 32: an out-of-range shift amount is a caller error, never
//! checked at run time by the hardware these values describe.

use vstd::prelude::*;

verus! {

/// The value with bit `n` forced to one.
pub open spec fn spec_set_bit(v: u32, n: u32) -> u32 {
    v | (1u32 << n)
}

/// The value with bit `n` forced to zero.
pub open spec fn spec_clear_bit(v: u32, n: u32) -> u32 {
    v & !(1u32 << n)
}

/// The value with bit `n` inverted.
pub open spec fn spec_toggle_bit(v: u32, n: u32) -> u32 {
    v ^ (1u32 << n)
}

/// Whether bit `n` of `v` is one.
pub open spec fn spec_bit_set(v: u32, n: u32) -> bool {
    v & (1u32 << n) != 0
}

/// Bit `n` of `v` as the number zero or one.
pub open spec fn spec_read_bit(v: u32, n: u32) -> u8 {
    ((v >> n) & 1) as u8
}

/// Force bit `bit` of `*register` to one.
pub fn set_bit(register: &mut u32, bit: u8)
    requires
        bit < 32,
    ensures
        *final(register) == spec_set_bit(*old(register), bit as u32),
{
    *register = *register | (1u32 << bit);
}

/// Force bit `bit` of `*register` to zero.
pub fn clear_bit(register: &mut u32, bit: u8)
    requires
        bit < 32,
    ensures
        *final(register) == spec_clear_bit(*old(register), bit as u32),
{
    *register = *register & !(1u32 << bit);
}

/// Invert bit `bit` of `*register`.
pub fn toggle_bit(register: &mut u32, bit: u8)
    requires
        bit < 32,
    ensures
        *final(register) == spec_toggle_bit(*old(register), bit as u32),
{
    *register = *register ^ (1u32 << bit);
}

/// Whether bit `bit` of `register` is one.
pub fn is_bit_set(register: u32, bit: u8) -> (r: bool)
    requires
        bit < 32,
    ensures
        r == spec_bit_set(register, bit as u32),
{
    (register & (1u32 << bit)) != 0
}

/// Bit `bit` of `register`, extracted as zero or one.
pub fn read_bit(register: u32, bit: u8) -> (r: u8)
    requires
        bit < 32,
    ensures
        r == spec_read_bit(register, bit as u32),
        r == 0 || r == 1,
        (r == 1) == spec_bit_set(register, bit as u32),
{
    let r = ((register >> bit) & 1) as u8;
    proof {
        let n = bit as u32;
        assert(((register >> n) & 1) as u8 == 0 || ((register >> n) & 1) as u8 == 1)
            by (bit_vector);
        assert((((register >> n) & 1) as u8 == 1) == (register & (1u32 << n) != 0))
            by (bit_vector)
            requires
                n < 32,
        ;
    }
    r
}

/// Clearing a bit that was just set leaves the same value as clearing it
/// directly: setting carries no information past a clear of the same bit.
pub proof fn lemma_clear_cancels_set(v: u32, n: u32)
    requires
        n < 32,
    ensures
        spec_clear_bit(spec_set_bit(v, n), n) == spec_clear_bit(v, n),
{
    assert((v | (1u32 << n)) & !(1u32 << n) == v & !(1u32 << n)) by (bit_vector);
}

/// A bit reads back as one immediately after it is set.
pub proof fn lemma_set_bit_is_set(v: u32, n: u32)
    requires
        n < 32,
    ensures
        spec_bit_set(spec_set_bit(v, n), n),
{
    assert((v | (1u32 << n)) & (1u32 << n) != 0) by (bit_vector)
        requires
            n < 32,
    ;
}

/// Toggling the same bit twice restores the original value exactly.
pub proof fn lemma_toggle_involutes(v: u32, n: u32)
    requires
        n < 32,
    ensures
        spec_toggle_bit(spec_toggle_bit(v, n), n) == v,
{
    assert((v ^ (1u32 << n)) ^ (1u32 << n) == v) by (bit_vector);
}

} // verus!
