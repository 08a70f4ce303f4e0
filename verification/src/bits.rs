//! Facts that tie bit masks and shifts on bytes to arithmetic.

use vstd::prelude::*;

verus! {

/// Whether bit `k` of `v` is set, bit 0 being the least significant.
pub open spec fn bit(v: u8, k: int) -> bool {
    (v as int / weight(k)) % 2 == 1
}

/// The weight of bit `k` of a byte.
pub open spec fn weight(k: int) -> int {
    if k == 0 {
        1
    } else if k == 1 {
        2
    } else if k == 2 {
        4
    } else if k == 3 {
        8
    } else if k == 4 {
        16
    } else if k == 5 {
        32
    } else if k == 6 {
        64
    } else {
        128
    }
}

/// Testing a byte against a one-bit mask reads the bit of that weight.
pub proof fn lemma_mask_is_bit(v: u8)
    ensures
        (v & 0x01 != 0) == bit(v, 0),
        (v & 0x02 != 0) == bit(v, 1),
        (v & 0x04 != 0) == bit(v, 2),
        (v & 0x08 != 0) == bit(v, 3),
        (v & 0x10 != 0) == bit(v, 4),
        (v & 0x20 != 0) == bit(v, 5),
        (v & 0x40 != 0) == bit(v, 6),
        (v & 0x80 != 0) == bit(v, 7),
        bit(v, 7) == (v >= 0x80),
{
    assert((v & 0x01 != 0) == ((v / 1) % 2 == 1)) by (bit_vector);
    assert((v & 0x02 != 0) == ((v / 2) % 2 == 1)) by (bit_vector);
    assert((v & 0x04 != 0) == ((v / 4) % 2 == 1)) by (bit_vector);
    assert((v & 0x08 != 0) == ((v / 8) % 2 == 1)) by (bit_vector);
    assert((v & 0x10 != 0) == ((v / 16) % 2 == 1)) by (bit_vector);
    assert((v & 0x20 != 0) == ((v / 32) % 2 == 1)) by (bit_vector);
    assert((v & 0x40 != 0) == ((v / 64) % 2 == 1)) by (bit_vector);
    assert((v & 0x80 != 0) == ((v / 128) % 2 == 1)) by (bit_vector);
}

/// Shifting a byte is multiplying or dividing it by two.
pub proof fn lemma_shift_is_arithmetic(v: u8)
    ensures
        v >> 1 == v / 2,
        v << 1 == (v * 2) % 256,
        (v >> 1) | 0x80 == v / 2 + 128,
        (v << 1) | 0x01 == (v * 2) % 256 + 1,
{
    assert(v >> 1 == v / 2) by (bit_vector);
    assert(v << 1 == (v * 2) % 256) by (bit_vector);
    assert((v >> 1) | 0x80 == v / 2 + 128) by (bit_vector);
    assert((v << 1) | 0x01 == (v * 2) % 256 + 1) by (bit_vector);
}

} // verus!
