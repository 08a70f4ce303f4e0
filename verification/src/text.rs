//! Building ASCII text byte by byte: literal pieces, hexadecimal and decimal
//! numbers.

use vstd::prelude::*;
use vstd::string::StringSliceAdditionalSpecFns;

verus! {

/// The ASCII digit of a value below 16, in lower case.
pub open spec fn spec_hex_digit(n: int) -> u8 {
    if n < 10 {
        (0x30 + n) as u8
    } else {
        (0x61 + n - 10) as u8
    }
}

pub fn hex_digit(n: u8) -> (r: u8)
    requires
        n < 16,
    ensures
        r == spec_hex_digit(n as int),
{
    if n < 10 {
        0x30 + n
    } else {
        0x61 + (n - 10)
    }
}

/// A byte as two hexadecimal digits.
pub open spec fn spec_hex_byte(v: u8) -> Seq<u8> {
    seq![spec_hex_digit(v as int / 16), spec_hex_digit(v as int % 16)]
}

/// A word as four hexadecimal digits.
pub open spec fn spec_hex_word(v: u16) -> Seq<u8> {
    spec_hex_byte((v / 0x100) as u8) + spec_hex_byte((v % 0x100) as u8)
}

/// A word as hexadecimal digits without leading zeros, but with two digits at
/// least.
pub open spec fn spec_hex_short(v: u16) -> Seq<u8> {
    if v < 0x100 {
        spec_hex_byte(v as u8)
    } else if v < 0x1000 {
        seq![spec_hex_digit(v as int / 0x100)] + spec_hex_byte((v % 0x100) as u8)
    } else {
        spec_hex_word(v)
    }
}

/// A byte as decimal digits without leading zeros.
pub open spec fn spec_decimal(v: u8) -> Seq<u8> {
    if v < 10 {
        seq![(0x30 + v) as u8]
    } else if v < 100 {
        seq![(0x30 + v / 10) as u8, (0x30 + v % 10) as u8]
    } else {
        seq![(0x30 + v / 100) as u8, (0x30 + (v / 10) % 10) as u8, (0x30 + v % 10) as u8]
    }
}

/// Appending a piece to a text that follows a prefix extends the text.
pub proof fn lemma_append(prefix: Seq<u8>, text: Seq<u8>, piece: Seq<u8>)
    ensures
        (prefix + text) + piece == prefix + (text + piece),
{
    assert((prefix + text) + piece =~= prefix + (text + piece));
}

/// Appends the bytes of `s`.
pub fn push_str(out: &mut Vec<u8>, s: &str)
    ensures
        final(out)@ == old(out)@ + s.spec_bytes(),
{
    let bytes = s.as_bytes();
    let mut i: usize = 0;
    while i < bytes.len()
        invariant
            i <= bytes.len(),
            bytes@ == s.spec_bytes(),
            out@ == old(out)@ + bytes@.subrange(0, i as int),
        decreases bytes.len() - i,
    {
        out.push(bytes[i]);
        i += 1;
        assert(out@ =~= old(out)@ + bytes@.subrange(0, i as int));
    }
    assert(bytes@.subrange(0, i as int) =~= bytes@);
}

/// Appends a byte as two hexadecimal digits.
pub fn push_hex_byte(out: &mut Vec<u8>, v: u8)
    ensures
        final(out)@ == old(out)@ + spec_hex_byte(v),
{
    out.push(hex_digit(v / 16));
    out.push(hex_digit(v % 16));
    assert(out@ =~= old(out)@ + spec_hex_byte(v));
}

/// Appends a word as four hexadecimal digits.
pub fn push_hex_word(out: &mut Vec<u8>, v: u16)
    ensures
        final(out)@ == old(out)@ + spec_hex_word(v),
{
    push_hex_byte(out, (v / 0x100) as u8);
    push_hex_byte(out, (v % 0x100) as u8);
    assert(out@ =~= old(out)@ + spec_hex_word(v));
}

/// Appends a word as hexadecimal digits without leading zeros, but with two
/// digits at least.
pub fn push_hex_short(out: &mut Vec<u8>, v: u16)
    ensures
        final(out)@ == old(out)@ + spec_hex_short(v),
{
    if v < 0x100 {
        push_hex_byte(out, v as u8);
    } else if v < 0x1000 {
        out.push(hex_digit((v / 0x100) as u8));
        push_hex_byte(out, (v % 0x100) as u8);
        assert(out@ =~= old(out)@ + spec_hex_short(v));
    } else {
        push_hex_word(out, v);
    }
}

/// Appends a byte as decimal digits without leading zeros.
pub fn push_decimal(out: &mut Vec<u8>, v: u8)
    ensures
        final(out)@ == old(out)@ + spec_decimal(v),
{
    if v >= 100 {
        out.push(0x30 + v / 100);
    }
    if v >= 10 {
        out.push(0x30 + (v / 10) % 10);
    }
    out.push(0x30 + v % 10);
    assert(out@ =~= old(out)@ + spec_decimal(v));
}

} // verus!
