//! Wrap-around word arithmetic and byte/word (de)composition helpers.
//!
//! PC, SP and the register pairs wrap modulo 2^16 on every update; the
//! helpers here give that arithmetic a single spec-level definition.

use vstd::prelude::*;

verus! {

/// 16-bit wrap-around of a mathematical integer.
pub open spec fn w16(v: int) -> u16 {
    (v % 0x10000) as u16
}

/// 8-bit wrap-around of a mathematical integer.
pub open spec fn w8(v: int) -> u8 {
    (v % 0x100) as u8
}

/// The 16-bit word with high byte `hi` and low byte `lo`.
pub open spec fn spec_word(hi: u8, lo: u8) -> u16 {
    (hi * 0x100 + lo) as u16
}

/// High byte of a 16-bit word.
pub open spec fn spec_hi(w: u16) -> u8 {
    (w / 0x100) as u8
}

/// Low byte of a 16-bit word.
pub open spec fn spec_lo(w: u16) -> u8 {
    (w % 0x100) as u8
}

/// Wrapping 16-bit addition.
pub fn wadd16(a: u16, b: u16) -> (r: u16)
    ensures
        r == w16(a + b),
{
    let s: u32 = a as u32 + b as u32;
    if s > 0xFFFF {
        (s - 0x10000) as u16
    } else {
        s as u16
    }
}

/// Wrapping 16-bit subtraction.
pub fn wsub16(a: u16, b: u16) -> (r: u16)
    ensures
        r == w16(a - b),
{
    if a >= b {
        a - b
    } else {
        proof {
            assert((a - b) % 0x10000 == a - b + 0x10000) by {
                assert(0 <= a - b + 0x10000 < 0x10000);
            };
        }
        (0x10000 + a as u32 - b as u32) as u16
    }
}

/// Wrapping 8-bit addition.
pub fn wadd8(a: u8, b: u8) -> (r: u8)
    ensures
        r == w8(a + b),
{
    let s: u16 = a as u16 + b as u16;
    if s > 0xFF {
        (s - 0x100) as u8
    } else {
        s as u8
    }
}

/// Wrapping 8-bit subtraction.
pub fn wsub8(a: u8, b: u8) -> (r: u8)
    ensures
        r == w8(a - b),
{
    if a >= b {
        a - b
    } else {
        proof {
            assert((a - b) % 0x100 == a - b + 0x100) by {
                assert(0 <= a - b + 0x100 < 0x100);
            };
        }
        (0x100 + a as u16 - b as u16) as u8
    }
}

/// Build the word with the given high and low bytes.
pub fn word(hi: u8, lo: u8) -> (r: u16)
    ensures
        r == spec_word(hi, lo),
{
    hi as u16 * 0x100 + lo as u16
}

/// High byte of a word.
pub fn hi_byte(w: u16) -> (r: u8)
    ensures
        r == spec_hi(w),
{
    (w / 0x100) as u8
}

/// Low byte of a word.
pub fn lo_byte(w: u16) -> (r: u8)
    ensures
        r == spec_lo(w),
{
    (w % 0x100) as u8
}

/// Sign extension of a raw offset byte to 16 bits, as the processor's
/// relative jumps and SP-relative loads interpret their operand.
pub open spec fn spec_sign_ext(v: u8) -> u16 {
    if v < 0x80 {
        v as u16
    } else {
        (0xFF00 + v) as u16
    }
}

/// Sign-extend a raw offset byte to 16 bits.
pub fn sign_ext(v: u8) -> (r: u16)
    ensures
        r == spec_sign_ext(v),
{
    if v < 0x80 {
        v as u16
    } else {
        0xFF00 + v as u16
    }
}

/// Masking with a low-bit constant bounds the result.
pub proof fn lemma_low_bits(x: u8)
    by (bit_vector)
    ensures
        x & 1 <= 1,
        x & 0x03 <= 3,
{
}

/// Merging two interrupt masks stays below the five-bit bound.
pub proof fn lemma_or_bound(a: u8, b: u8)
    by (bit_vector)
    requires
        a < 0x20,
        b < 0x20,
    ensures
        (a | b) < 0x20,
{
}

/// Clearing bits never raises the value.
pub proof fn lemma_and_not_bound(a: u8, b: u8)
    by (bit_vector)
    ensures
        (a & !b) <= a,
{
}

/// A byte vector of `n` zeroes.
pub fn zero_bytes(n: usize) -> (r: Vec<u8>)
    ensures
        r@ == Seq::new(n as nat, |i: int| 0u8),
{
    let mut v: Vec<u8> = Vec::new();
    let mut i: usize = 0;
    while i < n
        invariant
            i <= n,
            v@ == Seq::new(i as nat, |j: int| 0u8),
        decreases n - i,
    {
        v.push(0);
        proof {
            assert(v@ =~= Seq::new((i + 1) as nat, |j: int| 0u8));
        }
        i = i + 1;
    }
    v
}

/// Composition and decomposition of words round-trip.
pub proof fn lemma_word_roundtrip(hi: u8, lo: u8, w: u16)
    ensures
        spec_hi(spec_word(hi, lo)) == hi,
        spec_lo(spec_word(hi, lo)) == lo,
        spec_word(spec_hi(w), spec_lo(w)) == w,
{
    assert(spec_hi(spec_word(hi, lo)) == hi) by {
        assert((hi * 0x100 + lo) / 0x100 == hi) by (nonlinear_arith)
            requires lo < 0x100;
    };
    assert(spec_lo(spec_word(hi, lo)) == lo) by {
        assert((hi * 0x100 + lo) % 0x100 == lo) by (nonlinear_arith)
            requires lo < 0x100;
    };
    assert(spec_word(spec_hi(w), spec_lo(w)) == w) by {
        assert((w / 0x100) * 0x100 + (w % 0x100) == w) by (nonlinear_arith);
    };
}

} // verus!
