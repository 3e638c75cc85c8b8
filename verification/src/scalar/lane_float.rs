//! Lane operations on the bit pattern of a 32-bit float, the scalar of the `float` vectors.
//!
//! A lane is the IEEE-754 bit pattern of a number, held in a `u32`: the top bit is the sign, the
//! other bits are the magnitude.

use vstd::prelude::*;

verus! {

/// The bit pattern with the sign bit cleared.
pub open spec fn spec_abs_float(x: u32) -> u32 {
    x & 0x7fff_ffff
}

#[verifier::when_used_as_spec(spec_abs_float)]
pub fn abs_float(x: u32) -> (r: u32)
    ensures
        r == x & 0x7fff_ffff,
{
    x & 0x7fff_ffff
}

/// The bit pattern with the magnitude of `x` and the sign bit of `y`.
pub open spec fn spec_copysign_float(x: u32, y: u32) -> u32 {
    (y & !0x7fff_ffffu32) | (x & 0x7fff_ffff)
}

#[verifier::when_used_as_spec(spec_copysign_float)]
pub fn copysign_float(x: u32, y: u32) -> (r: u32)
    ensures
        r == (y & !0x7fff_ffffu32) | (x & 0x7fff_ffff),
{
    (y & !0x7fff_ffff) | (x & 0x7fff_ffff)
}

/// What the bit-vector solver knows of sign and magnitude: clearing the sign bit a second
/// time changes nothing, a pattern with its own sign is itself, and a pattern with a copied
/// sign has that sign and its own magnitude.
pub proof fn lemma_bits_float(x: u32, y: u32)
    by (bit_vector)
    ensures
        (x & 0x7fff_ffffu32) & 0x7fff_ffffu32 == x & 0x7fff_ffffu32,
        (x & !0x7fff_ffffu32) | (x & 0x7fff_ffffu32) == x,
        ((y & !0x7fff_ffffu32) | (x & 0x7fff_ffffu32)) & !0x7fff_ffffu32 == y & !0x7fff_ffffu32,
        ((y & !0x7fff_ffffu32) | (x & 0x7fff_ffffu32)) & 0x7fff_ffffu32 == x & 0x7fff_ffffu32,
{
}

/// The magnitude of a magnitude is that magnitude; a pattern with its own sign is itself;
/// and a pattern with a copied sign has the magnitude that it had.
pub proof fn lemma_sign_float(x: u32, y: u32)
    ensures
        abs_float(abs_float(x)) == abs_float(x),
        copysign_float(x, x) == x,
        abs_float(copysign_float(x, y)) == abs_float(x),
        copysign_float(x, y) & !0x7fff_ffffu32 == y & !0x7fff_ffffu32,
{
    lemma_bits_float(x, y);
    lemma_bits_float(x, x);
}

} // verus!
