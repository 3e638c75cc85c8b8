//! Lane operations on the bit pattern of a 64-bit float, the scalar of the `double` vectors.
//!
//! A lane is the IEEE-754 bit pattern of a number, held in a `u64`: the top bit is the sign, the
//! other bits are the magnitude.

use vstd::prelude::*;

verus! {

/// The bit pattern with the sign bit cleared.
pub open spec fn spec_abs_double(x: u64) -> u64 {
    x & 0x7fff_ffff_ffff_ffff
}

#[verifier::when_used_as_spec(spec_abs_double)]
pub fn abs_double(x: u64) -> (r: u64)
    ensures
        r == x & 0x7fff_ffff_ffff_ffff,
{
    x & 0x7fff_ffff_ffff_ffff
}

/// The bit pattern with the magnitude of `x` and the sign bit of `y`.
pub open spec fn spec_copysign_double(x: u64, y: u64) -> u64 {
    (y & !0x7fff_ffff_ffff_ffffu64) | (x & 0x7fff_ffff_ffff_ffff)
}

#[verifier::when_used_as_spec(spec_copysign_double)]
pub fn copysign_double(x: u64, y: u64) -> (r: u64)
    ensures
        r == (y & !0x7fff_ffff_ffff_ffffu64) | (x & 0x7fff_ffff_ffff_ffff),
{
    (y & !0x7fff_ffff_ffff_ffff) | (x & 0x7fff_ffff_ffff_ffff)
}

/// What the bit-vector solver knows of sign and magnitude: clearing the sign bit a second
/// time changes nothing, a pattern with its own sign is itself, and a pattern with a copied
/// sign has that sign and its own magnitude.
pub proof fn lemma_bits_double(x: u64, y: u64)
    by (bit_vector)
    ensures
        (x & 0x7fff_ffff_ffff_ffffu64) & 0x7fff_ffff_ffff_ffffu64 == x & 0x7fff_ffff_ffff_ffffu64,
        (x & !0x7fff_ffff_ffff_ffffu64) | (x & 0x7fff_ffff_ffff_ffffu64) == x,
        ((y & !0x7fff_ffff_ffff_ffffu64) | (x & 0x7fff_ffff_ffff_ffffu64)) & !0x7fff_ffff_ffff_ffffu64 == y & !0x7fff_ffff_ffff_ffffu64,
        ((y & !0x7fff_ffff_ffff_ffffu64) | (x & 0x7fff_ffff_ffff_ffffu64)) & 0x7fff_ffff_ffff_ffffu64 == x & 0x7fff_ffff_ffff_ffffu64,
{
}

/// The magnitude of a magnitude is that magnitude; a pattern with its own sign is itself;
/// and a pattern with a copied sign has the magnitude that it had.
pub proof fn lemma_sign_double(x: u64, y: u64)
    ensures
        abs_double(abs_double(x)) == abs_double(x),
        copysign_double(x, x) == x,
        abs_double(copysign_double(x, y)) == abs_double(x),
        copysign_double(x, y) & !0x7fff_ffff_ffff_ffffu64 == y & !0x7fff_ffff_ffff_ffffu64,
{
    lemma_bits_double(x, y);
    lemma_bits_double(x, x);
}

} // verus!
