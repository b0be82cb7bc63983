//! Signed 16.16 fixed-point numbers, carried as their raw bits.
//!
//! The arithmetic itself is done by the `fixed` crate. The functions that
//! call it are trusted: each doc comment says what is taken on faith.

use fixed::types::I16F16;
use vstd::prelude::*;

verus! {

/// The raw bits of the number one.
pub const ONE_BITS: i32 = 65536;

/// The raw bits of pi, rounded to the nearest representable number.
pub const PI_BITS: i32 = 205887;

/// The raw bits of the factor that turns degrees into radians: `PI_BITS`
/// divided by 180 with the remainder dropped.
pub const DEG_TO_RAD_BITS: i32 = 1143;

/// A signed fixed-point number with sixteen integer and sixteen fractional
/// bits. The number it stands for is `bits / 65536`.
#[derive(Clone, Copy, Debug, PartialEq, Eq, Structural)]
pub struct Fixed {
    pub bits: i32,
}

/// The integer nearest to `bits / 65536`; a number exactly halfway between
/// two integers goes to the one further from zero.
pub open spec fn round_half_away(bits: int) -> int {
    let whole = bits / 65536;
    let part = bits % 65536;
    if part < 32768 {
        whole
    } else if part == 32768 && bits < 0 {
        whole
    } else {
        whole + 1
    }
}

/// The raw bits of the product of two numbers given by their raw bits: the
/// exact product with the bits below the sixteenth fractional one dropped,
/// which rounds towards minus infinity.
pub open spec fn product_bits(a: int, b: int) -> int {
    (a * b) / 65536
}

/// Whether the product of two numbers given by their raw bits can be held.
pub open spec fn product_fits(a: int, b: int) -> bool {
    -0x8000_0000 <= product_bits(a, b) <= 0x7fff_ffff
}

/// The raw bits of an angle in radians, from its raw bits in degrees.
pub open spec fn radians_bits(degrees: int) -> int {
    product_bits(degrees, DEG_TO_RAD_BITS as int)
}

impl Fixed {
    /// The number with the given raw bits.
    pub fn from_bits(bits: i32) -> (f: Fixed)
        ensures
            f.bits == bits,
    {
        Fixed { bits }
    }

    /// The raw bits of the number.
    pub fn to_bits(self) -> (bits: i32)
        ensures
            bits == self.bits,
    {
        self.bits
    }

    /// Calls `I16F16::from_num` on an `i32`. Trusted: for an integer that
    /// fits in sixteen signed bits the result has that integer shifted
    /// sixteen bits up as its raw bits. Other integers make the call panic
    /// in a debug build and are left out.
    #[verifier::external_body]
    pub(crate) fn from_int(n: i32) -> (f: Fixed)
        requires
            -32768 <= n <= 32767,
        ensures
            f.bits == n * 65536,
    {
        Fixed { bits: I16F16::from_num(n).to_bits() }
    }

    /// Calls `*` of `I16F16`. Trusted: the operator multiplies the raw bits
    /// in 64 bits and keeps bits 16 to 47 of the product, and panics in a
    /// debug build where the product does not fit, which is left out.
    #[verifier::external_body]
    pub(crate) fn times(self, rhs: Fixed) -> (f: Fixed)
        requires
            product_fits(self.bits as int, rhs.bits as int),
        ensures
            f.bits == product_bits(self.bits as int, rhs.bits as int),
    {
        Fixed { bits: (I16F16::from_bits(self.bits) * I16F16::from_bits(rhs.bits)).to_bits() }
    }

    /// Calls `+` of `I16F16`. Trusted: the operator adds the raw bits, and
    /// panics in a debug build where the sum does not fit, which is left out.
    #[verifier::external_body]
    pub(crate) fn plus(self, rhs: Fixed) -> (f: Fixed)
        requires
            -0x8000_0000 <= self.bits + rhs.bits <= 0x7fff_ffff,
        ensures
            f.bits == self.bits + rhs.bits,
    {
        Fixed { bits: (I16F16::from_bits(self.bits) + I16F16::from_bits(rhs.bits)).to_bits() }
    }

    /// Calls unary `-` of `I16F16`. Trusted: the operator negates the raw
    /// bits, and panics in a debug build on the least number, which is left
    /// out.
    #[verifier::external_body]
    pub(crate) fn negated(self) -> (f: Fixed)
        requires
            self.bits != -0x8000_0000,
        ensures
            f.bits == -self.bits,
    {
        Fixed { bits: (-I16F16::from_bits(self.bits)).to_bits() }
    }

    /// Calls `I16F16::round`. Trusted: the result is the nearest integer,
    /// a tie going away from zero, as a fixed-point number. The call panics
    /// in a debug build where that integer is 32768, which is left out.
    #[verifier::external_body]
    pub(crate) fn rounded(self) -> (f: Fixed)
        requires
            self.bits < 0x7fff_8000,
        ensures
            f.bits == round_half_away(self.bits as int) * 65536,
    {
        Fixed { bits: I16F16::from_bits(self.bits).round().to_bits() }
    }

    /// Calls `I16F16::to_num` for an `i32`. Trusted: the result is the
    /// number with its fractional bits dropped, which rounds towards minus
    /// infinity.
    #[verifier::external_body]
    pub(crate) fn to_int(self) -> (n: i32)
        ensures
            n == self.bits as int / 65536,
    {
        I16F16::from_bits(self.bits).to_num()
    }

    /// Turns an angle in degrees into radians by multiplying it with
    /// `DEG_TO_RAD_BITS`.
    pub fn degrees_to_radians(self) -> (radians: Fixed)
        ensures
            radians.bits == radians_bits(self.bits as int),
    {
        let factor: Fixed = Fixed { bits: DEG_TO_RAD_BITS };
        assert(product_fits(self.bits as int, factor.bits as int)) by {
            let a: int = self.bits as int;
            assert(-0x8000_0000 * 1143 <= a * 1143 <= 0x7fff_ffff * 1143);
        }
        self.times(factor)
    }
}

/// `DEG_TO_RAD_BITS` is `PI_BITS` over 180 in fixed-point division, which
/// drops the remainder.
pub proof fn lemma_deg_to_rad_is_pi_over_180()
    ensures
        DEG_TO_RAD_BITS as int == (PI_BITS as int * 65536) / (180int * 65536),
{
}

} // verus!
