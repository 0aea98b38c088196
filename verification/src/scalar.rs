//! Real numbers of IEEE 754, carried by their bit patterns.
//!
//! Coordinates, radii, widths and matrix entries travel through the canvas
//! protocol unchanged, so the library keeps each one as the bits of its
//! encoding; two numbers are equal here when their bits are. The one thing
//! it ever computes from such a number is the count of whole pixels it
//! stands for.

use vstd::arithmetic::power2::{lemma2_to64, lemma_pow2_strictly_increases, pow2};
use vstd::bits::{lemma_u64_shl_is_mul, lemma_u64_shr_is_div};
use vstd::prelude::*;

verus! {

/// A single-precision number (binary32), held by its bits.
#[derive(Clone, Copy, Debug, PartialEq, Eq, Structural)]
pub struct Single {
    pub bits: u32,
}

/// A double-precision number (binary64), held by its bits.
#[derive(Clone, Copy, Debug, PartialEq, Eq, Structural)]
pub struct Double {
    pub bits: u64,
}

/// The bits of the single-precision number one.
pub const SINGLE_ONE_BITS: u32 = 0x3f80_0000;

/// Two to the power 52: the weight of the hidden bit of a double.
pub const DOUBLE_HIDDEN_BIT: u64 = 0x10_0000_0000_0000;

/// The exponent field of a double whose value lies in `[1, 2)`.
pub const DOUBLE_EXPONENT_BIAS: u64 = 1023;

impl Single {
    /// Positive zero.
    pub open spec fn spec_zero() -> Single {
        Single { bits: 0 }
    }

    /// The number one.
    pub open spec fn spec_one() -> Single {
        Single { bits: SINGLE_ONE_BITS }
    }

    /// Positive zero.
    #[verifier::when_used_as_spec(spec_zero)]
    pub fn zero() -> (number: Single)
        ensures
            number == Single::spec_zero(),
    {
        Single { bits: 0 }
    }

    /// The number one.
    #[verifier::when_used_as_spec(spec_one)]
    pub fn one() -> (number: Single)
        ensures
            number == Single::spec_one(),
    {
        Single { bits: SINGLE_ONE_BITS }
    }
}

impl Double {
    /// Whether the sign bit is set.
    pub open spec fn sign(self) -> bool {
        self.bits >= 0x8000_0000_0000_0000
    }

    /// The eleven bits of the exponent field.
    pub open spec fn exponent(self) -> nat {
        (self.bits as nat / DOUBLE_HIDDEN_BIT as nat) % 0x800
    }

    /// The fifty-two bits of the fraction field.
    pub open spec fn fraction(self) -> nat {
        self.bits as nat % DOUBLE_HIDDEN_BIT as nat
    }

    /// Whether the bits encode no number at all.
    pub open spec fn is_nan(self) -> bool {
        self.exponent() == 0x7ff && self.fraction() != 0
    }

    /// The whole part of the number, kept within `0 ..= u64::MAX`: zero for
    /// what is negative, below one or not a number, `u64::MAX` for what is
    /// too large, and else the significand scaled by its power of two with
    /// the digits after the point dropped.
    pub open spec fn whole(self) -> nat {
        let exponent = self.exponent();
        let significand = DOUBLE_HIDDEN_BIT as nat + self.fraction();
        if self.sign() || self.is_nan() || exponent < DOUBLE_EXPONENT_BIAS {
            0
        } else if exponent >= DOUBLE_EXPONENT_BIAS + 64 {
            u64::MAX as nat
        } else if exponent >= DOUBLE_EXPONENT_BIAS + 52 {
            significand * pow2((exponent - DOUBLE_EXPONENT_BIAS - 52) as nat)
        } else {
            significand / pow2((DOUBLE_EXPONENT_BIAS + 52 - exponent) as nat)
        }
    }

    /// The whole part of the number as a `u64`, saturating at both ends.
    pub fn to_u64(self) -> (whole: u64)
        ensures
            whole == self.whole(),
    {
        let exponent: u64 = (self.bits / DOUBLE_HIDDEN_BIT) % 0x800;
        let fraction: u64 = self.bits % DOUBLE_HIDDEN_BIT;
        let negative = self.bits >= 0x8000_0000_0000_0000;
        if negative || (exponent == 0x7ff && fraction != 0) || exponent < DOUBLE_EXPONENT_BIAS {
            0
        } else if exponent >= DOUBLE_EXPONENT_BIAS + 64 {
            u64::MAX
        } else {
            let significand: u64 = DOUBLE_HIDDEN_BIT + fraction;
            if exponent >= DOUBLE_EXPONENT_BIAS + 52 {
                let shift: u64 = exponent - (DOUBLE_EXPONENT_BIAS + 52);
                proof {
                    lemma2_to64();
                    if shift < 11 {
                        lemma_pow2_strictly_increases(shift as nat, 11);
                    }
                    assert(significand * pow2(shift as nat) <= u64::MAX) by (nonlinear_arith)
                        requires
                            significand < 0x20_0000_0000_0000,
                            pow2(shift as nat) <= 2048,
                    ;
                    lemma_u64_shl_is_mul(significand, shift);
                }
                significand << shift
            } else {
                let shift: u64 = DOUBLE_EXPONENT_BIAS + 52 - exponent;
                proof {
                    lemma_u64_shr_is_div(significand, shift);
                }
                significand >> shift
            }
        }
    }

    /// The whole part of the number as a `usize`, saturating at both ends.
    pub fn to_usize(self) -> (whole: usize)
        ensures
            whole == if self.whole() <= usize::MAX { self.whole() } else { usize::MAX as nat },
    {
        let whole = self.to_u64();
        if whole > usize::MAX as u64 {
            usize::MAX
        } else {
            whole as usize
        }
    }
}

} // verus!
