//! Classifier confidence scores held as the bit pattern of an IEEE-754
//! binary64 value.
//!
//! Scores are never negative and never NaN. On such values the order of
//! the bit patterns, read as unsigned integers, is the numeric order of the
//! floating-point values, so every threshold comparison of the cascade is an
//! integer comparison of the encodings.
use vstd::prelude::*;

verus! {

/// Encoding of positive infinity: the largest encoding of a value that is
/// neither negative nor NaN.
pub const INFINITY_BITS: u64 = 0x7ff0_0000_0000_0000;

/// Encoding of negative zero.
pub const NEGATIVE_ZERO_BITS: u64 = 0x8000_0000_0000_0000;

/// Encoding of `0.0`.
pub const ZERO_BITS: u64 = 0;

/// Whether `bits` encodes a binary64 value that is `+0.0`, positive or
/// `+inf`: anything but a negative value, negative zero or a NaN.
pub open spec fn is_score_bits(bits: u64) -> bool {
    bits <= INFINITY_BITS
}

/// A non-negative, non-NaN confidence score.
#[derive(Clone, Copy, Debug, PartialEq, Eq, Hash)]
pub struct Confidence {
    bits: u64,
}

impl View for Confidence {
    type V = u64;

    closed spec fn view(&self) -> u64 {
        self.bits
    }
}

impl Confidence {
    #[verifier::type_invariant]
    closed spec fn inv(&self) -> bool {
        is_score_bits(self.bits)
    }

    /// The score that encodes `bits`. Negative zero is read as zero;
    /// negative values and NaNs are no scores.
    pub fn from_bits(bits: u64) -> (r: Option<Confidence>)
        ensures
            bits == NEGATIVE_ZERO_BITS ==> r == Some(Confidence::zero_spec()),
            bits != NEGATIVE_ZERO_BITS ==> (r is Some <==> is_score_bits(bits)),
            bits != NEGATIVE_ZERO_BITS && r is Some ==> r->0@ == bits,
    {
        if bits == NEGATIVE_ZERO_BITS {
            Some(Confidence { bits: ZERO_BITS })
        } else if bits <= INFINITY_BITS {
            Some(Confidence { bits })
        } else {
            None
        }
    }

    pub closed spec fn zero_spec() -> Confidence {
        Confidence { bits: ZERO_BITS }
    }

    /// The score `0.0`.
    pub fn zero() -> (r: Confidence)
        ensures
            r == Confidence::zero_spec(),
            r@ == ZERO_BITS,
    {
        Confidence { bits: ZERO_BITS }
    }

    /// The encoding of this score.
    pub fn bits(&self) -> (r: u64)
        ensures
            r == self@,
            is_score_bits(r),
    {
        proof {
            use_type_invariant(self);
        }
        self.bits
    }

    /// Whether this score is at least `other`.
    pub fn at_least(&self, other: &Confidence) -> (r: bool)
        ensures
            r == (self@ >= other@),
    {
        self.bits >= other.bits
    }

    /// Whether this score is at most `other`.
    pub fn at_most(&self, other: &Confidence) -> (r: bool)
        ensures
            r == (self@ <= other@),
    {
        self.bits <= other.bits
    }
}

} // verus!
