//! Sample values: IEEE 754 double-precision numbers held by their bit patterns.

use vstd::arithmetic::mul::*;
use vstd::arithmetic::power2::*;
use vstd::prelude::*;

verus! {

/// Bit pattern of `0.0`.
pub const ZERO_BITS: u64 = 0;

/// Bit pattern of `1.0`.
pub const ONE_BITS: u64 = 0x3ff0_0000_0000_0000;

/// Bit pattern of `2.0`.
pub const TWO_BITS: u64 = 0x4000_0000_0000_0000;

/// Bit pattern of `3.0`.
pub const THREE_BITS: u64 = 0x4008_0000_0000_0000;

/// Bit pattern of `10.0`, the exclusive upper limit of a sample.
pub const LIMIT_BITS: u64 = 0x4024_0000_0000_0000;

/// Bit pattern of `-0.0`.
pub const NEGATIVE_ZERO_BITS: u64 = 0x8000_0000_0000_0000;

/// Whether the sign bit (bit 63) of a pattern is set.
pub open spec fn sign_of(bits: u64) -> bool {
    bits >= 0x8000_0000_0000_0000
}

/// The biased exponent field (bits 52 to 62) of a pattern.
pub open spec fn exponent_of(bits: u64) -> nat {
    ((bits / 0x10_0000_0000_0000) % 0x800) as nat
}

/// The fraction field (bits 0 to 51) of a pattern.
pub open spec fn fraction_of(bits: u64) -> nat {
    (bits % 0x10_0000_0000_0000) as nat
}

/// Whether a pattern encodes a number, as opposed to an infinity or a NaN.
pub open spec fn is_finite(bits: u64) -> bool {
    exponent_of(bits) != 0x7ff
}

/// The absolute value that a finite pattern encodes, counted in units of
/// 2^-1074 (the smallest positive double), so that it is a natural number.
pub open spec fn magnitude(bits: u64) -> nat {
    let e = exponent_of(bits);
    let f = fraction_of(bits);
    if e == 0 {
        f
    } else {
        (0x10_0000_0000_0000 + f) * pow2((e - 1) as nat)
    }
}

/// The magnitude of `1.0`: 2^1074 units.
pub open spec fn magnitude_of_one() -> nat {
    pow2(1074)
}

/// Whether a pattern encodes the non-negative whole number `n`.
pub open spec fn encodes_whole(bits: u64, n: nat) -> bool {
    &&& is_finite(bits)
    &&& !sign_of(bits)
    &&& magnitude(bits) == n * magnitude_of_one()
}

/// Whether a pattern encodes a number `v` with `0.0 <= v < 10.0`.
/// Negative zero compares equal to zero and so lies in the range.
pub open spec fn in_range(bits: u64) -> bool {
    &&& is_finite(bits)
    &&& magnitude(bits) == 0 || (!sign_of(bits) && magnitude(bits) < 10 * magnitude_of_one())
}

/// The exponent field brackets the magnitude between two powers of two.
proof fn lemma_magnitude_bounds(bits: u64)
    requires
        is_finite(bits),
    ensures
        exponent_of(bits) == 0 ==> magnitude(bits) < pow2(52),
        exponent_of(bits) > 0 ==> pow2(exponent_of(bits) + 51) <= magnitude(bits) < pow2(
            exponent_of(bits) + 52,
        ),
{
    let e = exponent_of(bits);
    let f = fraction_of(bits);
    lemma2_to64_rest();
    if e > 0 {
        let p = pow2((e - 1) as nat);
        lemma_pow2_pos((e - 1) as nat);
        lemma_pow2_adds(52, (e - 1) as nat);
        lemma_pow2_adds(53, (e - 1) as nat);
        assert(pow2(52) * p <= (0x10_0000_0000_0000 + f) * p) by {
            lemma_mul_inequality(pow2(52) as int, (0x10_0000_0000_0000 + f) as int, p as int);
        }
        assert((0x10_0000_0000_0000 + f) * p < pow2(53) * p) by {
            lemma_mul_strict_inequality(
                (0x10_0000_0000_0000 + f) as int,
                pow2(53) as int,
                p as int,
            );
        }
    }
}

/// The patterns of the numbers from `0.0` up to, not including, `10.0` are
/// those below the pattern of `10.0`, and that of negative zero.
pub proof fn lemma_range_by_pattern(bits: u64)
    ensures
        in_range(bits) <==> bits < LIMIT_BITS || bits == NEGATIVE_ZERO_BITS,
{
    let e = exponent_of(bits);
    let f = fraction_of(bits);
    lemma2_to64();
    lemma2_to64_rest();
    if is_finite(bits) {
        lemma_magnitude_bounds(bits);
        if sign_of(bits) {
            // only negative zero has no magnitude
            if e > 0 {
                lemma_pow2_pos(e + 51);
            }
        } else {
            // 8.0 < 10.0 < 16.0: ten lies between 2^1077 and 2^1078 units
            lemma_pow2_pos(1074);
            lemma_pow2_adds(3, 1074);
            lemma_pow2_adds(4, 1074);
            if e == 0 {
                lemma_pow2_strictly_increases(52, 1077);
            } else if e < 1025 {
                lemma_pow2_strictly_increases(e + 52, 1077);
            } else if e == 1026 {
                // the exponent field of 10.0 itself: the fraction decides
                let p = pow2(1025);
                lemma_pow2_adds(49, 1025);
                assert(10 * magnitude_of_one() == 0x14_0000_0000_0000 * p);
                if f < 0x4_0000_0000_0000 {
                    lemma_mul_strict_inequality(
                        (0x10_0000_0000_0000 + f) as int,
                        0x14_0000_0000_0000,
                        p as int,
                    );
                } else {
                    lemma_mul_inequality(
                        0x14_0000_0000_0000,
                        (0x10_0000_0000_0000 + f) as int,
                        p as int,
                    );
                }
            } else if e > 1027 {
                lemma_pow2_strictly_increases(1078, e + 51);
            }
        }
    }
}

/// The named patterns encode the whole numbers that they are named after.
pub proof fn lemma_whole_patterns()
    ensures
        encodes_whole(ZERO_BITS, 0),
        encodes_whole(ONE_BITS, 1),
        encodes_whole(TWO_BITS, 2),
        encodes_whole(THREE_BITS, 3),
        encodes_whole(LIMIT_BITS, 10),
{
    lemma2_to64_rest();
    // 1.0 has exponent field 1023: 2^52 * 2^1022 units
    lemma_pow2_adds(52, 1022);
    // 2.0 and 3.0 have exponent field 1024
    lemma_pow2_adds(51, 1023);
    assert(2 * magnitude_of_one() == 0x10_0000_0000_0000 * pow2(1023));
    assert(3 * magnitude_of_one() == 0x18_0000_0000_0000 * pow2(1023));
    // 10.0 has exponent field 1026
    lemma_pow2_adds(49, 1025);
    assert(10 * magnitude_of_one() == 0x14_0000_0000_0000 * pow2(1025));
}

/// One sample: a number `v` with `0.0 <= v < 10.0`, held by its bit pattern.
///
/// Every value of this type is in range; `from_bits` is the only way to make
/// one from an arbitrary pattern.
#[derive(Clone, Copy, Debug, PartialEq, Eq)]
pub struct Sample {
    bits: u64,
}

impl View for Sample {
    type V = u64;

    /// The bit pattern of the sample.
    closed spec fn view(&self) -> u64 {
        self.bits
    }
}

impl Sample {
    /// Every sample is in range.
    #[verifier::type_invariant]
    spec fn inv(self) -> bool {
        in_range(self.bits)
    }

    /// The sample with the given bit pattern, if the pattern encodes a number
    /// from `0.0` up to, not including, `10.0`.
    pub fn from_bits(bits: u64) -> (sample: Option<Sample>)
        ensures
            sample is Some <==> in_range(bits),
            sample matches Some(s) ==> s@ == bits,
    {
        proof {
            lemma_range_by_pattern(bits);
        }
        if bits < LIMIT_BITS || bits == NEGATIVE_ZERO_BITS {
            Some(Sample { bits })
        } else {
            None
        }
    }

    /// The bit pattern of the sample.
    pub fn to_bits(self) -> (bits: u64)
        ensures
            bits == self@,
            in_range(bits),
    {
        proof {
            use_type_invariant(&self);
        }
        self.bits
    }

    /// The sample with a bit pattern that is known to be in range.
    pub(crate) fn from_valid_bits(bits: u64) -> (sample: Sample)
        requires
            in_range(bits),
        ensures
            sample@ == bits,
    {
        Sample { bits }
    }
}

} // verus!
