//! Sample rates, held as the bit pattern of an IEEE 754 single-precision
//! number so that their validity can be decided exactly.

use vstd::prelude::*;

verus! {

/// Why a configuration was refused.
#[derive(Clone, Copy, Debug, PartialEq, Eq)]
pub enum ConfigError {
    /// The sample rate is not a positive, finite number of hertz.
    InvalidSampleRate,
}

/// Whether the sign bit of a single-precision pattern is set.
pub open spec fn sign_is_set(bits: u32) -> bool {
    bits >= 0x8000_0000
}

/// A single-precision pattern with its sign bit cleared: the biased exponent
/// in bits 23..31 and the fraction in bits 0..23.
pub open spec fn magnitude_of(bits: u32) -> int {
    if sign_is_set(bits) {
        bits - 0x8000_0000
    } else {
        bits as int
    }
}

/// Not-a-number: the exponent is all ones and the fraction is not zero.
pub open spec fn is_nan(bits: u32) -> bool {
    magnitude_of(bits) > 0x7f80_0000
}

/// Positive or negative infinity: the exponent is all ones, the fraction zero.
pub open spec fn is_infinite(bits: u32) -> bool {
    magnitude_of(bits) == 0x7f80_0000
}

/// A number that compares less than or equal to zero: either zero, or any
/// number with the sign bit set.
pub open spec fn is_non_positive(bits: u32) -> bool {
    !is_nan(bits) && (sign_is_set(bits) || magnitude_of(bits) == 0)
}

/// The patterns that are acceptable sample rates: every number that is
/// neither non-positive, nor infinite, nor not-a-number.
pub open spec fn rate_is_valid(bits: u32) -> bool {
    !is_non_positive(bits) && !is_infinite(bits) && !is_nan(bits)
}

/// A sample rate in hertz that is known to be positive and finite.
#[derive(Clone, Copy, Debug, PartialEq, Eq)]
pub struct SampleRate {
    bits: u32,
}

impl View for SampleRate {
    type V = u32;

    closed spec fn view(&self) -> u32 {
        self.bits
    }
}

impl SampleRate {
    #[verifier::type_invariant]
    spec fn positive_and_finite(self) -> bool {
        rate_is_valid(self.bits)
    }

    /// Accepts the single-precision pattern `bits` as a sample rate if, and
    /// only if, it encodes a positive finite number.
    pub fn from_bits(bits: u32) -> (checked: Result<SampleRate, ConfigError>)
        ensures
            checked is Ok <==> rate_is_valid(bits),
            checked matches Ok(rate) ==> rate@ == bits,
            checked matches Err(error) ==> error == ConfigError::InvalidSampleRate,
    {
        if 0 < bits && bits < 0x7f80_0000 {
            Ok(SampleRate { bits })
        } else {
            Err(ConfigError::InvalidSampleRate)
        }
    }

    /// The single-precision pattern of the rate.
    pub fn bits(&self) -> (bits: u32)
        ensures
            bits == self@,
            rate_is_valid(bits),
    {
        proof {
            use_type_invariant(self);
        }
        self.bits
    }
}

} // verus!
