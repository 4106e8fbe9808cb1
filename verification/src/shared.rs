//! The state that the audio thread and the main thread share.

use crate::atomic_f64::AtomicF64;
use crate::binary64::is_ratio;
use crate::binary64::one;
use vstd::arithmetic::power2::lemma2_to64;
use vstd::arithmetic::power2::lemma2_to64_rest;
use vstd::arithmetic::power2::lemma_pow2_adds;
use vstd::arithmetic::power2::pow2;
use vstd::prelude::*;

verus! {

/// The id of the one parameter, the frequency.
pub const FREQUENCY_PARAM: u32 = 0;

/// The bit pattern of 440.0, the frequency a new plugin starts with.
pub const FREQUENCY_DEFAULT: u64 = 0x407B_8000_0000_0000;

/// The bit pattern of 30.0, the lowest frequency offered to the host.
pub const FREQUENCY_MIN: u64 = 0x403E_0000_0000_0000;

/// The bit pattern of 1000.0, the highest frequency offered to the host.
pub const FREQUENCY_MAX: u64 = 0x408F_4000_0000_0000;

/// The bit pattern of 0.5, the factor applied to every sample.
pub const GAIN: u64 = 0x3FE0_0000_0000_0000;

/// The frequency constants are the whole numbers 440, 30 and 1000, and the
/// gain is one half.
pub proof fn lemma_constants()
    ensures
        is_ratio(FREQUENCY_DEFAULT, 440, 1),
        is_ratio(FREQUENCY_MIN, 30, 1),
        is_ratio(FREQUENCY_MAX, 1000, 1),
        is_ratio(GAIN, 1, 2),
{
    lemma2_to64();
    lemma2_to64_rest();
    assert(440 * pow2(44) * pow2(1030) == 440 * one()) by {
        lemma_pow2_adds(44, 1030);
        assert(440 * pow2(44) * pow2(1030) == 440 * (pow2(44) * pow2(1030)))
            by (nonlinear_arith);
    }
    assert(30 * pow2(48) * pow2(1026) == 30 * one()) by {
        lemma_pow2_adds(48, 1026);
        assert(30 * pow2(48) * pow2(1026) == 30 * (pow2(48) * pow2(1026)))
            by (nonlinear_arith);
    }
    assert(1000 * pow2(43) * pow2(1031) == 1000 * one()) by {
        lemma_pow2_adds(43, 1031);
        assert(1000 * pow2(43) * pow2(1031) == 1000 * (pow2(43) * pow2(1031)))
            by (nonlinear_arith);
    }
    assert(pow2(52) * pow2(1021) * 2 == one()) by {
        lemma_pow2_adds(52, 1021);
        lemma_pow2_adds(1073, 1);
    }
}

/// The part of the plugin that every thread may use: the frequency, which
/// the audio thread replaces when the host changes the parameter and which
/// both threads read.
pub struct PicosineShared {
    pub(crate) freq_hz: AtomicF64,
}

impl PicosineShared {
    /// The shared state of a new plugin, at the default frequency.
    pub fn new() -> Self {
        Self { freq_hz: AtomicF64::new(FREQUENCY_DEFAULT) }
    }
}

} // verus!
