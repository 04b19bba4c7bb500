//! Validated scalar gain, and fixed-point amplitude scaling.

use vstd::prelude::*;

verus! {

/// One whole unit of gain or amplitude in the engine's fixed-point scale:
/// a gain of `UNIT` means "multiply by 1.0", and a full-scale sample has
/// magnitude `UNIT`.
pub const UNIT: i64 = 1_000_000;

/// Largest sample magnitude that `scale_sample` accepts; chosen so that
/// `SCALE_LIMIT * UNIT` still fits in an `i64`.
pub const SCALE_LIMIT: i64 = 2_000_000_000_000;

/// The one recoverable error of the control plane: a gain outside `[0, UNIT]`.
#[derive(Clone, Copy, Debug, PartialEq, Eq)]
pub enum VolumeError {
    GainOutOfRange,
}

/// A master or per-oscillator gain, always within `[0, UNIT]`.
#[derive(Clone, Copy, Debug)]
pub struct Volume {
    pub(crate) gain: i64,
}

impl Volume {
    #[verifier::type_invariant]
    pub(crate) open spec fn inv(self) -> bool {
        0 <= self.gain <= UNIT
    }

    /// The current gain, as a mathematical integer.
    pub closed spec fn gain(self) -> int {
        self.gain as int
    }

    /// Accepts exactly the gains in `[0, UNIT]`; anything else is rejected
    /// with `GainOutOfRange`.
    pub fn new(gain: i64) -> (r: Result<Volume, VolumeError>)
        ensures
            0 <= gain <= UNIT <==> r is Ok,
            r is Ok ==> r->Ok_0.gain() == gain,
            r is Err ==> r->Err_0 == VolumeError::GainOutOfRange,
    {
        if gain < 0 || gain > UNIT {
            Err(VolumeError::GainOutOfRange)
        } else {
            Ok(Volume { gain })
        }
    }

    /// Reads the gain; the result is always in `[0, UNIT]`.
    pub fn get_volume(&self) -> (g: i64)
        ensures
            g == self.gain(),
            0 <= g <= UNIT,
    {
        proof {
            use_type_invariant(self);
        }
        self.gain
    }

    /// Same validation as `new`; on failure the previous gain is retained.
    pub fn set_volume(&mut self, gain: i64) -> (r: Result<(), VolumeError>)
        ensures
            0 <= gain <= UNIT ==> r == Ok::<(), VolumeError>(()) && final(self).gain() == gain,
            !(0 <= gain <= UNIT) ==> r == Err::<(), VolumeError>(VolumeError::GainOutOfRange)
                && *final(self) == *old(self),
        no_unwind
    {
        if gain < 0 || gain > UNIT {
            Err(VolumeError::GainOutOfRange)
        } else {
            self.gain = gain;
            Ok(())
        }
    }
}

/// A sample scaled by a gain: the mathematical product `sample * gain / UNIT`,
/// rounded towards zero.
pub open spec fn scaled(sample: int, gain: int) -> int {
    if sample >= 0 {
        sample * gain / (UNIT as int)
    } else {
        -((-sample) * gain / (UNIT as int))
    }
}

/// Scaling by a gain in `[0, UNIT]` never grows a sample's magnitude.
pub proof fn lemma_scaled_magnitude(sample: int, gain: int)
    requires
        0 <= gain <= UNIT,
    ensures
        sample >= 0 ==> 0 <= scaled(sample, gain) <= sample,
        sample < 0 ==> sample <= scaled(sample, gain) <= 0,
{
    if sample >= 0 {
        lemma_scaled_magnitude_nonneg(sample, gain);
    } else {
        lemma_scaled_magnitude_nonneg(-sample, gain);
    }
}

proof fn lemma_scaled_magnitude_nonneg(sample: int, gain: int)
    requires
        0 <= gain <= UNIT,
        sample >= 0,
    ensures
        0 <= sample * gain / (UNIT as int) <= sample,
{
    assert(0 <= sample * gain <= sample * (UNIT as int)) by (nonlinear_arith)
        requires
            0 <= gain <= UNIT as int,
            sample >= 0,
    ;
    assert(0 <= sample * gain / (UNIT as int) <= sample) by (nonlinear_arith)
        requires
            0 <= sample * gain <= sample * (UNIT as int),
            sample >= 0,
    ;
}

/// Applies a gain in `[0, UNIT]` to a sample, rounding towards zero.
pub fn scale_sample(sample: i64, gain: i64) -> (r: i64)
    requires
        -SCALE_LIMIT <= sample <= SCALE_LIMIT,
        0 <= gain <= UNIT,
    ensures
        r == scaled(sample as int, gain as int),
        sample >= 0 ==> 0 <= r <= sample,
        sample < 0 ==> sample <= r <= 0,
{
    proof {
        lemma_scaled_magnitude(sample as int, gain as int);
    }
    if sample >= 0 {
        let prod: u64 = (sample as u64) * (gain as u64);
        (prod / (UNIT as u64)) as i64
    } else {
        let prod: u64 = ((-sample) as u64) * (gain as u64);
        -((prod / (UNIT as u64)) as i64)
    }
}

} // verus!
