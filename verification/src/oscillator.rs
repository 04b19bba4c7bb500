//! Waveform generation and the ADSR amplitude envelope.
//!
//! All waveform values are fixed-point amplitudes on the `UNIT` scale of
//! [`crate::volume`]. A waveform is sampled at a *cycle position*: the
//! fractional part of `elapsed_seconds * frequency_hz`, scaled to
//! `[0, UNIT)`. Elapsed time is measured in microseconds and frequencies
//! in millihertz, so one full cycle corresponds to a product of
//! `CYCLE_SCALE` microsecond-millihertz.

use vstd::prelude::*;
use vstd::arithmetic::div_mod::{
    lemma_div_is_ordered, lemma_div_pos_is_pos, lemma_mod_bound, lemma_multiply_divide_le,
    lemma_multiply_divide_lt,
};
use vstd::arithmetic::mul::{
    lemma_mul_inequality, lemma_mul_nonnegative, lemma_mul_strict_inequality,
    lemma_mul_upper_bound,
};
use crate::volume::{scale_sample, scaled, Volume, UNIT};

verus! {

/// One full waveform cycle, in microsecond-millihertz:
/// `1 us * 1 millihz = 10^-9` cycles.
pub const CYCLE_SCALE: u64 = 1_000_000_000;

/// `2 * pi` on the `UNIT` scale, rounded to the nearest integer.
pub const TWO_PI_UNITS: i64 = 6_283_185;

/// `pi` on the `UNIT` scale, rounded to the nearest integer.
pub const PI_UNITS: i64 = 3_141_593;

/// The largest magnitude any raw waveform sample can reach: the triangle
/// waveform peaks just above `pi / 2` on the `UNIT` scale.
pub const WAVE_PEAK: i64 = 1_570_797;

/// Largest detune offset an oscillator accepts, in millihertz.
pub const MAX_DETUNE_MILLIHZ: i64 = 1_000_000_000_000;

/// Gain of the oscillator built by `Oscillator::new`.
pub const DEFAULT_GAIN: i64 = 800_000;

/// Gain of the detuned unison oscillators built by `Oscillator::new2`.
pub const UNISON_GAIN: i64 = 300_000;

/// The closed set of waveform shapes an oscillator can produce.
#[derive(Clone, Copy, Debug, PartialEq, Eq, Structural)]
pub enum Waveform {
    Sine,
    Triangle,
    Square,
}

/// The position within the current waveform cycle, scaled to `[0, UNIT)`:
/// the fractional cycle `(elapsed_us * freq_millihz) / CYCLE_SCALE`,
/// expressed in `UNIT` steps.
pub open spec fn cycle_pos(elapsed_us: int, freq_millihz: int) -> int
    recommends
        0 <= elapsed_us,
        0 <= freq_millihz,
{
    (elapsed_us * freq_millihz) % (CYCLE_SCALE as int) / 1_000
}

pub proof fn lemma_cycle_pos_in_range(elapsed_us: int, freq_millihz: int)
    requires
        0 <= elapsed_us,
        0 <= freq_millihz,
    ensures
        0 <= cycle_pos(elapsed_us, freq_millihz) < UNIT,
{
    let prod = elapsed_us * freq_millihz;
    lemma_mul_nonnegative(elapsed_us, freq_millihz);
    lemma_mod_bound(prod, CYCLE_SCALE as int);
    lemma_div_pos_is_pos(prod % (CYCLE_SCALE as int), 1_000);
    lemma_div_is_ordered(prod % (CYCLE_SCALE as int), 999_999_999, 1_000);
}

fn cycle_position(elapsed_us: u64, freq_millihz: u64) -> (p: u64)
    ensures
        p == cycle_pos(elapsed_us as int, freq_millihz as int),
        p < UNIT,
{
    proof {
        lemma_cycle_pos_in_range(elapsed_us as int, freq_millihz as int);
        lemma_mul_upper_bound(
            elapsed_us as int,
            u64::MAX as int,
            freq_millihz as int,
            u64::MAX as int,
        );
    }
    let prod: u128 = (elapsed_us as u128) * (freq_millihz as u128);
    (prod % (CYCLE_SCALE as u128) / 1_000) as u64
}

/// One half-wave of the sine approximation: for `t` in `[0, UNIT]`, the
/// value of `sin(pi * t / UNIT)` on the `UNIT` scale, computed by the
/// rational approximation `16 h / (5 - 4 h)` with `h = (t/UNIT)(1 - t/UNIT)`.
/// It is exact at `t = 0`, `t = UNIT / 2` and `t = UNIT`.
pub open spec fn half_sine(t: int) -> int
    recommends
        0 <= t <= UNIT,
{
    let hump = t * (UNIT - t) / (UNIT as int);
    16 * hump * (UNIT as int) / (5 * (UNIT as int) - 4 * hump)
}

pub proof fn lemma_half_sine_in_range(t: int)
    requires
        0 <= t <= UNIT,
    ensures
        0 <= half_sine(t) <= UNIT,
{
    let u = UNIT as int;
    assert(t * (u - t) <= 250_000_000_000) by (nonlinear_arith)
        requires
            0 <= t <= 1_000_000,
            u == 1_000_000,
    ;
    lemma_mul_nonnegative(t, u - t);
    let hump = t * (u - t) / u;
    lemma_div_pos_is_pos(t * (u - t), u);
    lemma_div_is_ordered(t * (u - t), 250_000_000_000, u);
    assert(hump <= 250_000);
    let num = 16 * hump * u;
    let den = 5 * u - 4 * hump;
    assert(num <= den * u) by (nonlinear_arith)
        requires
            0 <= hump <= 250_000,
            num == 16 * hump * u,
            den == 5 * u - 4 * hump,
            u == 1_000_000,
    ;
    lemma_mul_nonnegative(16 * hump, u);
    lemma_div_pos_is_pos(num, den);
    lemma_multiply_divide_le(num, den, u);
}

fn half_sine_value(t: u64) -> (s: i64)
    requires
        t <= UNIT,
    ensures
        s == half_sine(t as int),
        0 <= s <= UNIT,
{
    proof {
        lemma_half_sine_in_range(t as int);
        assert(t as int * (UNIT - t) <= 250_000_000_000) by (nonlinear_arith)
            requires
                0 <= t <= 1_000_000,
                UNIT == 1_000_000i64,
        ;
        lemma_mul_nonnegative(t as int, UNIT - t);
        lemma_div_pos_is_pos(t as int * (UNIT - t), UNIT as int);
        lemma_div_is_ordered(t as int * (UNIT - t), 250_000_000_000, UNIT as int);
    }
    let hump: u64 = t * (1_000_000 - t) / 1_000_000;
    let num: u64 = 16 * hump * 1_000_000;
    let den: u64 = 5_000_000 - 4 * hump;
    proof {
        lemma_mul_nonnegative(16 * (hump as int), UNIT as int);
        lemma_div_pos_is_pos(16 * (hump as int) * (UNIT as int), 5 * (UNIT as int) - 4 * (hump as int));
    }
    (num / den) as i64
}

/// The raw value of a waveform at a cycle position in `[0, UNIT)`.
///
/// - `Sine` is the half-wave approximation, positive on the first half of
///   the cycle and mirrored on the second.
/// - `Square` is the sign of the sine: `UNIT` strictly inside the first
///   half-cycle and `-UNIT` elsewhere (the sine is zero at position zero,
///   which counts as the negative side).
/// - `Triangle` is `asin(sin(phase))`: a piecewise-linear wave of slope
///   `2 * pi` peaking at `pi / 2` on the `UNIT` scale. It is deliberately
///   not normalised to `[-UNIT, UNIT]`.
pub open spec fn wave_value(w: Waveform, pos: int) -> int
    recommends
        0 <= pos < UNIT,
{
    match w {
        Waveform::Sine => if pos < 500_000 {
            half_sine(2 * pos)
        } else {
            -half_sine(2 * pos - UNIT)
        },
        Waveform::Square => if 0 < pos < 500_000 {
            UNIT as int
        } else {
            -(UNIT as int)
        },
        Waveform::Triangle => if pos < 250_000 {
            (TWO_PI_UNITS as int) * pos / (UNIT as int)
        } else if pos < 750_000 {
            (PI_UNITS as int) - (TWO_PI_UNITS as int) * pos / (UNIT as int)
        } else {
            (TWO_PI_UNITS as int) * pos / (UNIT as int) - (TWO_PI_UNITS as int)
        },
    }
}

pub proof fn lemma_wave_value_in_range(w: Waveform, pos: int)
    requires
        0 <= pos < UNIT,
    ensures
        -WAVE_PEAK <= wave_value(w, pos) <= WAVE_PEAK,
{
    match w {
        Waveform::Sine => {
            if pos < 500_000 {
                lemma_half_sine_in_range(2 * pos);
            } else {
                lemma_half_sine_in_range(2 * pos - UNIT);
            }
        },
        Waveform::Square => {},
        Waveform::Triangle => {
            let u = UNIT as int;
            let tp = TWO_PI_UNITS as int;
            lemma_mul_nonnegative(tp, pos);
            lemma_div_pos_is_pos(tp * pos, u);
            if pos < 250_000 {
                lemma_mul_inequality(pos, 249_999, tp);
                lemma_div_is_ordered(tp * pos, tp * 249_999, u);
            } else if pos < 750_000 {
                lemma_mul_inequality(250_000, pos, tp);
                lemma_div_is_ordered(tp * 250_000, tp * pos, u);
                lemma_mul_inequality(pos, 749_999, tp);
                lemma_div_is_ordered(tp * pos, tp * 749_999, u);
            } else {
                lemma_mul_inequality(750_000, pos, tp);
                lemma_div_is_ordered(tp * 750_000, tp * pos, u);
                lemma_mul_inequality(pos, 999_999, tp);
                lemma_div_is_ordered(tp * pos, tp * 999_999, u);
            }
        },
    }
}

fn wave_at(w: Waveform, pos: u64) -> (s: i64)
    requires
        pos < UNIT,
    ensures
        s == wave_value(w, pos as int),
        -WAVE_PEAK <= s <= WAVE_PEAK,
{
    proof {
        lemma_wave_value_in_range(w, pos as int);
    }
    match w {
        Waveform::Sine => {
            if pos < 500_000 {
                half_sine_value(2 * pos)
            } else {
                -half_sine_value(2 * pos - 1_000_000)
            }
        },
        Waveform::Square => {
            if 0 < pos && pos < 500_000 {
                1_000_000
            } else {
                -1_000_000
            }
        },
        Waveform::Triangle => {
            proof {
                lemma_mul_nonnegative(TWO_PI_UNITS as int, pos as int);
                lemma_div_pos_is_pos(TWO_PI_UNITS as int * pos as int, UNIT as int);
                lemma_mul_inequality(pos as int, 999_999, TWO_PI_UNITS as int);
                lemma_div_is_ordered(
                    TWO_PI_UNITS as int * pos as int,
                    TWO_PI_UNITS as int * 999_999,
                    UNIT as int,
                );
            }
            let ramp: u64 = 6_283_185 * pos / 1_000_000;
            if pos < 250_000 {
                ramp as i64
            } else if pos < 750_000 {
                3_141_593 - (ramp as i64)
            } else {
                (ramp as i64) - 6_283_185
            }
        },
    }
}

/// The raw sample of a waveform for a signed frequency. A negative
/// frequency runs the cycle backwards; every waveform here is an odd
/// function of phase, so the sample is the mirrored positive-frequency
/// sample.
pub open spec fn raw_wave(w: Waveform, elapsed_us: int, freq_millihz: int) -> int
    recommends
        0 <= elapsed_us,
{
    if freq_millihz >= 0 {
        wave_value(w, cycle_pos(elapsed_us, freq_millihz))
    } else {
        -wave_value(w, cycle_pos(elapsed_us, -freq_millihz))
    }
}

pub proof fn lemma_raw_wave_in_range(w: Waveform, elapsed_us: int, freq_millihz: int)
    requires
        0 <= elapsed_us,
    ensures
        -WAVE_PEAK <= raw_wave(w, elapsed_us, freq_millihz) <= WAVE_PEAK,
{
    if freq_millihz >= 0 {
        lemma_cycle_pos_in_range(elapsed_us, freq_millihz);
        lemma_wave_value_in_range(w, cycle_pos(elapsed_us, freq_millihz));
    } else {
        lemma_cycle_pos_in_range(elapsed_us, -freq_millihz);
        lemma_wave_value_in_range(w, cycle_pos(elapsed_us, -freq_millihz));
    }
}

/// The gain of the attack/decay/sustain stages at elapsed time `t`
/// microseconds after note start, on the `UNIT` scale: a linear ramp from
/// `0` to `UNIT` over the attack, a linear fall from `UNIT` to `sustain`
/// over the decay, then constantly `sustain`. A zero-length stage is
/// skipped.
pub open spec fn stage_gain(attack: int, decay: int, sustain: int, t: int) -> int
    recommends
        0 <= t,
{
    if t < attack {
        t * (UNIT as int) / attack
    } else if t < attack + decay {
        (UNIT as int) - (t - attack) * ((UNIT as int) - sustain) / decay
    } else {
        sustain
    }
}

/// The full envelope gain at elapsed time `t`, given the elapsed time at
/// which the release began, if any. Before the release onset the stage
/// gain applies unchanged; from the onset the gain frozen at the onset
/// fades linearly to exactly `0` over the release time, and stays `0`
/// afterwards.
pub open spec fn envelope_gain(
    attack: int,
    decay: int,
    sustain: int,
    release: int,
    t: int,
    release_start: Option<int>,
) -> int
    recommends
        0 <= t,
{
    match release_start {
        None => stage_gain(attack, decay, sustain, t),
        Some(r) => if t < r {
            stage_gain(attack, decay, sustain, t)
        } else if t < r + release {
            stage_gain(attack, decay, sustain, r) * (release - (t - r)) / release
        } else {
            0
        },
    }
}

/// The stage gain always lies in `[0, UNIT]` when the sustain level does.
pub proof fn lemma_stage_gain_in_range(attack: int, decay: int, sustain: int, t: int)
    requires
        0 <= sustain <= UNIT,
        0 <= t,
    ensures
        0 <= stage_gain(attack, decay, sustain, t) <= UNIT,
{
    let u = UNIT as int;
    if t < attack {
        lemma_mul_nonnegative(t, u);
        lemma_div_pos_is_pos(t * u, attack);
        lemma_mul_strict_inequality(t, attack, u);
        lemma_multiply_divide_lt(t * u, attack, u);
    } else if t < attack + decay {
        let diff = t - attack;
        let gap = u - sustain;
        lemma_mul_nonnegative(diff, gap);
        lemma_div_pos_is_pos(diff * gap, decay);
        lemma_mul_inequality(diff, decay, gap);
        lemma_multiply_divide_le(diff * gap, decay, gap);
    }
}

/// The envelope gain always lies in `[0, UNIT]` when the sustain level
/// does: amplitude shaping can only attenuate.
pub proof fn lemma_envelope_gain_in_range(
    attack: int,
    decay: int,
    sustain: int,
    release: int,
    t: int,
    release_start: Option<int>,
)
    requires
        0 <= sustain <= UNIT,
        0 <= t,
        release_start is Some ==> 0 <= release_start->0,
    ensures
        0 <= envelope_gain(attack, decay, sustain, release, t, release_start) <= UNIT,
{
    match release_start {
        None => lemma_stage_gain_in_range(attack, decay, sustain, t),
        Some(r) => {
            if t < r {
                lemma_stage_gain_in_range(attack, decay, sustain, t);
            } else if t < r + release {
                let g = stage_gain(attack, decay, sustain, r);
                let rem = release - (t - r);
                lemma_stage_gain_in_range(attack, decay, sustain, r);
                lemma_mul_nonnegative(g, rem);
                lemma_div_pos_is_pos(g * rem, release);
                lemma_mul_inequality(rem, release, g);
                assert(g * rem == rem * g) by (nonlinear_arith);
                lemma_multiply_divide_le(g * rem, release, g);
            }
        },
    }
}

/// Law: at every elapsed time past the attack and decay stages, with no
/// release under way, the envelope holds at exactly the sustain level.
/// A degenerate zero-length decay simply skips the decay stage.
pub proof fn law_sustain_after_decay(
    attack: int,
    decay: int,
    sustain: int,
    release: int,
    t: int,
)
    requires
        0 <= decay,
        attack + decay <= t,
    ensures
        envelope_gain(attack, decay, sustain, release, t, None) == sustain,
{
}

/// Law: once a release has begun at elapsed time `r`, the envelope gain
/// never increases as elapsed time grows past `r`.
pub proof fn law_release_monotonic(
    attack: int,
    decay: int,
    sustain: int,
    release: int,
    r: int,
    t1: int,
    t2: int,
)
    requires
        0 <= sustain <= UNIT,
        0 <= r <= t1 <= t2,
    ensures
        envelope_gain(attack, decay, sustain, release, t1, Some(r))
            >= envelope_gain(attack, decay, sustain, release, t2, Some(r)),
{
    let g = stage_gain(attack, decay, sustain, r);
    lemma_stage_gain_in_range(attack, decay, sustain, r);
    if t2 < r + release {
        let rem1 = release - (t1 - r);
        let rem2 = release - (t2 - r);
        assert(g * rem2 <= g * rem1) by (nonlinear_arith)
            requires
                0 <= g,
                rem2 <= rem1,
        ;
        lemma_div_is_ordered(g * rem2, g * rem1, release);
    } else if t1 < r + release {
        lemma_mul_nonnegative(g, release - (t1 - r));
        lemma_div_pos_is_pos(g * (release - (t1 - r)), release);
    }
}

/// Law: from the moment a full release time has passed after the release
/// onset, the envelope gain is exactly zero.
pub proof fn law_release_silences(
    attack: int,
    decay: int,
    sustain: int,
    release: int,
    r: int,
    t: int,
)
    requires
        0 <= release,
        r + release <= t,
    ensures
        envelope_gain(attack, decay, sustain, release, t, Some(r)) == 0,
{
}

/// An amplitude envelope: a pure function from elapsed time (and the
/// elapsed time at which the release began, if any) to a gain multiplier
/// on the `UNIT` scale.
pub trait Envlope {
    /// The gain the envelope prescribes, as a mathematical integer.
    spec fn gain_at(&self, elapsed_us: u64, release_start_us: Option<u64>) -> int;

    /// Computes the gain; the result always lies in `[0, UNIT]`.
    fn get_envlope(&self, elapsed_us: u64, release_start_us: Option<u64>) -> (g: i64)
        ensures
            g == self.gain_at(elapsed_us, release_start_us),
            0 <= g <= UNIT,
    ;
}

/// An attack/decay/sustain/release envelope. Times are in microseconds;
/// the sustain level is a gain on the `UNIT` scale.
#[derive(Clone, Copy, Debug)]
pub struct ADSR {
    pub(crate) attack_us: u64,
    pub(crate) decay_us: u64,
    pub(crate) sustain: i64,
    pub(crate) release_us: u64,
}

impl ADSR {
    #[verifier::type_invariant]
    pub(crate) open spec fn inv(self) -> bool {
        0 <= self.sustain <= UNIT
    }

    /// The attack time, in microseconds.
    pub closed spec fn attack_us(self) -> int {
        self.attack_us as int
    }

    /// The decay time, in microseconds.
    pub closed spec fn decay_us(self) -> int {
        self.decay_us as int
    }

    /// The sustain level, a gain on the `UNIT` scale.
    pub closed spec fn sustain(self) -> int {
        self.sustain as int
    }

    /// The release time, in microseconds.
    pub closed spec fn release_us(self) -> int {
        self.release_us as int
    }

    /// Accepts any stage times; the sustain level must be a gain in
    /// `[0, UNIT]`.
    pub fn new(attack_us: u64, decay_us: u64, sustain: i64, release_us: u64) -> (r: Option<ADSR>)
        ensures
            0 <= sustain <= UNIT <==> r is Some,
            r is Some ==> {
                &&& r->0.attack_us() == attack_us
                &&& r->0.decay_us() == decay_us
                &&& r->0.sustain() == sustain
                &&& r->0.release_us() == release_us
            },
    {
        if 0 <= sustain && sustain <= UNIT {
            Some(ADSR { attack_us, decay_us, sustain, release_us })
        } else {
            None
        }
    }

    /// The same envelope with a new attack time.
    pub fn with_attack_us(self, attack_us: u64) -> (r: ADSR)
        ensures
            r.attack_us() == attack_us,
            r.decay_us() == self.decay_us(),
            r.sustain() == self.sustain(),
            r.release_us() == self.release_us(),
    {
        proof {
            use_type_invariant(&self);
        }
        ADSR { attack_us, ..self }
    }

    /// The same envelope with a new decay time.
    pub fn with_decay_us(self, decay_us: u64) -> (r: ADSR)
        ensures
            r.attack_us() == self.attack_us(),
            r.decay_us() == decay_us,
            r.sustain() == self.sustain(),
            r.release_us() == self.release_us(),
    {
        proof {
            use_type_invariant(&self);
        }
        ADSR { decay_us, ..self }
    }

    /// The same envelope with a new sustain level; a level outside
    /// `[0, UNIT]` is rejected and the previous level is retained.
    pub fn with_sustain(self, sustain: i64) -> (r: ADSR)
        ensures
            r.sustain() == (if 0 <= sustain <= UNIT {
                sustain as int
            } else {
                self.sustain()
            }),
            r.attack_us() == self.attack_us(),
            r.decay_us() == self.decay_us(),
            r.release_us() == self.release_us(),
    {
        proof {
            use_type_invariant(&self);
        }
        if 0 <= sustain && sustain <= UNIT {
            ADSR { sustain, ..self }
        } else {
            self
        }
    }

    /// The same envelope with a new release time.
    pub fn with_release_us(self, release_us: u64) -> (r: ADSR)
        ensures
            r.attack_us() == self.attack_us(),
            r.decay_us() == self.decay_us(),
            r.sustain() == self.sustain(),
            r.release_us() == release_us,
    {
        proof {
            use_type_invariant(&self);
        }
        ADSR { release_us, ..self }
    }

    /// The attack/decay/sustain stage gain at elapsed time `t`.
    fn stage(&self, t: u64) -> (g: i64)
        ensures
            g == stage_gain(self.attack_us(), self.decay_us(), self.sustain(), t as int),
            0 <= g <= UNIT,
    {
        proof {
            use_type_invariant(self);
            lemma_stage_gain_in_range(self.attack_us(), self.decay_us(), self.sustain(), t as int);
        }
        if t < self.attack_us {
            proof {
                lemma_mul_nonnegative(t as int, UNIT as int);
                lemma_mul_strict_inequality(t as int, self.attack_us(), UNIT as int);
                lemma_multiply_divide_lt(t as int * (UNIT as int), self.attack_us(), UNIT as int);
                lemma_div_pos_is_pos(t as int * (UNIT as int), self.attack_us());
            }
            ((t as u128) * 1_000_000 / (self.attack_us as u128)) as i64
        } else if (t as u128) < (self.attack_us as u128) + (self.decay_us as u128) {
            let diff: u64 = t - self.attack_us;
            let gap: u64 = (UNIT - self.sustain) as u64;
            proof {
                lemma_mul_nonnegative(diff as int, gap as int);
                lemma_mul_upper_bound(diff as int, u64::MAX as int, gap as int, UNIT as int);
                lemma_mul_inequality(diff as int, self.decay_us(), gap as int);
                lemma_multiply_divide_le(diff as int * gap as int, self.decay_us(), gap as int);
                lemma_div_pos_is_pos(diff as int * gap as int, self.decay_us());
            }
            let fall: u64 = ((diff as u128) * (gap as u128) / (self.decay_us as u128)) as u64;
            UNIT - (fall as i64)
        } else {
            self.sustain
        }
    }
}

impl Envlope for ADSR {
    /// The ADSR gain: `envelope_gain` over this envelope's parameters.
    open spec fn gain_at(&self, elapsed_us: u64, release_start_us: Option<u64>) -> int {
        envelope_gain(
            self.attack_us(),
            self.decay_us(),
            self.sustain(),
            self.release_us(),
            elapsed_us as int,
            match release_start_us {
                None => None,
                Some(r) => Some(r as int),
            },
        )
    }

    fn get_envlope(&self, elapsed_us: u64, release_start_us: Option<u64>) -> (g: i64) {
        proof {
            use_type_invariant(self);
        }
        match release_start_us {
            None => self.stage(elapsed_us),
            Some(r) => {
                if elapsed_us < r {
                    self.stage(elapsed_us)
                } else if (elapsed_us as u128) < (r as u128) + (self.release_us as u128) {
                    let frozen = self.stage(r);
                    let rem: u64 = self.release_us - (elapsed_us - r);
                    proof {
                        lemma_mul_nonnegative(frozen as int, rem as int);
                        lemma_mul_upper_bound(frozen as int, UNIT as int, rem as int, u64::MAX as int);
                        lemma_mul_inequality(rem as int, self.release_us(), frozen as int);
                        assert(frozen as int * rem as int == rem as int * frozen as int)
                            by (nonlinear_arith);
                        lemma_multiply_divide_le(
                            frozen as int * rem as int,
                            self.release_us(),
                            frozen as int,
                        );
                        lemma_div_pos_is_pos(frozen as int * rem as int, self.release_us());
                    }
                    ((frozen as u128) * (rem as u128) / (self.release_us as u128)) as i64
                } else {
                    0
                }
            },
        }
    }
}

/// A single periodic waveform generator with its own additive detune
/// offset and static gain.
#[derive(Clone, Copy, Debug)]
pub struct Oscillator {
    pub(crate) waveform: Waveform,
    pub(crate) detune_millihz: i64,
    pub(crate) volume: Volume,
}

impl Oscillator {
    #[verifier::type_invariant]
    pub(crate) open spec fn inv(self) -> bool {
        -MAX_DETUNE_MILLIHZ <= self.detune_millihz <= MAX_DETUNE_MILLIHZ
    }

    /// The oscillator's waveform shape.
    pub closed spec fn waveform(self) -> Waveform {
        self.waveform
    }

    /// The oscillator's additive detune offset, in millihertz.
    pub closed spec fn detune(self) -> int {
        self.detune_millihz as int
    }

    /// The oscillator's static gain.
    pub closed spec fn volume(self) -> Volume {
        self.volume
    }

    /// The default oscillator: an undetuned triangle wave at `DEFAULT_GAIN`.
    pub fn new() -> (r: Oscillator)
        ensures
            r.waveform() == Waveform::Triangle,
            r.detune() == 0,
            r.volume().gain() == DEFAULT_GAIN,
    {
        Oscillator {
            waveform: Waveform::Triangle,
            detune_millihz: 0,
            volume: Volume::new(DEFAULT_GAIN).unwrap(),
        }
    }

    /// A unison voice: a triangle wave at `UNISON_GAIN` with the given
    /// detune offset.
    pub fn new2(detune_millihz: i64) -> (r: Oscillator)
        requires
            -MAX_DETUNE_MILLIHZ <= detune_millihz <= MAX_DETUNE_MILLIHZ,
        ensures
            r.waveform() == Waveform::Triangle,
            r.detune() == detune_millihz,
            r.volume().gain() == UNISON_GAIN,
    {
        Oscillator {
            waveform: Waveform::Triangle,
            detune_millihz,
            volume: Volume::new(UNISON_GAIN).unwrap(),
        }
    }

    /// An oscillator with every setting chosen by the caller.
    pub fn with_settings(waveform: Waveform, detune_millihz: i64, volume: Volume) -> (r: Oscillator)
        requires
            -MAX_DETUNE_MILLIHZ <= detune_millihz <= MAX_DETUNE_MILLIHZ,
        ensures
            r.waveform() == waveform,
            r.detune() == detune_millihz,
            r.volume() == volume,
    {
        Oscillator { waveform, detune_millihz, volume }
    }

    /// The raw waveform sample at the given elapsed time for the given
    /// signed effective frequency (detune already applied by the caller).
    pub fn waveform_make_sample(&self, elapsed_us: u64, freq_millihz: i64) -> (s: i64)
        ensures
            s == raw_wave(self.waveform(), elapsed_us as int, freq_millihz as int),
            -WAVE_PEAK <= s <= WAVE_PEAK,
    {
        if freq_millihz >= 0 {
            wave_at(self.waveform, cycle_position(elapsed_us, freq_millihz as u64))
        } else {
            let magnitude: u64 = (-(freq_millihz as i128)) as u64;
            -wave_at(self.waveform, cycle_position(elapsed_us, magnitude))
        }
    }

    /// The oscillator's contribution to the mix at the given elapsed time
    /// for a note at the given base frequency: the raw waveform sample at
    /// the detuned frequency, scaled by the oscillator's own gain.
    pub open spec fn scaled_sample(self, elapsed_us: int, base_freq_millihz: int) -> int {
        scaled(
            raw_wave(self.waveform(), elapsed_us, base_freq_millihz + self.detune()),
            self.volume().gain(),
        )
    }

    /// Samples the detuned waveform and applies the oscillator's gain.
    pub fn make_sample(&self, elapsed_us: u64, base_freq_millihz: u64) -> (s: i64)
        requires
            base_freq_millihz <= crate::midi::MAX_FREQ_MILLIHZ,
        ensures
            s == self.scaled_sample(elapsed_us as int, base_freq_millihz as int),
            -WAVE_PEAK <= s <= WAVE_PEAK,
    {
        proof {
            use_type_invariant(self);
        }
        let effective: i64 = (base_freq_millihz as i64) + self.detune_millihz;
        let raw = self.waveform_make_sample(elapsed_us, effective);
        let s = scale_sample(raw, self.volume.get_volume());
        proof {
            lemma_raw_wave_in_range(self.waveform(), elapsed_us as int, effective as int);
        }
        s
    }
}

} // verus!
