//! Gain and integration-time models, configuration-word arithmetic, and the
//! exact integer form of the lux formula.
//!
//! The sensor's lux formula is `0.0036 * gain_factor * time_factor * raw * 1000`
//! with the documented factors below. Every factor has at most four decimal
//! places, so the whole computation is exact in integers once the result is
//! expressed in micro-lux: `0.0036 * 1000 * 10^6 / 10^4 = 360`, hence
//! `microlux = 360 * gain_factor * (time_factor * 10^4) * raw`.

use vstd::prelude::*;
use crate::registers::{ALS_SD, GAIN_FIELD, GAIN_SHIFT, IT_FIELD, IT_SHIFT};

verus! {

/// Photodiode gain setting: a sensitivity multiplier of 1/8, 1/4, 1, or 2.
#[derive(Clone, Copy, Debug, PartialEq, Eq, Structural)]
pub enum Gain {
    OneEighth,
    OneFourth,
    One,
    Two,
}

impl Gain {
    /// The two-bit device code of this gain setting.
    pub open spec fn spec_mask(self) -> u16 {
        match self {
            Gain::OneEighth => 0b10,
            Gain::OneFourth => 0b11,
            Gain::One => 0b00,
            Gain::Two => 0b01,
        }
    }

    /// The two-bit device code of this gain setting, for register packing.
    pub fn as_mask(&self) -> (r: u16)
        ensures
            r == self.spec_mask(),
    {
        match self {
            Gain::OneEighth => 0b10,
            Gain::OneFourth => 0b11,
            Gain::One => 0b00,
            Gain::Two => 0b01,
        }
    }

    /// The dimensionless factor this gain setting contributes to the lux
    /// formula: the inverse of its relative sensitivity. All four factors
    /// are whole numbers.
    pub open spec fn spec_factor(self) -> u16 {
        match self {
            Gain::OneEighth => 16,
            Gain::OneFourth => 8,
            Gain::One => 2,
            Gain::Two => 1,
        }
    }

    /// The lux-formula factor of this gain setting.
    pub fn as_factor(&self) -> (r: u16)
        ensures
            r == self.spec_factor(),
            1 <= r <= 16,
    {
        match self {
            Gain::OneEighth => 16,
            Gain::OneFourth => 8,
            Gain::One => 2,
            Gain::Two => 1,
        }
    }

    /// The gain setting a device code denotes, if any. Every two-bit code
    /// denotes one; anything wider denotes none.
    pub open spec fn spec_from_code(code: u16) -> Option<Gain> {
        if code == 0b00 {
            Some(Gain::One)
        } else if code == 0b01 {
            Some(Gain::Two)
        } else if code == 0b10 {
            Some(Gain::OneEighth)
        } else if code == 0b11 {
            Some(Gain::OneFourth)
        } else {
            None
        }
    }

    /// Decode a device code back into a gain setting.
    pub fn from_code(code: u16) -> (r: Option<Gain>)
        ensures
            r == Self::spec_from_code(code),
    {
        match code {
            0b00 => Some(Gain::One),
            0b01 => Some(Gain::Two),
            0b10 => Some(Gain::OneEighth),
            0b11 => Some(Gain::OneFourth),
            _ => None,
        }
    }
}

/// Integration-time setting: how long the sensor accumulates light, in
/// milliseconds, before producing a raw count.
#[derive(Clone, Copy, Debug, PartialEq, Eq, Structural)]
pub enum IntTime {
    _25,
    _50,
    _100,
    _200,
    _400,
    _800,
}

impl IntTime {
    /// The four-bit device code of this integration-time setting.
    pub open spec fn spec_mask(self) -> u16 {
        match self {
            IntTime::_25 => 0b1100,
            IntTime::_50 => 0b1000,
            IntTime::_100 => 0b0000,
            IntTime::_200 => 0b0001,
            IntTime::_400 => 0b0010,
            IntTime::_800 => 0b0011,
        }
    }

    /// The four-bit device code of this setting, for register packing.
    pub fn as_mask(&self) -> (r: u16)
        ensures
            r == self.spec_mask(),
    {
        match self {
            IntTime::_25 => 0b1100,
            IntTime::_50 => 0b1000,
            IntTime::_100 => 0b0000,
            IntTime::_200 => 0b0001,
            IntTime::_400 => 0b0010,
            IntTime::_800 => 0b0011,
        }
    }

    /// The resolution factor of this setting, in lux per count, scaled by
    /// 10^4 so that it is exact in integers (25 ms resolves 0.1152 lux per
    /// count, and the factor halves each time the integration time doubles).
    pub open spec fn spec_factor_x10000(self) -> u16 {
        match self {
            IntTime::_25 => 1152,
            IntTime::_50 => 576,
            IntTime::_100 => 288,
            IntTime::_200 => 144,
            IntTime::_400 => 72,
            IntTime::_800 => 36,
        }
    }

    /// The lux-formula resolution factor of this setting, scaled by 10^4.
    pub fn as_factor_x10000(&self) -> (r: u16)
        ensures
            r == self.spec_factor_x10000(),
            36 <= r <= 1152,
    {
        match self {
            IntTime::_25 => 1152,
            IntTime::_50 => 576,
            IntTime::_100 => 288,
            IntTime::_200 => 144,
            IntTime::_400 => 72,
            IntTime::_800 => 36,
        }
    }

    /// The integration-time setting a device code denotes, if any. Only six
    /// of the sixteen four-bit codes denote one.
    pub open spec fn spec_from_code(code: u16) -> Option<IntTime> {
        if code == 0b1100 {
            Some(IntTime::_25)
        } else if code == 0b1000 {
            Some(IntTime::_50)
        } else if code == 0b0000 {
            Some(IntTime::_100)
        } else if code == 0b0001 {
            Some(IntTime::_200)
        } else if code == 0b0010 {
            Some(IntTime::_400)
        } else if code == 0b0011 {
            Some(IntTime::_800)
        } else {
            None
        }
    }

    /// Decode a device code back into an integration-time setting.
    pub fn from_code(code: u16) -> (r: Option<IntTime>)
        ensures
            r == Self::spec_from_code(code),
    {
        match code {
            0b1100 => Some(IntTime::_25),
            0b1000 => Some(IntTime::_50),
            0b0000 => Some(IntTime::_100),
            0b0001 => Some(IntTime::_200),
            0b0010 => Some(IntTime::_400),
            0b0011 => Some(IntTime::_800),
            _ => None,
        }
    }
}

/// The configuration word `w` with its gain field replaced by the code of `g`.
pub open spec fn spec_with_gain(w: u16, g: Gain) -> u16 {
    (w & !GAIN_FIELD) | (g.spec_mask() << GAIN_SHIFT)
}

/// The gain code held in the gain field of the configuration word `w`.
pub open spec fn spec_gain_field(w: u16) -> u16 {
    (w >> GAIN_SHIFT) & 0b11
}

/// The configuration word `w` with its integration-time field replaced by
/// the code of `t`.
pub open spec fn spec_with_time(w: u16, t: IntTime) -> u16 {
    (w & !IT_FIELD) | (t.spec_mask() << IT_SHIFT)
}

/// The integration-time code held in the integration-time field of `w`.
pub open spec fn spec_time_field(w: u16) -> u16 {
    (w >> IT_SHIFT) & 0b1111
}

/// The configuration word `w` with its shutdown bit cleared: the sensor powered on.
pub open spec fn spec_enabled(w: u16) -> u16 {
    w & !ALS_SD
}

/// The configuration word `w` with its shutdown bit set: the sensor powered down.
pub open spec fn spec_disabled(w: u16) -> u16 {
    w | ALS_SD
}

/// The configuration word written at construction: shutdown set, gain 1/8,
/// integration time 100 ms, every other bit clear.
pub open spec fn spec_default_conf() -> u16 {
    ALS_SD | (Gain::OneEighth.spec_mask() << GAIN_SHIFT) | (IntTime::_100.spec_mask() << IT_SHIFT)
}

/// Packing a gain code into the gain field of any configuration word and
/// reading the field back yields the same gain setting.
pub proof fn lemma_gain_round_trip(w: u16, g: Gain)
    ensures
        Gain::spec_from_code(spec_gain_field(spec_with_gain(w, g))) == Some(g),
{
    let c = g.spec_mask();
    assert(c <= 0b11);
    assert((((w & !GAIN_FIELD) | (c << GAIN_SHIFT)) >> GAIN_SHIFT) & 0b11 == c)
        by (bit_vector)
        requires
            c <= 0b11,
    ;
    match g {
        Gain::OneEighth => {},
        Gain::OneFourth => {},
        Gain::One => {},
        Gain::Two => {},
    }
}

/// Packing an integration-time code into the integration-time field of any
/// configuration word and reading the field back yields the same setting.
pub proof fn lemma_time_round_trip(w: u16, t: IntTime)
    ensures
        IntTime::spec_from_code(spec_time_field(spec_with_time(w, t))) == Some(t),
{
    let c = t.spec_mask();
    assert(c <= 0b1111);
    assert((((w & !IT_FIELD) | (c << IT_SHIFT)) >> IT_SHIFT) & 0b1111 == c)
        by (bit_vector)
        requires
            c <= 0b1111,
    ;
    match t {
        IntTime::_25 => {},
        IntTime::_50 => {},
        IntTime::_100 => {},
        IntTime::_200 => {},
        IntTime::_400 => {},
        IntTime::_800 => {},
    }
}

/// Powering on, then off, then on again, with no other mutation in between,
/// restores the exact configuration word of the first power-on; and both
/// transitions are idempotent on the word.
pub proof fn lemma_enable_disable_enable(w: u16)
    ensures
        spec_enabled(spec_disabled(spec_enabled(w))) == spec_enabled(w),
        spec_enabled(spec_enabled(w)) == spec_enabled(w),
        spec_disabled(spec_disabled(w)) == spec_disabled(w),
{
    assert((((w & !ALS_SD) | ALS_SD) & !ALS_SD) == (w & !ALS_SD)) by (bit_vector);
    assert(((w & !ALS_SD) & !ALS_SD) == (w & !ALS_SD)) by (bit_vector);
    assert(((w | ALS_SD) | ALS_SD) == (w | ALS_SD)) by (bit_vector);
}

/// Toggling the shutdown bit, in either direction, leaves the gain and
/// integration-time fields of the configuration word untouched.
pub proof fn lemma_shutdown_preserves_fields(w: u16)
    ensures
        spec_gain_field(spec_enabled(w)) == spec_gain_field(w),
        spec_time_field(spec_enabled(w)) == spec_time_field(w),
        spec_gain_field(spec_disabled(w)) == spec_gain_field(w),
        spec_time_field(spec_disabled(w)) == spec_time_field(w),
{
    assert(((w & !ALS_SD) >> GAIN_SHIFT) & 0b11 == (w >> GAIN_SHIFT) & 0b11) by (bit_vector);
    assert(((w & !ALS_SD) >> IT_SHIFT) & 0b1111 == (w >> IT_SHIFT) & 0b1111) by (bit_vector);
    assert(((w | ALS_SD) >> GAIN_SHIFT) & 0b11 == (w >> GAIN_SHIFT) & 0b11) by (bit_vector);
    assert(((w | ALS_SD) >> IT_SHIFT) & 0b1111 == (w >> IT_SHIFT) & 0b1111) by (bit_vector);
}

/// The default configuration word has its shutdown bit set, its gain field
/// holding the code of gain 1/8, and its integration-time field holding the
/// code of 100 ms; its value is 0x1001.
pub proof fn lemma_default_conf()
    ensures
        spec_default_conf() == 0x1001,
        spec_default_conf() & ALS_SD == ALS_SD,
        Gain::spec_from_code(spec_gain_field(spec_default_conf())) == Some(Gain::OneEighth),
        IntTime::spec_from_code(spec_time_field(spec_default_conf())) == Some(IntTime::_100),
{
    assert(ALS_SD | (0b10u16 << GAIN_SHIFT) | (0b0000u16 << IT_SHIFT) == 0x1001u16) by (bit_vector);
    assert((0x1001u16 >> GAIN_SHIFT) & 0b11 == 0b10u16) by (bit_vector);
    assert((0x1001u16 >> IT_SHIFT) & 0b1111 == 0b0000u16) by (bit_vector);
    assert(0x1001u16 & ALS_SD == ALS_SD) by (bit_vector);
}

/// The illuminance a raw count denotes under the given gain and integration
/// time, in micro-lux: `0.0036 * gain_factor * time_factor * raw * 1000` lux,
/// carried out exactly in integers.
pub open spec fn spec_microlux(g: Gain, t: IntTime, raw: u16) -> int {
    360 * g.spec_factor() * t.spec_factor_x10000() * raw
}

/// Convert a raw ambient-light count into micro-lux, exactly.
pub fn compute_microlux(g: Gain, t: IntTime, raw: u16) -> (r: u64)
    ensures
        r == spec_microlux(g, t, raw),
{
    let gf: u64 = g.as_factor() as u64;
    let tf: u64 = t.as_factor_x10000() as u64;
    let rw: u64 = raw as u64;
    let a: u64 = 360 * gf;
    proof {
        assert(a * tf <= 5760 * 1152) by (nonlinear_arith)
            requires
                a <= 5760,
                tf <= 1152,
        ;
    }
    let b: u64 = a * tf;
    proof {
        assert(b * rw <= 6635520 * 65535) by (nonlinear_arith)
            requires
                b <= 6635520,
                rw <= 65535,
        ;
    }
    b * rw
}

} // verus!
