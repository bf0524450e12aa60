//! Tests of the gain and integration-time models and the lux formula.

use veml7700::config::{compute_microlux, Gain, IntTime};

/// Every gain code packed into bits 11-12 of a configuration word reads back
/// as the same variant, whatever the other bits hold.
#[test]
fn gain_codes_round_trip() {
    let variants = [Gain::OneEighth, Gain::OneFourth, Gain::One, Gain::Two];
    for g in variants {
        assert_eq!(Gain::from_code(g.as_mask()), Some(g));
        for base in [0x0000u16, 0xFFFFu16, 0x1001u16] {
            let word = (base & !(0b11u16 << 11)) | (g.as_mask() << 11);
            let field = (word >> 11) & 0b11;
            assert_eq!(Gain::from_code(field), Some(g));
        }
    }
}

/// Every integration-time code packed into its field at bit 6 reads back as
/// the same variant, whatever the other bits hold.
#[test]
fn time_codes_round_trip() {
    let variants = [
        IntTime::_25,
        IntTime::_50,
        IntTime::_100,
        IntTime::_200,
        IntTime::_400,
        IntTime::_800,
    ];
    for t in variants {
        assert_eq!(IntTime::from_code(t.as_mask()), Some(t));
        for base in [0x0000u16, 0xFFFFu16, 0x1001u16] {
            let word = (base & !(0b1111u16 << 6)) | (t.as_mask() << 6);
            let field = (word >> 6) & 0b1111;
            assert_eq!(IntTime::from_code(field), Some(t));
        }
    }
}

#[test]
fn gain_codes_and_factors_exact() {
    assert_eq!(Gain::OneEighth.as_mask(), 0b10);
    assert_eq!(Gain::OneFourth.as_mask(), 0b11);
    assert_eq!(Gain::One.as_mask(), 0b00);
    assert_eq!(Gain::Two.as_mask(), 0b01);
    assert_eq!(Gain::OneEighth.as_factor(), 16);
    assert_eq!(Gain::OneFourth.as_factor(), 8);
    assert_eq!(Gain::One.as_factor(), 2);
    assert_eq!(Gain::Two.as_factor(), 1);
}

#[test]
fn time_codes_and_factors_exact() {
    assert_eq!(IntTime::_25.as_mask(), 0b1100);
    assert_eq!(IntTime::_50.as_mask(), 0b1000);
    assert_eq!(IntTime::_100.as_mask(), 0b0000);
    assert_eq!(IntTime::_200.as_mask(), 0b0001);
    assert_eq!(IntTime::_400.as_mask(), 0b0010);
    assert_eq!(IntTime::_800.as_mask(), 0b0011);
    assert_eq!(IntTime::_25.as_factor_x10000(), 1152);
    assert_eq!(IntTime::_50.as_factor_x10000(), 576);
    assert_eq!(IntTime::_100.as_factor_x10000(), 288);
    assert_eq!(IntTime::_200.as_factor_x10000(), 144);
    assert_eq!(IntTime::_400.as_factor_x10000(), 72);
    assert_eq!(IntTime::_800.as_factor_x10000(), 36);
}

/// Only the six defined integration-time codes decode; only the four two-bit
/// gain codes decode.
#[test]
fn invalid_codes_decode_to_none() {
    assert_eq!(Gain::from_code(0b100), None);
    assert_eq!(Gain::from_code(0xFFFF), None);
    assert_eq!(IntTime::from_code(0b0100), None);
    assert_eq!(IntTime::from_code(0b1111), None);
    assert_eq!(IntTime::from_code(0b1010), None);
}

/// Gain 1 (factor 2.0) at 100 ms (factor 0.0288) with a raw count of 1000
/// yields 0.0036 * 2.0 * 0.0288 * 1000 * 1000 = 207.36 lux exactly.
#[test]
fn lux_formula_exact_at_gain_one_100ms() {
    assert_eq!(
        compute_microlux(Gain::One, IntTime::_100, 1000),
        207_360_000
    );
}

/// Gain 1/8 (factor 16.0) at 25 ms (factor 0.1152) with a raw count of zero
/// yields zero lux.
#[test]
fn lux_formula_zero_at_zero_count() {
    assert_eq!(compute_microlux(Gain::OneEighth, IntTime::_25, 0), 0);
}

/// The formula at the largest raw count does not wrap.
#[test]
fn lux_formula_at_maximum_count() {
    assert_eq!(
        compute_microlux(Gain::OneEighth, IntTime::_25, 0xFFFF),
        360u64 * 16 * 1152 * 0xFFFF
    );
}
