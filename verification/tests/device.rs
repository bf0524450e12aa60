//! Tests of the device state machine against the scripted bus.

use veml7700::config::{Gain, IntTime};
use veml7700::device::{Error, Veml7700};
use veml7700::mock::{MockBus, MockFault};

/// Immediately after construction the stored configuration word has its
/// shutdown bit set, gain 1/8, and integration time 100 ms: 0x1001.
#[test]
fn default_config_after_new() {
    let bus = MockBus::new(Vec::new(), false, false);
    let dev = Veml7700::new(bus).unwrap();
    assert_eq!(dev.config_word(), 0x1001);
    assert_eq!(dev.config_word() & 0b01, 0b01);
    assert_eq!(dev.gain(), Gain::OneEighth);
    assert_eq!(dev.integration_time(), IntTime::_100);
}

/// Construction writes one three-byte frame to the device address: the
/// configuration register code, then the word low byte first.
#[test]
fn construction_frames_default_word_little_endian() {
    let bus = MockBus::new(Vec::new(), false, false);
    let dev = Veml7700::new(bus).unwrap();
    let bus = dev.release();
    assert_eq!(bus.writes.len(), 1);
    assert_eq!(bus.writes[0].0, 0x10);
    assert_eq!(bus.writes[0].1, vec![0x00, 0x01, 0x10]);
}

/// Enable clears only the shutdown bit; disable sets only it; enabling
/// again restores the exact word of the first enable, and each step issues
/// one configuration write.
#[test]
fn enable_disable_enable_restores_word() {
    let bus = MockBus::new(Vec::new(), false, false);
    let mut dev = Veml7700::new(bus).unwrap();

    dev.enable().unwrap();
    let first_enabled = dev.config_word();
    assert_eq!(first_enabled, 0x1000);

    dev.disable().unwrap();
    assert_eq!(dev.config_word(), 0x1001);

    dev.enable().unwrap();
    assert_eq!(dev.config_word(), first_enabled);
    assert_eq!(dev.gain(), Gain::OneEighth);
    assert_eq!(dev.integration_time(), IntTime::_100);

    let bus = dev.release();
    assert_eq!(bus.writes.len(), 4);
    assert_eq!(bus.writes[1].1, vec![0x00, 0x00, 0x10]);
    assert_eq!(bus.writes[2].1, vec![0x00, 0x01, 0x10]);
    assert_eq!(bus.writes[3].1, vec![0x00, 0x00, 0x10]);
}

/// Enabling when already enabled re-issues an identical write and succeeds.
#[test]
fn enable_is_idempotent() {
    let bus = MockBus::new(Vec::new(), false, false);
    let mut dev = Veml7700::new(bus).unwrap();
    dev.enable().unwrap();
    dev.enable().unwrap();
    assert_eq!(dev.config_word(), 0x1000);
    let bus = dev.release();
    assert_eq!(bus.writes[1].1, bus.writes[2].1);
}

/// A failing first write surfaces as a bus error and no device exists.
#[test]
fn construction_with_failing_write_is_bus_error() {
    let bus = MockBus::new(Vec::new(), true, false);
    let r = Veml7700::new(bus);
    assert!(matches!(r, Err(Error::BusError(MockFault))));
}

/// A transport failure during a reading propagates as a bus error and
/// mutates no stored state.
#[test]
fn read_failure_is_bus_error_and_preserves_state() {
    let bus = MockBus::new(Vec::new(), false, true);
    let mut dev = Veml7700::new(bus).unwrap();
    dev.enable().unwrap();
    let before = dev.config_word();

    let r = dev.read_lux_microlux();
    assert!(matches!(r, Err(Error::BusError(MockFault))));
    assert_eq!(dev.config_word(), before);
    assert_eq!(dev.gain(), Gain::OneEighth);
    assert_eq!(dev.integration_time(), IntTime::_100);
}

/// The two received bytes are combined with a plain bitwise OR, the high
/// byte unshifted: 0xE8 and 0x03 give a raw count of 0xEB = 235, and under
/// gain 1/8 at 100 ms that is 360 * 16 * 288 * 235 micro-lux.
#[test]
fn reading_combines_bytes_with_or() {
    let bus = MockBus::new(vec![0xE8, 0x03], false, false);
    let mut dev = Veml7700::new(bus).unwrap();
    dev.enable().unwrap();
    assert_eq!(dev.read_lux_microlux().unwrap(), 360 * 16 * 288 * 235);
}

/// One reading issues exactly one read transaction: a one-byte select of the
/// ambient-light register 0x04 at address 0x10, answered with two bytes.
#[test]
fn reading_selects_ambient_light_register_once() {
    let bus = MockBus::new(vec![0xE8, 0x03], false, false);
    let mut dev = Veml7700::new(bus).unwrap();
    dev.read_lux_microlux().unwrap();
    let bus = dev.release();
    assert_eq!(bus.reads.len(), 1);
    assert_eq!(bus.reads[0].0, 0x10);
    assert_eq!(bus.reads[0].1, vec![0x04]);
    assert_eq!(bus.reads[0].2, vec![0xE8, 0x03]);
    assert_eq!(bus.writes.len(), 1);
}

/// A failed reading completes no read transaction.
#[test]
fn failed_reading_completes_no_transaction() {
    let bus = MockBus::new(vec![0xE8, 0x03], false, true);
    let mut dev = Veml7700::new(bus).unwrap();
    assert!(dev.read_lux_microlux().is_err());
    let bus = dev.release();
    assert_eq!(bus.reads.len(), 0);
}

/// A bus that answers with no bytes reads as a zero count and zero lux.
#[test]
fn reading_nothing_is_zero_lux() {
    let bus = MockBus::new(Vec::new(), false, false);
    let mut dev = Veml7700::new(bus).unwrap();
    assert_eq!(dev.read_lux_microlux().unwrap(), 0);
    let bus = dev.release();
    assert_eq!(bus.reads[0].2, vec![0x00, 0x00]);
}

/// Both error kinds exist; the configuration kind is reserved and produced
/// by no public operation.
#[test]
fn error_kinds() {
    let bus_err: Error<MockFault> = Error::BusError(MockFault);
    assert!(matches!(bus_err, Error::BusError(MockFault)));
    let conf_err: Error<MockFault> = Error::ConfigurationError;
    assert!(matches!(conf_err, Error::ConfigurationError));
}
