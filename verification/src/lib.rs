//! Driver for the VEML7700 ambient-light sensor on a two-wire serial bus.
//!
//! The driver powers the sensor on and off and reads an illuminance value.
//! It is generic over any bus that offers the two-operation capability in
//! [`bus::I2cBus`]; [`mock::MockBus`] is a scripted stand-in for tests.

pub mod bus;
pub mod config;
pub mod device;
pub mod mock;
pub mod registers;
