//! Bus address, register command codes, and configuration-word bit layout.

use vstd::prelude::*;

verus! {

/// Fixed seven-bit bus address of the sensor.
pub const I2C_ADDRESS: u8 = 0x10;

/// Command code of the configuration register.
pub const ALS_CONF: u8 = 0x00;
/// Command code of the high interrupt threshold register.
pub const ALS_WH: u8 = 0x01;
/// Command code of the low interrupt threshold register.
pub const ALS_WL: u8 = 0x02;
/// Command code of the power-saving mode register.
pub const POWER_SAVING: u8 = 0x03;
/// Command code of the ambient-light data register.
pub const ALS: u8 = 0x04;
/// Command code of the white-channel data register.
pub const WHITE: u8 = 0x05;
/// Command code of the interrupt status register.
pub const ALS_INT: u8 = 0x06;

/// Shutdown bit of the configuration word (bit 0; 1 powers the sensor down).
pub const ALS_SD: u16 = 0b01;
/// Interrupt-enable bit of the configuration word (bit 1).
pub const ALS_INT_EN: u16 = 0b10;
/// Enable bit of the power-saving mode register.
pub const PSM_EN: u16 = 0b01;
/// Low-threshold interrupt flag of the configuration word (bit 15).
pub const INT_TH_LOW: u16 = 1u16 << 15u16;
/// High-threshold interrupt flag of the configuration word (bit 14).
pub const INT_TH_HIGH: u16 = 1u16 << 14u16;

/// Position of the gain code inside the configuration word (bits 11 and 12).
pub const GAIN_SHIFT: u16 = 11;
/// Mask of the gain field: two bits starting at bit 11.
pub const GAIN_FIELD: u16 = 0b11u16 << 11u16;
/// Position of the integration-time code inside the configuration word
/// (a four-bit field starting at bit 6).
pub const IT_SHIFT: u16 = 6;
/// Mask of the integration-time field: four bits starting at bit 6.
pub const IT_FIELD: u16 = 0b1111u16 << 6u16;

} // verus!
