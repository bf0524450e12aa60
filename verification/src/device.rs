//! The device state machine: construct, enable, disable, and read.

use vstd::prelude::*;
use crate::bus::I2cBus;
use crate::config::{
    compute_microlux, spec_default_conf, spec_disabled, spec_enabled, spec_microlux, Gain, IntTime,
};
use crate::registers::{ALS, ALS_CONF, ALS_SD, GAIN_SHIFT, I2C_ADDRESS, IT_SHIFT};

verus! {

/// What a driver operation can fail with.
#[derive(Debug)]
pub enum Error<E> {
    /// A failure reported by the bus transport during a register write or
    /// read, wrapped without inspection and never retried.
    BusError(E),
    /// Reserved for rejecting an invalid configuration value before it is
    /// written. No public operation currently produces it: every word they
    /// build comes from the closed gain and integration-time enumerations
    /// and is always representable.
    ConfigurationError,
}

/// The three-byte command frame of a register write: the register code,
/// then the low byte of the value, then the high byte.
pub open spec fn spec_frame(register: u8, value: u16) -> Seq<u8> {
    seq![register, (value & 0xFF) as u8, ((value >> 8u16) & 0xFF) as u8]
}

/// The sixteen-bit value a register read yields from the two bytes received.
/// The second (high) byte is folded in with a plain bitwise OR, without being
/// shifted into the high position, so its positional weight is discarded and
/// the result never exceeds 0xFF. The contracts pin this rule down so that a
/// calibration pass can hold the driver to it.
pub open spec fn spec_combine(lo: u8, hi: u8) -> u16 {
    (lo as u16) | (hi as u16)
}

/// An ambient-light sensor bound to the bus handle it exclusively owns,
/// holding its current gain, integration time, and the configuration word
/// last successfully written to the device.
pub struct Veml7700<I> {
    i2c: I,
    gain: Gain,
    time: IntTime,
    conf: u16,
}

impl<I: I2cBus> Veml7700<I> {
    /// The gain setting the device was configured with.
    pub closed spec fn spec_gain(self) -> Gain {
        self.gain
    }

    /// The integration-time setting the device was configured with.
    pub closed spec fn spec_time(self) -> IntTime {
        self.time
    }

    /// The configuration word last successfully written to the device.
    pub closed spec fn spec_conf(self) -> u16 {
        self.conf
    }

    /// The bus handle the device owns.
    pub closed spec fn spec_bus(self) -> I {
        self.i2c
    }

    /// Construct a sensor on the given bus: build the default configuration
    /// word (shutdown set, gain 1/8, integration time 100 ms) and write it to
    /// the configuration register. On a transport failure the write's bus
    /// error is returned and no device exists.
    pub fn new(i2c: I) -> (r: Result<Self, Error<I::BusError>>)
        ensures
            r matches Ok(d) ==> {
                &&& d.spec_gain() == Gain::OneEighth
                &&& d.spec_time() == IntTime::_100
                &&& d.spec_conf() == spec_default_conf()
                &&& d.spec_bus().write_log() == i2c.write_log().push(
                    (I2C_ADDRESS, spec_frame(ALS_CONF, spec_default_conf())),
                )
                &&& d.spec_bus().read_log() == i2c.read_log()
            },
            r matches Err(e) ==> e is BusError,
    {
        let gain = Gain::OneEighth;
        let time = IntTime::_100;
        let conf: u16 = ALS_SD | (gain.as_mask() << GAIN_SHIFT) | (time.as_mask() << IT_SHIFT);
        let mut sensor = Veml7700 { i2c, gain, time, conf };
        match sensor.set_config(conf) {
            Ok(()) => Ok(sensor),
            Err(e) => Err(e),
        }
    }

    /// Power the sensor on: clear the shutdown bit of the current
    /// configuration word, leave every other field untouched, and write the
    /// result. The stored word is updated only after the write succeeds.
    /// Idempotent: enabling an enabled sensor re-issues an identical write.
    pub fn enable(&mut self) -> (r: Result<(), Error<I::BusError>>)
        ensures
            r is Ok ==> {
                &&& final(self).spec_conf() == spec_enabled(old(self).spec_conf())
                &&& final(self).spec_bus().write_log() == old(self).spec_bus().write_log().push(
                    (I2C_ADDRESS, spec_frame(ALS_CONF, spec_enabled(old(self).spec_conf()))),
                )
            },
            r matches Err(e) ==> {
                &&& e is BusError
                &&& final(self).spec_conf() == old(self).spec_conf()
                &&& final(self).spec_bus().write_log() == old(self).spec_bus().write_log()
            },
            final(self).spec_gain() == old(self).spec_gain(),
            final(self).spec_time() == old(self).spec_time(),
            final(self).spec_bus().read_log() == old(self).spec_bus().read_log(),
    {
        let conf: u16 = self.conf & !ALS_SD;
        match self.set_config(conf) {
            Ok(()) => Ok(()),
            Err(e) => Err(e),
        }
    }

    /// Power the sensor down: set the shutdown bit of the current
    /// configuration word, leave every other field untouched, and write the
    /// result. The stored word is updated only after the write succeeds.
    pub fn disable(&mut self) -> (r: Result<(), Error<I::BusError>>)
        ensures
            r is Ok ==> {
                &&& final(self).spec_conf() == spec_disabled(old(self).spec_conf())
                &&& final(self).spec_bus().write_log() == old(self).spec_bus().write_log().push(
                    (I2C_ADDRESS, spec_frame(ALS_CONF, spec_disabled(old(self).spec_conf()))),
                )
            },
            r matches Err(e) ==> {
                &&& e is BusError
                &&& final(self).spec_conf() == old(self).spec_conf()
                &&& final(self).spec_bus().write_log() == old(self).spec_bus().write_log()
            },
            final(self).spec_gain() == old(self).spec_gain(),
            final(self).spec_time() == old(self).spec_time(),
            final(self).spec_bus().read_log() == old(self).spec_bus().read_log(),
    {
        let conf: u16 = self.conf | ALS_SD;
        match self.set_config(conf) {
            Ok(()) => Ok(()),
            Err(e) => Err(e),
        }
    }

    /// Read the ambient-light data register — one read transaction, no
    /// retries — and convert the raw count into micro-lux, exactly, under
    /// the current gain and integration time. Valid in any power state; a
    /// reading taken while powered down is device-defined. A transport
    /// failure propagates as a bus error and mutates no stored state.
    pub fn read_lux_microlux(&mut self) -> (r: Result<u64, Error<I::BusError>>)
        ensures
            r matches Ok(v) ==> {
                &&& final(self).spec_bus().read_log() == old(self).spec_bus().read_log().push(
                    (I2C_ADDRESS, seq![ALS], final(self).spec_bus().read_log().last().2),
                )
                &&& final(self).spec_bus().read_log().last().2.len() == 2
                &&& v == spec_microlux(
                    old(self).spec_gain(),
                    old(self).spec_time(),
                    spec_combine(
                        final(self).spec_bus().read_log().last().2[0],
                        final(self).spec_bus().read_log().last().2[1],
                    ),
                )
            },
            r matches Err(e) ==> e is BusError && final(self).spec_bus().read_log() == old(
                self,
            ).spec_bus().read_log(),
            final(self).spec_gain() == old(self).spec_gain(),
            final(self).spec_time() == old(self).spec_time(),
            final(self).spec_conf() == old(self).spec_conf(),
            final(self).spec_bus().write_log() == old(self).spec_bus().write_log(),
    {
        let raw: u16 = match self.read_raw() {
            Ok(v) => v,
            Err(e) => {
                return Err(e);
            },
        };
        let v: u64 = compute_microlux(self.gain, self.time, raw);
        proof {
            assert(v == spec_microlux(old(self).spec_gain(), old(self).spec_time(), raw));
        }
        Ok(v)
    }

    /// Write a configuration word to the configuration register and, only
    /// once the write has succeeded, commit it as the stored word. On
    /// failure the stored word keeps its last successfully written value.
    fn set_config(&mut self, conf: u16) -> (r: Result<(), Error<I::BusError>>)
        ensures
            r is Ok ==> {
                &&& final(self).conf == conf
                &&& final(self).i2c.write_log() == old(self).i2c.write_log().push(
                    (I2C_ADDRESS, spec_frame(ALS_CONF, conf)),
                )
            },
            r matches Err(e) ==> {
                &&& e is BusError
                &&& final(self).conf == old(self).conf
                &&& final(self).i2c.write_log() == old(self).i2c.write_log()
            },
            final(self).gain == old(self).gain,
            final(self).time == old(self).time,
            final(self).i2c.read_log() == old(self).i2c.read_log(),
    {
        match self.write(ALS_CONF, conf) {
            Ok(()) => {
                self.conf = conf;
                Ok(())
            },
            Err(e) => Err(e),
        }
    }

    /// Read the raw ambient-light count: one read transaction against the
    /// ambient-light data register, its two received bytes combined as
    /// [`spec_combine`] says.
    fn read_raw(&mut self) -> (r: Result<u16, Error<I::BusError>>)
        ensures
            r matches Ok(v) ==> {
                &&& final(self).i2c.read_log() == old(self).i2c.read_log().push(
                    (I2C_ADDRESS, seq![ALS], final(self).i2c.read_log().last().2),
                )
                &&& final(self).i2c.read_log().last().2.len() == 2
                &&& v == spec_combine(
                    final(self).i2c.read_log().last().2[0],
                    final(self).i2c.read_log().last().2[1],
                )
                &&& v <= 0xFF
            },
            r matches Err(e) ==> e is BusError && final(self).i2c.read_log() == old(
                self,
            ).i2c.read_log(),
            final(self).gain == old(self).gain,
            final(self).time == old(self).time,
            final(self).conf == old(self).conf,
            final(self).i2c.write_log() == old(self).i2c.write_log(),
    {
        match self.read(ALS) {
            Ok(v) => Ok(v),
            Err(e) => Err(e),
        }
    }

    /// Read a sixteen-bit register: transmit the one-byte register select,
    /// read two bytes back in the same — and only — transaction, and combine
    /// the two bytes received as [`spec_combine`] says.
    fn read(&mut self, register: u8) -> (r: Result<u16, Error<I::BusError>>)
        ensures
            r matches Ok(v) ==> {
                &&& final(self).i2c.read_log() == old(self).i2c.read_log().push(
                    (I2C_ADDRESS, seq![register], final(self).i2c.read_log().last().2),
                )
                &&& final(self).i2c.read_log().last().2.len() == 2
                &&& v == spec_combine(
                    final(self).i2c.read_log().last().2[0],
                    final(self).i2c.read_log().last().2[1],
                )
                &&& v <= 0xFF
            },
            r matches Err(e) ==> e is BusError && final(self).i2c.read_log() == old(
                self,
            ).i2c.read_log(),
            final(self).gain == old(self).gain,
            final(self).time == old(self).time,
            final(self).conf == old(self).conf,
            final(self).i2c.write_log() == old(self).i2c.write_log(),
    {
        let mut select: Vec<u8> = Vec::new();
        select.push(register);
        proof {
            assert(select@ =~= seq![register]);
        }
        match self.i2c.write_read(I2C_ADDRESS, &select, 2) {
            Ok(data) => {
                let lo: u8 = data[0];
                let hi: u8 = data[1];
                let v: u16 = (lo as u16) | (hi as u16);
                proof {
                    assert(self.i2c.read_log().last() == (I2C_ADDRESS, select@, data@));
                    assert(v == spec_combine(lo, hi));
                    assert((lo as u16) | (hi as u16) <= 0xFF) by (bit_vector);
                }
                Ok(v)
            },
            Err(e) => Err(Error::BusError(e)),
        }
    }

    /// Write a sixteen-bit value to a register: transmit the three-byte
    /// frame of [`spec_frame`] — register code, low byte, high byte — to the
    /// device address.
    fn write(&mut self, register: u8, value: u16) -> (r: Result<(), Error<I::BusError>>)
        ensures
            r is Ok ==> final(self).i2c.write_log() == old(self).i2c.write_log().push(
                (I2C_ADDRESS, spec_frame(register, value)),
            ),
            r matches Err(e) ==> {
                &&& e is BusError
                &&& final(self).i2c.write_log() == old(self).i2c.write_log()
            },
            final(self).gain == old(self).gain,
            final(self).time == old(self).time,
            final(self).conf == old(self).conf,
            final(self).i2c.read_log() == old(self).i2c.read_log(),
    {
        let mut frame: Vec<u8> = Vec::new();
        frame.push(register);
        frame.push((value & 0xFF) as u8);
        frame.push(((value >> 8u16) & 0xFF) as u8);
        proof {
            assert(frame@ =~= spec_frame(register, value));
        }
        match self.i2c.write(I2C_ADDRESS, &frame) {
            Ok(()) => Ok(()),
            Err(e) => Err(Error::BusError(e)),
        }
    }

    /// The configuration word last successfully written to the device.
    pub fn config_word(&self) -> (r: u16)
        ensures
            r == self.spec_conf(),
    {
        self.conf
    }

    /// The gain setting the device was configured with.
    pub fn gain(&self) -> (r: Gain)
        ensures
            r == self.spec_gain(),
    {
        self.gain
    }

    /// The integration-time setting the device was configured with.
    pub fn integration_time(&self) -> (r: IntTime)
        ensures
            r == self.spec_time(),
    {
        self.time
    }

    /// Give the bus handle back, consuming the device. No on-device teardown
    /// is issued; the sensor keeps whatever state was last written.
    pub fn release(self) -> (r: I)
        ensures
            r == self.spec_bus(),
    {
        self.i2c
    }
}

} // verus!
