//! Register map and device handle.
//!
//! The sensor is addressed over a two-wire bus through a transport the
//! caller supplies.  Every register operation is one transport exchange:
//! a read selects the register with its address byte and then reads the
//! register's bytes; a write sends the address byte followed by the
//! payload.  The functions here build those byte sequences; issuing them
//! on a concrete bus is the transport's business and stays outside this
//! crate.

use crate::codec::{
    get_temperature_hysteresis_bytes_from_value, threshold_lsb, threshold_msb, Temperature,
};
use crate::config::Gx21m15Config;
use vstd::prelude::*;

verus! {

/// The sensor's four registers.
#[derive(Clone, Copy, Debug, PartialEq, Eq, Structural)]
pub enum Register {
    /// Live temperature, two bytes, read-only.
    Temperature,
    /// Configuration byte, read/write.
    Config,
    /// Hysteresis threshold, two bytes, read/write.
    TemperatureHysteresis,
    /// Over-temperature shutdown threshold, two bytes, read/write.
    TemperatureOverShutdown,
}

impl Register {
    /// The address byte that selects this register on the bus.
    pub open spec fn spec_address(self) -> u8 {
        match self {
            Register::Temperature => 0x00,
            Register::Config => 0x01,
            Register::TemperatureHysteresis => 0x02,
            Register::TemperatureOverShutdown => 0x03,
        }
    }

    pub fn address(self) -> (r: u8)
        ensures
            r == self.spec_address(),
    {
        match self {
            Register::Temperature => 0x00,
            Register::Config => 0x01,
            Register::TemperatureHysteresis => 0x02,
            Register::TemperatureOverShutdown => 0x03,
        }
    }
}

/// Handle for one sensor: the bus transport it is reached through and
/// its device address.  The transport is opaque here; the byte sequences
/// the device understands are built by the functions below.
pub struct Gx21m15<I2C> {
    /// Bus transport granting exclusive access to the device.
    pub i2c: I2C,
    /// Device address on the bus.
    pub address: u8,
}

impl<I2C> Gx21m15<I2C> {
    pub fn new(i2c: I2C, address: u8) -> (r: Self)
        ensures
            r.address == address,
            r.i2c == i2c,
    {
        Self { i2c, address }
    }
}

/// The write transaction that stores a configuration byte: the config
/// register's address followed by the built byte.
pub fn config_write_command(config: &Gx21m15Config) -> (r: [u8; 2])
    ensures
        r[0] == Register::Config.spec_address(),
        r[1] == config@,
{
    [Register::Config.address(), config.build()]
}

/// The write transaction that stores a threshold temperature: the
/// register's address followed by the encoded big-endian word.
pub fn threshold_write_command(register: Register, value: Temperature) -> (r: [u8; 3])
    requires
        register is TemperatureHysteresis || register is TemperatureOverShutdown,
        -1024 <= value.eighths <= 1023,
    ensures
        r[0] == register.spec_address(),
        r[1] == threshold_msb(value.eighths as int),
        r[2] == threshold_lsb(value.eighths as int),
{
    let word = get_temperature_hysteresis_bytes_from_value(value);
    [register.address(), word[0], word[1]]
}

} // verus!
