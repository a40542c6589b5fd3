//! Register-level driver core for the GX21M15 temperature sensor.
//!
//! The sensor exposes four registers over a two-wire bus: a read-only
//! temperature, a configuration byte, and two threshold registers
//! (hysteresis and over-temperature shutdown) holding signed fixed-point
//! temperatures.  This crate verifies the two pieces with real semantics:
//! the fixed-point temperature codec (11-bit and 9-bit two's-complement
//! layouts) and the configuration bit-field model.  Temperatures are
//! carried as integer counts of 0.125 degree steps, the device's finest
//! resolution, so every codec result is stated exactly.

pub mod codec;
pub mod config;
pub mod device;

pub use codec::{
    get_temperature_hysteresis_bytes_from_value, get_temperature_hysteresis_value_from_bytes,
    get_temperature_value_from_bytes, Temperature,
};
pub use config::{Gx21m15Config, OsFailQueueSize};
pub use device::{config_write_command, threshold_write_command, Gx21m15, Register};
