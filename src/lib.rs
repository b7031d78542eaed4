//! Drivers for the SCD30 and SCD4x families of I2C CO2 sensors, written as a
//! protocol engine: it frames commands, checks the checksums of responses,
//! decodes sensor words and decides which commands the sensor state allows.
//! A driver session owns the bus handle and the delay provider; the caller
//! borrows them to perform each `Transfer` the session hands out, and reports
//! back when its frame has been written.

pub mod crc;
pub mod error;
pub mod frame;
pub mod transfer;
pub mod scd30;
pub mod scd4x;

pub use error::Error;
pub use scd4x::codec::SensorVariant;
pub use transfer::{Effect, Transfer};
