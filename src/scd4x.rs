//! The SCD40 / SCD41 / SCD43 family.

pub mod codec;
pub mod commands;
pub mod driver;
pub mod models;

pub use commands::{Command, Op, I2C_ADDRESS};
pub use driver::Scd4x;
pub use models::{Scd40, Scd41};
