//! Driver for the Sensirion SEN5x environmental sensor node.
//!
//! The sensor reports particulate matter, temperature, humidity and the VOC
//! and NOx indices over I²C. This crate turns a small set of commands into
//! bus transactions, waits the settle time each command needs, checks the
//! CRC of every word the sensor sends and decodes the answer frames.
//!
//! The bus and the delay provider are the traits of `embedded-hal` 1.0.
pub mod bus;
pub mod commands;
pub mod crc8;
pub mod errors;
pub mod frame;
pub mod sen5x;
pub mod types;

pub use crate::errors::Error;
pub use crate::sen5x::Sen5x;
