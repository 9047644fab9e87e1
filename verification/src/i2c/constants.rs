//! The wire contract with the sensor's firmware.

pub mod addresses;
pub mod registers;
