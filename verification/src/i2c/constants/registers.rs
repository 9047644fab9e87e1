//! Register and command identifiers.

use vstd::prelude::*;

verus! {

/// Command: reprogram the bus address; the new address follows as payload.
pub const COMMAND_CHANGE_ADDRESS: u8 = 0x03;

/// Command: read the moisture level, two bytes, most significant first.
pub const COMMAND_GET_VALUE: u8 = 0x05;

/// Register: status byte; bit 0 is the error flag.
pub const SENSOR_STATUS: u8 = 0x3F;

} // verus!
