//! Bus addresses.

use vstd::prelude::*;

verus! {

/// The address the sensor answers to when it leaves the factory.
pub const DEFAULT: u8 = 0x28;

} // verus!
