//! The identity the virtual controller presents: a well-known reference
//! 360-style controller, so downstream software recognizes the layout.

use vstd::prelude::*;

verus! {

pub const XBOX_VENDOR_ID: u16 = 0x045E;

pub const XBOX_360_CONTROLLER_PRODUCT_ID: u16 = 0x028E;

} // verus!
