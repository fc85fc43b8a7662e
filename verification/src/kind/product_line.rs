//! Bitmask flags selecting product lines when querying devices.

use vstd::prelude::*;

verus! {

pub const ANY: i32 = 0xff;
pub const ANY_INTEL: i32 = 0xfe;
pub const NON_INTEL: i32 = 0x01;
pub const D400: i32 = 0x02;
pub const SR300: i32 = 0x04;
pub const L500: i32 = 0x08;
pub const T200: i32 = 0x10;
pub const D500: i32 = 0x20;
pub const SW_ONLY: i32 = 0x100;

} // verus!
