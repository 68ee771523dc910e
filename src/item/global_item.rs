//! Prefix bytes of the Global items, with the size bits clear.
use vstd::prelude::*;

verus! {

pub const USAGE_PAGE: u8 = 0x04;

pub const LOGICAL_MINIMUM: u8 = 0x14;

pub const LOGICAL_MAXIMUM: u8 = 0x24;

pub const PHYSICAL_MINIMUM: u8 = 0x34;

pub const PHYSICAL_MAXIMUM: u8 = 0x44;

pub const UNIT_EXPONENT: u8 = 0x54;

pub const UNIT: u8 = 0x64;

pub const REPORT_SIZE: u8 = 0x74;

pub const REPORT_ID: u8 = 0x84;

pub const REPORT_COUNT: u8 = 0x94;

pub const PUSH: u8 = 0xA4;

pub const POP: u8 = 0xB4;

} // verus!
