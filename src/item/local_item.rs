//! Prefix bytes of the Local items, with the size bits clear.
use vstd::prelude::*;

verus! {

pub const USAGE: u8 = 0x08;

pub const USAGE_MINIMUM: u8 = 0x18;

pub const USAGE_MAXIMUM: u8 = 0x28;

pub const DESIGNATOR_INDEX: u8 = 0x38;

pub const DESIGNATOR_MINIMUM: u8 = 0x48;

pub const DESIGNATOR_MAXIMUM: u8 = 0x58;

pub const STRING_INDEX: u8 = 0x78;

pub const STRING_MINIMUM: u8 = 0x88;

pub const STRING_MAXIMUM: u8 = 0x98;

pub const DELIMITER: u8 = 0xA8;

} // verus!
