//! Prefix bytes of the Main items, with the size bits clear.
use vstd::prelude::*;

verus! {

pub const INPUT: u8 = 0x80;

pub const OUTPUT: u8 = 0x90;

pub const FEATURE: u8 = 0xB0;

pub const COLLECTION: u8 = 0xA0;

pub const END_COLLECTION: u8 = 0xC0;

} // verus!
