//! Usages of the LED page.
use vstd::prelude::*;
use crate::usage::Usage;
use super::page;

verus! {

/// The usage of the given LED.
pub fn new(led: u16) -> (r: Usage)
    ensures
        r == Usage::Standard(page::LED, led),
{
    Usage::new(page::LED, led)
}

} // verus!
