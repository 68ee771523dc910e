//! Usages of the Button page.
use vstd::prelude::*;
use crate::usage::Usage;
use super::page;

verus! {

/// The usage of the given button.
pub fn new(button: u16) -> (r: Usage)
    ensures
        r == Usage::Standard(page::BUTTON, button),
{
    Usage::new(page::BUTTON, button)
}

} // verus!
