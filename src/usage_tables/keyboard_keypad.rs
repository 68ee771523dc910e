//! Usages of the Keyboard/Keypad page.
use vstd::prelude::*;
use crate::usage::Usage;
use super::page;

verus! {

/// The usage of the given keyboard or keypad key.
pub fn new(key: u16) -> (r: Usage)
    ensures
        r == Usage::Standard(page::KEYBOARD_KEYPAD, key),
{
    Usage::new(page::KEYBOARD_KEYPAD, key)
}

} // verus!
