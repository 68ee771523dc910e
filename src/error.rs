//! Errors of conversions and of report identification.
use vstd::prelude::*;

verus! {

/// Some reports of a descriptor carry an ID and others do not.
#[derive(Copy, Clone, Debug, PartialEq, Eq, Structural)]
pub struct MissingIdError {}

impl MissingIdError {
    /// A description of the error.
    pub fn to_string(&self) -> (r: String) {
        String::from_str("reports should have IDs if one has an ID")
    }
}

/// An integer lies outside the domain of the value it should stand for.
#[derive(Copy, Clone, Debug, PartialEq, Eq, Structural)]
pub struct TryFromIntError {}

impl TryFromIntError {
    /// A description of the error.
    pub fn to_string(&self) -> (r: String) {
        String::from_str("out of range integral type conversion attempted")
    }
}

} // verus!
