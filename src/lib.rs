//! Building USB HID report descriptors and packing the reports they describe.
//!
//! A [`collection::Collection`] of reports is turned into descriptor bytes in four stages: a
//! tree of tags ([`tag`]), flattened depth first ([`tag::iter`]), with redundant global items
//! removed ([`optimizer`]), each tag written as a short item ([`item`]). Separately, the same
//! collection gives the bit layout of its reports ([`iter`]), whose fields are filled in and
//! packed into bytes ([`format`]).
pub mod collection;
pub mod error;
pub mod field_types;
pub mod format;
pub mod into_bytes;
pub mod item;
pub mod iter;
pub mod optimizer;
pub mod report;
pub mod tag;
pub mod usage;
pub mod usage_tables;
