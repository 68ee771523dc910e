//! Collections: the tree of reports that a descriptor describes.
use vstd::prelude::*;
use crate::field_types::{CollectionType, Delimiter, DesignatorIndex, StringIndex};
use crate::report::Report;
use crate::usage::Usage;

verus! {

/// An item of a collection: a report or a nested collection.
#[derive(Debug, PartialEq, Eq)]
pub enum CollectionItem {
    Report(Report),
    Collection(Collection),
}

impl From<Report> for CollectionItem {
    fn from(report: Report) -> (r: Self) {
        CollectionItem::Report(report)
    }
}

impl vstd::std_specs::convert::FromSpecImpl<Report> for CollectionItem {
    open spec fn obeys_from_spec() -> bool {
        true
    }

    open spec fn from_spec(v: Report) -> CollectionItem {
        CollectionItem::Report(v)
    }
}

impl From<Collection> for CollectionItem {
    fn from(collection: Collection) -> (r: Self) {
        CollectionItem::Collection(collection)
    }
}

impl vstd::std_specs::convert::FromSpecImpl<Collection> for CollectionItem {
    open spec fn obeys_from_spec() -> bool {
        true
    }

    open spec fn from_spec(v: Collection) -> CollectionItem {
        CollectionItem::Collection(v)
    }
}

/// The items of a collection, in order.
#[derive(Debug)]
pub struct CollectionItems(pub Vec<CollectionItem>);

impl CollectionItems {
    /// The items, in order.
    pub fn as_boxed(self) -> (r: Vec<CollectionItem>)
        ensures
            r@ == self.0@,
    {
        self.0
    }
}

impl From<Vec<CollectionItem>> for CollectionItems {
    fn from(items: Vec<CollectionItem>) -> (r: Self) {
        CollectionItems(items)
    }
}

impl vstd::std_specs::convert::FromSpecImpl<Vec<CollectionItem>> for CollectionItems {
    open spec fn obeys_from_spec() -> bool {
        true
    }

    open spec fn from_spec(v: Vec<CollectionItem>) -> CollectionItems {
        CollectionItems(v)
    }
}

/// A collection: a usage, a kind, and an ordered list of reports and nested collections.
#[derive(Debug, PartialEq, Eq)]
pub struct Collection {
    pub collection_type: CollectionType,
    pub usage: Usage,
    pub items: Vec<CollectionItem>,
    pub designator_index: Option<DesignatorIndex>,
    pub string_index: Option<StringIndex>,
    pub delimiter: Option<Delimiter>,
}

impl Collection {
    /// A collection without items.
    pub fn empty(t: CollectionType, usage: Usage) -> (r: Self)
        ensures
            r.collection_type == t,
            r.usage == usage,
            r.items@.len() == 0,
            r.designator_index is None,
            r.string_index is None,
            r.delimiter is None,
    {
        Collection {
            collection_type: t,
            usage,
            items: Vec::new(),
            designator_index: None,
            string_index: None,
            delimiter: None,
        }
    }

    /// A collection with a usage and items.
    pub fn new(t: CollectionType, usage: Usage, items: Vec<CollectionItem>) -> (r: Self)
        ensures
            r.collection_type == t,
            r.usage == usage,
            r.items@ == items@,
            r.designator_index is None,
            r.string_index is None,
            r.delimiter is None,
    {
        Collection {
            collection_type: t,
            usage,
            items,
            designator_index: None,
            string_index: None,
            delimiter: None,
        }
    }

    /// The items of this collection, in order.
    pub fn items(&self) -> (r: &[CollectionItem])
        ensures
            r@ == self.items@,
    {
        self.items.as_slice()
    }
}

} // verus!
