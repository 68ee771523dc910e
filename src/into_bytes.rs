//! The encoding of a collection into report descriptor bytes.
use vstd::prelude::*;
use crate::collection::Collection;
use crate::item::{
    encode_tag, item_bytes, item_offset, items_bytes, items_total_len, lemma_items_layout,
    lemma_tag_prefix, tag_data, tag_prefix, type_code, ShortItem, ShortItems,
};
use crate::optimizer::{remove_redundant_globals, TagOptimizer};
use crate::tag::{collection_tags, Tag, TagGroup};

verus! {

/// The tags of a descriptor, after redundant globals are removed.
pub open spec fn descriptor_tags(c: Collection) -> Seq<Tag> {
    remove_redundant_globals(collection_tags(c))
}

/// The short items of a descriptor, one per surviving tag.
pub open spec fn descriptor_items(c: Collection) -> Seq<ShortItem> {
    descriptor_tags(c).map_values(|t: Tag| encode_tag(t))
}

/// The bytes of a descriptor.
pub open spec fn descriptor_bytes(c: Collection) -> Seq<u8> {
    items_bytes(descriptor_items(c))
}

impl Collection {
    /// The report descriptor of this collection: its tags, flattened in order, without
    /// redundant globals, each written as a short item.
    pub fn into_bytes(self) -> (r: Vec<u8>)
        ensures
            r@ == descriptor_bytes(self),
    {
        let tag_groups = TagGroup::collection(self);
        let tags = tag_groups.tag_list();
        let tags_cleaned = TagOptimizer::from_iter(tags).remove_duplicates();
        let tag_items = ShortItems::from_tags(tags_cleaned.into_iter());
        tag_items.into_bytes()
    }
}

/// The descriptor of any collection is its short items laid end to end: its length is the
/// sum of their lengths, and at the start of each item stands its prefix byte, whose size
/// bits give the item's data length and whose type and tag bits give the tag's kind.
pub proof fn lemma_descriptor_layout(c: Collection)
    ensures
        descriptor_bytes(c).len() == items_total_len(descriptor_items(c)),
        forall|k: int|
            0 <= k < descriptor_items(c).len() ==> {
                let t = #[trigger] descriptor_tags(c)[k];
                let b = descriptor_bytes(c)[item_offset(descriptor_items(c), k) as int];
                &&& b == encode_tag(t).0.0
                &&& item_bytes(descriptor_items(c)[k]).len() == 1 + tag_data(t).spec_size().spec_size()
                &&& (b / 4) % 4 == type_code(t.spec_tag_type())
                &&& b / 16 == tag_prefix(t) / 16
            },
{
    let items = descriptor_items(c);
    lemma_items_layout(items);
    assert forall|k: int| 0 <= k < items.len() implies {
        let t = #[trigger] descriptor_tags(c)[k];
        let b = descriptor_bytes(c)[item_offset(items, k) as int];
        &&& b == encode_tag(t).0.0
        &&& item_bytes(items[k]).len() == 1 + tag_data(t).spec_size().spec_size()
        &&& (b / 4) % 4 == type_code(t.spec_tag_type())
        &&& b / 16 == tag_prefix(t) / 16
    } by {
        let t = descriptor_tags(c)[k];
        assert(items[k] == encode_tag(t));
        lemma_tag_prefix(t);
    }
}

} // verus!
