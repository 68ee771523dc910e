//! Tags, and the tree of tags that a collection is turned into.
use vstd::prelude::*;
use crate::collection::{Collection, CollectionItem};
use crate::field_types::{
    CollectionType, Delimiter, DesignatorIndex, LogicalValue, PhysicalValue, ReportCount,
    ReportFlags, ReportId, ReportSize, StringIndex, Unit, UnitExponent,
};
use crate::report::{Report, ReportMain, ReportType};
use crate::usage::{ExtendedUsage, Usage, UsageId, UsagePage, UsageRange, UsageSet};

pub mod iter;

verus! {

/// The three categories of HID items.
#[derive(Copy, Clone, Debug, PartialEq, Eq, Structural)]
pub enum TagType {
    Main,
    Global,
    Local,
}

/// A single item of a report descriptor, with its value.
#[derive(Copy, Clone, Debug, PartialEq, Eq)]
pub enum Tag {
    // Main items
    Input(ReportFlags),
    Output(ReportFlags),
    Feature(ReportFlags),
    Collection(CollectionType),
    EndCollection,
    // Global items
    UsagePage(UsagePage),
    LogicalMinimum(LogicalValue),
    LogicalMaximum(LogicalValue),
    PhysicalMinimum(PhysicalValue),
    PhysicalMaximum(PhysicalValue),
    UnitExponent(UnitExponent),
    Unit(Unit),
    ReportSize(ReportSize),
    ReportId(ReportId),
    ReportCount(ReportCount),
    Push,
    Pop,
    // Local items
    ExtendedUsage(ExtendedUsage),
    UsageId(UsageId),
    ExtendedUsageMinimum(ExtendedUsage),
    UsageMinimumId(UsageId),
    ExtendedUsageMaximum(ExtendedUsage),
    UsageMaximumId(UsageId),
    DesignatorIndex(DesignatorIndex),
    DesignatorMinimum(DesignatorIndex),
    DesignatorMaximum(DesignatorIndex),
    StringIndex(StringIndex),
    StringMinimum(StringIndex),
    StringMaximum(StringIndex),
    Delimiter(Delimiter),
}

impl Tag {
    /// The category of a tag.
    pub open spec fn spec_tag_type(self) -> TagType {
        match self {
            Tag::Input(..) | Tag::Output(..) | Tag::Feature(..) | Tag::Collection(..)
            | Tag::EndCollection => TagType::Main,
            Tag::UsagePage(..) | Tag::LogicalMinimum(..) | Tag::LogicalMaximum(..)
            | Tag::PhysicalMinimum(..) | Tag::PhysicalMaximum(..) | Tag::UnitExponent(..)
            | Tag::Unit(..) | Tag::ReportSize(..) | Tag::ReportId(..) | Tag::ReportCount(..)
            | Tag::Push | Tag::Pop => TagType::Global,
            _ => TagType::Local,
        }
    }

    /// The category of this tag.
    pub fn tag_type(&self) -> (r: TagType)
        ensures
            r == self.spec_tag_type(),
    {
        match self {
            Tag::Input(..) => TagType::Main,
            Tag::Output(..) => TagType::Main,
            Tag::Feature(..) => TagType::Main,
            Tag::Collection(..) => TagType::Main,
            Tag::EndCollection => TagType::Main,
            Tag::UsagePage(..) => TagType::Global,
            Tag::LogicalMinimum(..) => TagType::Global,
            Tag::LogicalMaximum(..) => TagType::Global,
            Tag::PhysicalMinimum(..) => TagType::Global,
            Tag::PhysicalMaximum(..) => TagType::Global,
            Tag::UnitExponent(..) => TagType::Global,
            Tag::Unit(..) => TagType::Global,
            Tag::ReportSize(..) => TagType::Global,
            Tag::ReportId(..) => TagType::Global,
            Tag::ReportCount(..) => TagType::Global,
            Tag::Push => TagType::Global,
            Tag::Pop => TagType::Global,
            Tag::ExtendedUsage(..) => TagType::Local,
            Tag::UsageId(..) => TagType::Local,
            Tag::ExtendedUsageMinimum(..) => TagType::Local,
            Tag::UsageMinimumId(..) => TagType::Local,
            Tag::ExtendedUsageMaximum(..) => TagType::Local,
            Tag::UsageMaximumId(..) => TagType::Local,
            Tag::DesignatorIndex(..) => TagType::Local,
            Tag::DesignatorMinimum(..) => TagType::Local,
            Tag::DesignatorMaximum(..) => TagType::Local,
            Tag::StringIndex(..) => TagType::Local,
            Tag::StringMinimum(..) => TagType::Local,
            Tag::StringMaximum(..) => TagType::Local,
            Tag::Delimiter(..) => TagType::Local,
        }
    }
}

/// Tags arranged in a tree, which reads in order as a flat list of tags.
#[derive(Debug, PartialEq, Eq)]
pub enum TagGroup {
    Tag(Tag),
    Group(Vec<TagGroup>),
}

/// The tags of a group, depth first and in order.
pub open spec fn flatten(g: TagGroup) -> Seq<Tag>
    decreases g,
{
    match g {
        TagGroup::Tag(t) => seq![t],
        TagGroup::Group(v) => flatten_seq(v@),
    }
}

/// The tags of a sequence of groups, one group after the other.
pub open spec fn flatten_seq(s: Seq<TagGroup>) -> Seq<Tag>
    decreases s,
{
    if s.len() == 0 {
        Seq::empty()
    } else {
        flatten(s[0]) + flatten_seq(s.subrange(1, s.len() as int))
    }
}

/// Appending a group appends its tags.
pub proof fn lemma_flatten_seq_push(s: Seq<TagGroup>, g: TagGroup)
    ensures
        flatten_seq(s.push(g)) == flatten_seq(s) + flatten(g),
    decreases s.len(),
{
    if s.len() == 0 {
        assert(s.push(g).subrange(1, 1) =~= Seq::<TagGroup>::empty());
        assert(flatten_seq(Seq::<TagGroup>::empty()) == Seq::<Tag>::empty());
        assert(flatten_seq(s.push(g)) =~= flatten(g));
    } else {
        let rest = s.subrange(1, s.len() as int);
        assert(s.push(g).subrange(1, s.len() as int + 1) =~= rest.push(g));
        lemma_flatten_seq_push(rest, g);
        assert(flatten_seq(s.push(g)) =~= flatten_seq(s) + flatten(g));
    }
}

/// The tags that name a usage.
pub open spec fn usage_tags(u: Usage) -> Seq<Tag> {
    match u {
        Usage::Standard(page, id) => seq![Tag::UsagePage(page), Tag::UsageId(id)],
        Usage::Extended(e) => seq![Tag::ExtendedUsage(e)],
    }
}

/// The tags that name the lower bound of a usage range.
pub open spec fn usage_minimum_tags(u: Usage) -> Seq<Tag> {
    match u {
        Usage::Standard(page, id) => seq![Tag::UsagePage(page), Tag::UsageMinimumId(id)],
        Usage::Extended(e) => seq![Tag::ExtendedUsageMinimum(e)],
    }
}

/// The tags that name the upper bound of a usage range.
pub open spec fn usage_maximum_tags(u: Usage) -> Seq<Tag> {
    match u {
        Usage::Standard(page, id) => seq![Tag::UsagePage(page), Tag::UsageMaximumId(id)],
        Usage::Extended(e) => seq![Tag::ExtendedUsageMaximum(e)],
    }
}

/// A range of one usage is named as a usage, a longer one by its bounds.
pub open spec fn range_tags(r: UsageRange) -> Seq<Tag> {
    if r.spec_len() == 1 {
        usage_tags(r.min)
    } else {
        usage_minimum_tags(r.min) + usage_maximum_tags(r.max)
    }
}

/// The tags of a sequence of usage ranges, one range after the other.
pub open spec fn ranges_tags(s: Seq<UsageRange>) -> Seq<Tag>
    decreases s.len(),
{
    if s.len() == 0 {
        Seq::empty()
    } else {
        ranges_tags(s.subrange(0, s.len() - 1)) + range_tags(s[s.len() - 1])
    }
}

/// One tag when the value is present, none otherwise.
pub open spec fn optional_tag<T>(o: Option<T>, f: spec_fn(T) -> Tag) -> Seq<Tag> {
    match o {
        Some(v) => seq![f(v)],
        None => Seq::empty(),
    }
}

/// The Main item tag of a report.
pub open spec fn main_tag(main: ReportMain) -> Tag {
    match main.report_type {
        ReportType::Input => Tag::Input(main.report_flags),
        ReportType::Output => Tag::Output(main.report_flags),
        ReportType::Feature => Tag::Feature(main.report_flags),
    }
}

/// The tags of a report: usages, the required globals, the optional globals that are set,
/// and the Main item last.
pub open spec fn report_tags(r: Report) -> Seq<Tag> {
    ranges_tags(r.usage_set@) + seq![
        Tag::LogicalMinimum(r.logical_minimum),
        Tag::LogicalMaximum(r.logical_maximum),
        Tag::ReportSize(r.report_size),
        Tag::ReportCount(r.report_count),
    ] + optional_tag(r.physical_minimum, |v| Tag::PhysicalMinimum(v)) + optional_tag(
        r.physical_maximum,
        |v| Tag::PhysicalMaximum(v),
    ) + optional_tag(r.unit_exponent, |v| Tag::UnitExponent(v)) + optional_tag(
        r.unit,
        |v| Tag::Unit(v),
    ) + optional_tag(r.report_id, |v| Tag::ReportId(v)) + seq![main_tag(r.main)]
}

/// The tags of a collection: its usage, its optional locals, the Collection item, the tags of
/// its items in order, and the End Collection item.
pub open spec fn collection_tags(c: Collection) -> Seq<Tag>
    decreases c,
{
    usage_tags(c.usage) + optional_tag(c.designator_index, |v| Tag::DesignatorIndex(v))
        + optional_tag(c.string_index, |v| Tag::StringIndex(v)) + optional_tag(
        c.delimiter,
        |v| Tag::Delimiter(v),
    ) + seq![Tag::Collection(c.collection_type)] + items_tags(c.items@) + seq![Tag::EndCollection]
}

/// The tags of a collection item.
pub open spec fn item_tags(item: CollectionItem) -> Seq<Tag>
    decreases item,
{
    match item {
        CollectionItem::Report(r) => report_tags(r),
        CollectionItem::Collection(c) => collection_tags(c),
    }
}

/// The tags of a sequence of collection items, one item after the other.
pub open spec fn items_tags(s: Seq<CollectionItem>) -> Seq<Tag>
    decreases s,
{
    if s.len() == 0 {
        Seq::empty()
    } else {
        items_tags(s.subrange(0, s.len() - 1)) + item_tags(s[s.len() - 1])
    }
}

/// Push a group, keeping track of the tags.
fn push_group(v: &mut Vec<TagGroup>, g: TagGroup)
    ensures
        flatten_seq(final(v)@) == flatten_seq(old(v)@) + flatten(g),
{
    proof {
        lemma_flatten_seq_push(v@, g);
    }
    v.push(g);
}

impl TagGroup {
    pub fn input(v: ReportFlags) -> (r: Self)
        ensures
            r == TagGroup::Tag(Tag::Input(v)),
    {
        TagGroup::Tag(Tag::Input(v))
    }

    pub fn output(v: ReportFlags) -> (r: Self)
        ensures
            r == TagGroup::Tag(Tag::Output(v)),
    {
        TagGroup::Tag(Tag::Output(v))
    }

    pub fn feature(v: ReportFlags) -> (r: Self)
        ensures
            r == TagGroup::Tag(Tag::Feature(v)),
    {
        TagGroup::Tag(Tag::Feature(v))
    }

    pub fn collection_tag(v: CollectionType) -> (r: Self)
        ensures
            r == TagGroup::Tag(Tag::Collection(v)),
    {
        TagGroup::Tag(Tag::Collection(v))
    }

    pub fn end_collection() -> (r: Self)
        ensures
            r == TagGroup::Tag(Tag::EndCollection),
    {
        TagGroup::Tag(Tag::EndCollection)
    }

    pub fn usage_page(v: UsagePage) -> (r: Self)
        ensures
            r == TagGroup::Tag(Tag::UsagePage(v)),
    {
        TagGroup::Tag(Tag::UsagePage(v))
    }

    pub fn logical_minimum(v: LogicalValue) -> (r: Self)
        ensures
            r == TagGroup::Tag(Tag::LogicalMinimum(v)),
    {
        TagGroup::Tag(Tag::LogicalMinimum(v))
    }

    pub fn logical_maximum(v: LogicalValue) -> (r: Self)
        ensures
            r == TagGroup::Tag(Tag::LogicalMaximum(v)),
    {
        TagGroup::Tag(Tag::LogicalMaximum(v))
    }

    pub fn physical_minimum(v: PhysicalValue) -> (r: Self)
        ensures
            r == TagGroup::Tag(Tag::PhysicalMinimum(v)),
    {
        TagGroup::Tag(Tag::PhysicalMinimum(v))
    }

    pub fn physical_maximum(v: PhysicalValue) -> (r: Self)
        ensures
            r == TagGroup::Tag(Tag::PhysicalMaximum(v)),
    {
        TagGroup::Tag(Tag::PhysicalMaximum(v))
    }

    pub fn unit_exponent(v: UnitExponent) -> (r: Self)
        ensures
            r == TagGroup::Tag(Tag::UnitExponent(v)),
    {
        TagGroup::Tag(Tag::UnitExponent(v))
    }

    pub fn unit(v: Unit) -> (r: Self)
        ensures
            r == TagGroup::Tag(Tag::Unit(v)),
    {
        TagGroup::Tag(Tag::Unit(v))
    }

    pub fn report_size(v: ReportSize) -> (r: Self)
        ensures
            r == TagGroup::Tag(Tag::ReportSize(v)),
    {
        TagGroup::Tag(Tag::ReportSize(v))
    }

    pub fn report_id(v: ReportId) -> (r: Self)
        ensures
            r == TagGroup::Tag(Tag::ReportId(v)),
    {
        TagGroup::Tag(Tag::ReportId(v))
    }

    pub fn report_count(v: ReportCount) -> (r: Self)
        ensures
            r == TagGroup::Tag(Tag::ReportCount(v)),
    {
        TagGroup::Tag(Tag::ReportCount(v))
    }

    pub fn push() -> (r: Self)
        ensures
            r == TagGroup::Tag(Tag::Push),
    {
        TagGroup::Tag(Tag::Push)
    }

    pub fn pop() -> (r: Self)
        ensures
            r == TagGroup::Tag(Tag::Pop),
    {
        TagGroup::Tag(Tag::Pop)
    }

    pub fn extended_usage(v: ExtendedUsage) -> (r: Self)
        ensures
            r == TagGroup::Tag(Tag::ExtendedUsage(v)),
    {
        TagGroup::Tag(Tag::ExtendedUsage(v))
    }

    pub fn usage_id(v: UsageId) -> (r: Self)
        ensures
            r == TagGroup::Tag(Tag::UsageId(v)),
    {
        TagGroup::Tag(Tag::UsageId(v))
    }

    pub fn extended_usage_minimum(v: ExtendedUsage) -> (r: Self)
        ensures
            r == TagGroup::Tag(Tag::ExtendedUsageMinimum(v)),
    {
        TagGroup::Tag(Tag::ExtendedUsageMinimum(v))
    }

    pub fn usage_minimum_id(v: UsageId) -> (r: Self)
        ensures
            r == TagGroup::Tag(Tag::UsageMinimumId(v)),
    {
        TagGroup::Tag(Tag::UsageMinimumId(v))
    }

    pub fn extended_usage_maximum(v: ExtendedUsage) -> (r: Self)
        ensures
            r == TagGroup::Tag(Tag::ExtendedUsageMaximum(v)),
    {
        TagGroup::Tag(Tag::ExtendedUsageMaximum(v))
    }

    pub fn usage_maximum_id(v: UsageId) -> (r: Self)
        ensures
            r == TagGroup::Tag(Tag::UsageMaximumId(v)),
    {
        TagGroup::Tag(Tag::UsageMaximumId(v))
    }

    pub fn designator_index(v: DesignatorIndex) -> (r: Self)
        ensures
            r == TagGroup::Tag(Tag::DesignatorIndex(v)),
    {
        TagGroup::Tag(Tag::DesignatorIndex(v))
    }

    pub fn designator_minimum(v: DesignatorIndex) -> (r: Self)
        ensures
            r == TagGroup::Tag(Tag::DesignatorMinimum(v)),
    {
        TagGroup::Tag(Tag::DesignatorMinimum(v))
    }

    pub fn designator_maximum(v: DesignatorIndex) -> (r: Self)
        ensures
            r == TagGroup::Tag(Tag::DesignatorMaximum(v)),
    {
        TagGroup::Tag(Tag::DesignatorMaximum(v))
    }

    pub fn string_index(v: StringIndex) -> (r: Self)
        ensures
            r == TagGroup::Tag(Tag::StringIndex(v)),
    {
        TagGroup::Tag(Tag::StringIndex(v))
    }

    pub fn string_minimum(v: StringIndex) -> (r: Self)
        ensures
            r == TagGroup::Tag(Tag::StringMinimum(v)),
    {
        TagGroup::Tag(Tag::StringMinimum(v))
    }

    pub fn string_maximum(v: StringIndex) -> (r: Self)
        ensures
            r == TagGroup::Tag(Tag::StringMaximum(v)),
    {
        TagGroup::Tag(Tag::StringMaximum(v))
    }

    pub fn delimiter(v: Delimiter) -> (r: Self)
        ensures
            r == TagGroup::Tag(Tag::Delimiter(v)),
    {
        TagGroup::Tag(Tag::Delimiter(v))
    }

    /// A group of the given groups, in order.
    pub fn group(items: Vec<TagGroup>) -> (r: Self)
        ensures
            r == TagGroup::Group(items),
            flatten(r) == flatten_seq(items@),
    {
        TagGroup::Group(items)
    }

    /// The tags that name a usage: its page and ID, or its extended form alone.
    pub fn usage(usage: Usage) -> (r: Self)
        ensures
            flatten(r) == usage_tags(usage),
    {
        let mut v: Vec<TagGroup> = Vec::new();
        match usage {
            Usage::Standard(page, id) => {
                push_group(&mut v, TagGroup::usage_page(page));
                push_group(&mut v, TagGroup::usage_id(id));
            },
            Usage::Extended(id) => {
                push_group(&mut v, TagGroup::extended_usage(id));
            },
        }
        assert(flatten_seq(Seq::<TagGroup>::empty()) == Seq::<Tag>::empty());
        proof {
            assert(flatten(TagGroup::Group(v)) =~= usage_tags(usage));
        }
        TagGroup::group(v)
    }

    /// The tags that name the lower bound of a usage range.
    pub fn usage_minimum(usage: Usage) -> (r: Self)
        ensures
            flatten(r) == usage_minimum_tags(usage),
    {
        let mut v: Vec<TagGroup> = Vec::new();
        match usage {
            Usage::Standard(page, id) => {
                push_group(&mut v, TagGroup::usage_page(page));
                push_group(&mut v, TagGroup::usage_minimum_id(id));
            },
            Usage::Extended(id) => {
                push_group(&mut v, TagGroup::extended_usage_minimum(id));
            },
        }
        assert(flatten_seq(Seq::<TagGroup>::empty()) == Seq::<Tag>::empty());
        proof {
            assert(flatten(TagGroup::Group(v)) =~= usage_minimum_tags(usage));
        }
        TagGroup::group(v)
    }

    /// The tags that name the upper bound of a usage range.
    pub fn usage_maximum(usage: Usage) -> (r: Self)
        ensures
            flatten(r) == usage_maximum_tags(usage),
    {
        let mut v: Vec<TagGroup> = Vec::new();
        match usage {
            Usage::Standard(page, id) => {
                push_group(&mut v, TagGroup::usage_page(page));
                push_group(&mut v, TagGroup::usage_maximum_id(id));
            },
            Usage::Extended(id) => {
                push_group(&mut v, TagGroup::extended_usage_maximum(id));
            },
        }
        assert(flatten_seq(Seq::<TagGroup>::empty()) == Seq::<Tag>::empty());
        proof {
            assert(flatten(TagGroup::Group(v)) =~= usage_maximum_tags(usage));
        }
        TagGroup::group(v)
    }

    /// The tags of a usage range.
    pub fn usage_range(usage_range: UsageRange) -> (r: Self)
        ensures
            flatten(r) == range_tags(usage_range),
    {
        let mut v: Vec<TagGroup> = Vec::new();
        assert(flatten_seq(Seq::<TagGroup>::empty()) == Seq::<Tag>::empty());
        if usage_range.len() == 1 {
            push_group(&mut v, TagGroup::usage(usage_range.min));
        } else {
            push_group(&mut v, TagGroup::usage_minimum(usage_range.min));
            push_group(&mut v, TagGroup::usage_maximum(usage_range.max));
        }
        proof {
            assert(flatten(TagGroup::Group(v)) =~= range_tags(usage_range));
        }
        TagGroup::group(v)
    }

    /// The tags of a usage set, range by range.
    pub fn usage_set(usage_set: UsageSet) -> (r: Self)
        ensures
            flatten(r) == ranges_tags(usage_set@),
    {
        TagGroup::ranges_group(usage_set.ranges())
    }

    fn ranges_group(ranges: &[UsageRange]) -> (r: Self)
        ensures
            flatten(r) == ranges_tags(ranges@),
    {
        let mut v: Vec<TagGroup> = Vec::new();
        let mut i: usize = 0;
        assert(flatten_seq(Seq::<TagGroup>::empty()) == Seq::<Tag>::empty());
        assert(ranges@.subrange(0, 0) =~= Seq::<UsageRange>::empty());
        while i < ranges.len()
            invariant
                0 <= i <= ranges@.len(),
                flatten_seq(v@) == ranges_tags(ranges@.subrange(0, i as int)),
            decreases ranges@.len() - i,
        {
            push_group(&mut v, TagGroup::usage_range(ranges[i]));
            assert(ranges@.subrange(0, i + 1).subrange(0, i as int) =~= ranges@.subrange(
                0,
                i as int,
            ));
            i = i + 1;
        }
        assert(ranges@.subrange(0, ranges@.len() as int) =~= ranges@);
        TagGroup::group(v)
    }

    /// The tag of a report's Main item.
    pub fn report_main(main: ReportMain) -> (r: Self)
        ensures
            r == TagGroup::Tag(main_tag(main)),
    {
        match main.report_type {
            ReportType::Feature => TagGroup::feature(main.report_flags),
            ReportType::Input => TagGroup::input(main.report_flags),
            ReportType::Output => TagGroup::output(main.report_flags),
        }
    }

    /// The tags of a report.
    #[verifier::rlimit(50)]
    fn report(report: &Report) -> (r: Self)
        ensures
            flatten(r) == report_tags(*report),
    {
        let mut v: Vec<TagGroup> = Vec::new();
        assert(flatten_seq(Seq::<TagGroup>::empty()) == Seq::<Tag>::empty());
        push_group(&mut v, TagGroup::ranges_group(report.usage_set.ranges()));
        push_group(&mut v, TagGroup::logical_minimum(report.logical_minimum));
        push_group(&mut v, TagGroup::logical_maximum(report.logical_maximum));
        push_group(&mut v, TagGroup::report_size(report.report_size));
        push_group(&mut v, TagGroup::report_count(report.report_count));
        if let Some(physical_minimum) = report.physical_minimum {
            push_group(&mut v, TagGroup::physical_minimum(physical_minimum));
        }
        if let Some(physical_maximum) = report.physical_maximum {
            push_group(&mut v, TagGroup::physical_maximum(physical_maximum));
        }
        if let Some(unit_exponent) = report.unit_exponent {
            push_group(&mut v, TagGroup::unit_exponent(unit_exponent));
        }
        if let Some(unit) = report.unit {
            push_group(&mut v, TagGroup::unit(unit));
        }
        if let Some(report_id) = report.report_id {
            push_group(&mut v, TagGroup::report_id(report_id));
        }
        push_group(&mut v, TagGroup::report_main(report.main));
        proof {
            assert(flatten(TagGroup::Group(v)) =~= report_tags(*report));
        }
        TagGroup::group(v)
    }

    #[verifier::rlimit(50)]
    fn collection_ref(collection: &Collection) -> (r: Self)
        ensures
            flatten(r) == collection_tags(*collection),
        decreases collection,
    {
        let mut v: Vec<TagGroup> = Vec::new();
        assert(flatten_seq(Seq::<TagGroup>::empty()) == Seq::<Tag>::empty());
        push_group(&mut v, TagGroup::usage(collection.usage));
        if let Some(designator_index) = collection.designator_index {
            push_group(&mut v, TagGroup::designator_index(designator_index));
        }
        if let Some(string_index) = collection.string_index {
            push_group(&mut v, TagGroup::string_index(string_index));
        }
        if let Some(delimiter) = collection.delimiter {
            push_group(&mut v, TagGroup::delimiter(delimiter));
        }
        push_group(&mut v, TagGroup::collection_tag(collection.collection_type));
        push_group(&mut v, TagGroup::items_ref(collection.items.as_slice()));
        push_group(&mut v, TagGroup::end_collection());
        proof {
            assert(flatten(TagGroup::Group(v)) =~= collection_tags(*collection));
        }
        TagGroup::group(v)
    }

    fn item_ref(item: &CollectionItem) -> (r: Self)
        ensures
            flatten(r) == item_tags(*item),
        decreases item,
    {
        match item {
            CollectionItem::Report(report) => TagGroup::report(report),
            CollectionItem::Collection(collection) => TagGroup::collection_ref(collection),
        }
    }

    fn items_ref(items: &[CollectionItem]) -> (r: Self)
        ensures
            flatten(r) == items_tags(items@),
        decreases items@,
    {
        let mut v: Vec<TagGroup> = Vec::new();
        let mut i: usize = 0;
        assert(flatten_seq(Seq::<TagGroup>::empty()) == Seq::<Tag>::empty());
        assert(items@.subrange(0, 0) =~= Seq::<CollectionItem>::empty());
        while i < items.len()
            invariant
                0 <= i <= items@.len(),
                flatten_seq(v@) == items_tags(items@.subrange(0, i as int)),
            decreases items@.len() - i,
        {
            push_group(&mut v, TagGroup::item_ref(&items[i]));
            assert(items@.subrange(0, i + 1).subrange(0, i as int) =~= items@.subrange(
                0,
                i as int,
            ));
            i = i + 1;
        }
        assert(items@.subrange(0, items@.len() as int) =~= items@);
        TagGroup::group(v)
    }

    /// The tags of a collection.
    pub fn collection(collection: Collection) -> (r: Self)
        ensures
            flatten(r) == collection_tags(collection),
    {
        TagGroup::collection_ref(&collection)
    }

    /// The tags of a collection item.
    pub fn collection_item(item: CollectionItem) -> (r: Self)
        ensures
            flatten(r) == item_tags(item),
    {
        TagGroup::item_ref(&item)
    }

    /// The tags of a sequence of collection items, in order.
    pub fn collection_items(items: Vec<CollectionItem>) -> (r: Self)
        ensures
            flatten(r) == items_tags(items@),
    {
        TagGroup::items_ref(items.as_slice())
    }
}

} // verus!
