use hid_descriptor::collection::{Collection, CollectionItem};
use hid_descriptor::field_types::{CollectionType, Delimiter, ReportFlags, UnitExponent, Unit};
use hid_descriptor::item::{ShortItem, ShortItemData, ShortItems};
use hid_descriptor::optimizer::TagOptimizer;
use hid_descriptor::report::Report;
use hid_descriptor::tag::{Tag, TagGroup};
use hid_descriptor::usage::{ExtendedUsage, Usage, UsageSet};
use hid_descriptor::usage_tables::{button, generic_desktop, page};

fn mouse() -> Collection {
    let buttons = Report::new_input(
        ReportFlags::new().as_variable(),
        UsageSet::empty().with_usage_bounds(button::new(1), button::new(3)),
        0,
        1,
        1,
        3,
    );
    let padding = Report::new_input(ReportFlags::new().as_constant(), UsageSet::empty(), 0, 1, 5, 1);
    let axes = Report::new_input(
        ReportFlags::new().as_variable().as_relative(),
        UsageSet::empty()
            .with_usage(Usage::new(generic_desktop::PAGE, generic_desktop::X))
            .with_usage(Usage::new(generic_desktop::PAGE, generic_desktop::Y)),
        -127,
        127,
        8,
        2,
    );
    let pointer = Collection::new(
        CollectionType::Physical,
        Usage::new(generic_desktop::PAGE, generic_desktop::POINTER),
        vec![
            CollectionItem::Report(buttons),
            CollectionItem::Report(padding),
            CollectionItem::Report(axes),
        ],
    );
    Collection::new(
        CollectionType::Application,
        Usage::new(generic_desktop::PAGE, generic_desktop::MOUSE),
        vec![CollectionItem::Collection(pointer)],
    )
}

const MOUSE_DESCRIPTOR: [u8; 50] = [
    0x05, 0x01, // Usage Page (Generic Desktop)
    0x09, 0x02, // Usage (Mouse)
    0xA1, 0x01, // Collection (Application)
    0x09, 0x01, // Usage (Pointer)
    0xA1, 0x00, // Collection (Physical)
    0x05, 0x09, // Usage Page (Button)
    0x19, 0x01, // Usage Minimum (1)
    0x29, 0x03, // Usage Maximum (3)
    0x15, 0x00, // Logical Minimum (0)
    0x25, 0x01, // Logical Maximum (1)
    0x75, 0x01, // Report Size (1)
    0x95, 0x03, // Report Count (3)
    0x81, 0x02, // Input (Data, Variable, Absolute)
    0x75, 0x05, // Report Size (5)
    0x95, 0x01, // Report Count (1)
    0x81, 0x01, // Input (Constant)
    0x05, 0x01, // Usage Page (Generic Desktop)
    0x09, 0x30, // Usage (X)
    0x09, 0x31, // Usage (Y)
    0x15, 0x81, // Logical Minimum (-127)
    0x25, 0x7F, // Logical Maximum (127)
    0x75, 0x08, // Report Size (8)
    0x95, 0x02, // Report Count (2)
    0x81, 0x06, // Input (Data, Variable, Relative)
    0xC0, // End Collection
    0xC0, // End Collection
];

#[test]
fn mouse_descriptor_golden_bytes() {
    let bytes = mouse().into_bytes();
    assert_eq!(bytes, MOUSE_DESCRIPTOR.to_vec());
}

#[test]
fn mouse_descriptor_deduplicated_tags() {
    let tags = TagGroup::collection(mouse()).tag_list();
    let cleaned = TagOptimizer::from_iter(tags).remove_duplicates().into_iter();
    assert_eq!(cleaned.len(), 26);
    assert_eq!(cleaned[0], Tag::UsagePage(page::GENERIC_DESKTOP));
    assert_eq!(cleaned[1], Tag::UsageId(generic_desktop::MOUSE));
    assert_eq!(cleaned[2], Tag::Collection(CollectionType::Application));
    assert_eq!(cleaned[3], Tag::UsageId(generic_desktop::POINTER));
    assert_eq!(cleaned[4], Tag::Collection(CollectionType::Physical));
    assert_eq!(cleaned[12], Tag::Input(ReportFlags::new().as_variable()));
    assert_eq!(cleaned[15], Tag::Input(ReportFlags::new().as_constant()));
    assert_eq!(cleaned[23], Tag::Input(ReportFlags::new().as_variable().as_relative()));
    assert_eq!(cleaned[24], Tag::EndCollection);
    assert_eq!(cleaned[25], Tag::EndCollection);
}

#[test]
fn descriptor_length_is_sum_of_item_lengths() {
    let bytes = mouse().into_bytes();
    let tags = TagGroup::collection(mouse()).tag_list();
    let cleaned = TagOptimizer::from_iter(tags).remove_duplicates().into_iter();
    let mut total = 0usize;
    let mut offset = 0usize;
    for tag in cleaned.iter() {
        let item = ShortItem::from(*tag);
        let item_bytes = item.into_bytes();
        total += item_bytes.len();
        // The prefix byte at each item's offset tells its size, type and tag.
        let prefix = bytes[offset];
        assert_eq!(prefix, item.0.as_u8());
        let size = match prefix & 3 {
            0 => 0,
            1 => 1,
            2 => 2,
            _ => 4,
        };
        assert_eq!(size + 1, item_bytes.len());
        assert_eq!(item.0.b_tag(), prefix >> 4);
        assert_eq!(item.0.b_type().code(), (prefix >> 2) & 3);
        offset += 1 + size;
    }
    assert_eq!(total, bytes.len());
    assert_eq!(offset, bytes.len());
}

#[test]
fn remove_duplicates_is_idempotent() {
    let tags = vec![
        Tag::UsagePage(1),
        Tag::UsageId(2),
        Tag::UsagePage(1),
        Tag::LogicalMinimum(0),
        Tag::LogicalMinimum(0),
        Tag::Input(ReportFlags::new()),
        Tag::LogicalMinimum(-1),
        Tag::LogicalMinimum(0),
        Tag::Push,
        Tag::ReportSize(8),
        Tag::Pop,
        Tag::ReportSize(8),
    ];
    let once = TagOptimizer::from_iter(tags).remove_duplicates().into_iter();
    assert_eq!(
        once,
        vec![
            Tag::UsagePage(1),
            Tag::UsageId(2),
            Tag::LogicalMinimum(0),
            Tag::Input(ReportFlags::new()),
            Tag::LogicalMinimum(-1),
            Tag::LogicalMinimum(0),
            Tag::Push,
            Tag::ReportSize(8),
            Tag::Pop,
        ]
    );
    let twice = TagOptimizer::from_iter(once.clone()).remove_duplicates().into_iter();
    assert_eq!(twice, once);
}

#[test]
fn local_and_main_tags_are_never_dropped() {
    let tags = vec![
        Tag::UsageId(1),
        Tag::UsageId(1),
        Tag::EndCollection,
        Tag::EndCollection,
    ];
    let out = TagOptimizer::from_iter(tags.clone()).remove_duplicates().into_iter();
    assert_eq!(out, tags);
}

fn item_bytes(tag: Tag) -> Vec<u8> {
    ShortItem::from(tag).into_bytes()
}

#[test]
fn unsigned_values_shrink_to_narrowest_width() {
    assert_eq!(item_bytes(Tag::ReportCount(0)), vec![0x94]);
    assert_eq!(item_bytes(Tag::ReportCount(0xFF)), vec![0x95, 0xFF]);
    assert_eq!(item_bytes(Tag::ReportCount(0x100)), vec![0x96, 0x00, 0x01]);
    assert_eq!(item_bytes(Tag::ReportCount(0xFFFF)), vec![0x96, 0xFF, 0xFF]);
    assert_eq!(item_bytes(Tag::ReportCount(0x10000)), vec![0x97, 0x00, 0x00, 0x01, 0x00]);
    assert_eq!(item_bytes(Tag::ReportCount(u32::MAX)), vec![0x97, 0xFF, 0xFF, 0xFF, 0xFF]);
}

#[test]
fn signed_values_shrink_to_narrowest_width() {
    assert_eq!(item_bytes(Tag::LogicalMinimum(0)), vec![0x15, 0x00]);
    assert_eq!(item_bytes(Tag::LogicalMinimum(-128)), vec![0x15, 0x80]);
    assert_eq!(item_bytes(Tag::LogicalMinimum(127)), vec![0x15, 0x7F]);
    assert_eq!(item_bytes(Tag::LogicalMinimum(128)), vec![0x16, 0x80, 0x00]);
    assert_eq!(item_bytes(Tag::LogicalMinimum(-129)), vec![0x16, 0x7F, 0xFF]);
    assert_eq!(item_bytes(Tag::LogicalMaximum(32767)), vec![0x26, 0xFF, 0x7F]);
    assert_eq!(item_bytes(Tag::LogicalMaximum(-32768)), vec![0x26, 0x00, 0x80]);
    assert_eq!(item_bytes(Tag::PhysicalMinimum(32768)), vec![0x37, 0x00, 0x80, 0x00, 0x00]);
    assert_eq!(item_bytes(Tag::PhysicalMaximum(i32::MIN)), vec![0x47, 0x00, 0x00, 0x00, 0x80]);
}

fn decode_unsigned(bytes: &[u8]) -> u32 {
    let mut v: u32 = 0;
    for (k, b) in bytes.iter().enumerate() {
        v |= (*b as u32) << (8 * k);
    }
    v
}

fn decode_signed(bytes: &[u8]) -> i32 {
    let n = bytes.len();
    let v = decode_unsigned(bytes) as i64;
    if n > 0 && n < 4 && bytes[n - 1] >= 0x80 {
        (v - (1i64 << (8 * n))) as i32
    } else {
        v as u32 as i32
    }
}

#[test]
fn shrink_round_trips() {
    for v in [0u32, 1, 0x7F, 0x80, 0xFF, 0x100, 0xFFFF, 0x10000, 0x1234_5678, u32::MAX] {
        let bytes = ShortItem::from(Tag::ReportSize(v)).into_bytes();
        assert_eq!(decode_unsigned(&bytes[1..]), v);
    }
    for v in [0i32, 1, -1, 127, -128, 128, -129, 32767, -32768, 32768, -32769, i32::MAX, i32::MIN] {
        let bytes = ShortItem::from(Tag::LogicalMinimum(v)).into_bytes();
        assert_eq!(decode_signed(&bytes[1..]), v);
    }
}

#[test]
fn shrink_keeps_signedness() {
    assert_eq!(ShortItemData::U32(5).shrink(), ShortItemData::U8(5));
    assert_eq!(ShortItemData::U32(0).shrink(), ShortItemData::Empty);
    assert_eq!(ShortItemData::U8(0x80).shrink(), ShortItemData::U8(0x80));
    assert_eq!(ShortItemData::I32(-2).shrink(), ShortItemData::I8(-2));
    assert_eq!(ShortItemData::I32(200).shrink(), ShortItemData::I16(200));
    assert_eq!(ShortItemData::I16(-300).shrink(), ShortItemData::I16(-300));
    assert_eq!(ShortItemData::I8(-2).as_u32(), 0xFFFF_FFFE);
}

#[test]
fn fixed_width_items() {
    assert_eq!(
        item_bytes(Tag::ExtendedUsage(ExtendedUsage::new(0x0001_0002))),
        vec![0x0B, 0x02, 0x00, 0x01, 0x00]
    );
    assert_eq!(
        item_bytes(Tag::ExtendedUsageMinimum(ExtendedUsage::new(1))),
        vec![0x1B, 0x01, 0x00, 0x00, 0x00]
    );
    assert_eq!(
        item_bytes(Tag::ExtendedUsageMaximum(ExtendedUsage::new(2))),
        vec![0x2B, 0x02, 0x00, 0x00, 0x00]
    );
    let minus_one = UnitExponent::try_from(-1i8).unwrap();
    assert_eq!(item_bytes(Tag::UnitExponent(minus_one)), vec![0x55, 0xFF]);
    let three = UnitExponent::try_from(3i8).unwrap();
    assert_eq!(item_bytes(Tag::UnitExponent(three)), vec![0x55, 0x03]);
    assert_eq!(item_bytes(Tag::Collection(CollectionType::Physical)), vec![0xA1, 0x00]);
    assert_eq!(item_bytes(Tag::ReportId(0)), vec![0x85, 0x00]);
    assert_eq!(item_bytes(Tag::EndCollection), vec![0xC0]);
    assert_eq!(item_bytes(Tag::Push), vec![0xA4]);
    assert_eq!(item_bytes(Tag::Pop), vec![0xB4]);
}

#[test]
fn remaining_tag_prefixes() {
    assert_eq!(item_bytes(Tag::Output(ReportFlags::from(2u32))), vec![0x91, 0x02]);
    assert_eq!(item_bytes(Tag::Feature(ReportFlags::from(0x102u32))), vec![0xB2, 0x02, 0x01]);
    assert_eq!(item_bytes(Tag::Unit(Unit(0x11))), vec![0x65, 0x11]);
    assert_eq!(item_bytes(Tag::UsageMinimumId(1)), vec![0x19, 0x01]);
    assert_eq!(item_bytes(Tag::UsageMaximumId(0x1FF)), vec![0x2A, 0xFF, 0x01]);
    assert_eq!(item_bytes(Tag::DesignatorIndex(3u32.into())), vec![0x39, 0x03]);
    assert_eq!(item_bytes(Tag::DesignatorMinimum(4u32.into())), vec![0x49, 0x04]);
    assert_eq!(item_bytes(Tag::DesignatorMaximum(5u32.into())), vec![0x59, 0x05]);
    assert_eq!(item_bytes(Tag::StringIndex(6u32.into())), vec![0x79, 0x06]);
    assert_eq!(item_bytes(Tag::StringMinimum(7u32.into())), vec![0x89, 0x07]);
    assert_eq!(item_bytes(Tag::StringMaximum(8u32.into())), vec![0x99, 0x08]);
    assert_eq!(item_bytes(Tag::Delimiter(Delimiter::open())), vec![0xA9, 0x01]);
    assert_eq!(item_bytes(Tag::Delimiter(Delimiter::close())), vec![0xA8]);
}

#[test]
fn short_items_concatenate() {
    let items = ShortItems::from_tags(vec![Tag::UsagePage(1), Tag::EndCollection, Tag::ReportSize(0x100)]);
    assert_eq!(items.into_bytes(), vec![0x05, 0x01, 0xC0, 0x76, 0x00, 0x01]);
}

#[test]
fn extended_usage_collection_and_ranges() {
    let report = Report::new_feature(
        ReportFlags::new(),
        UsageSet::empty()
            .with_usage_bounds(Usage::extended(0x0009_0001), Usage::extended(0x0009_0002))
            .with_usage(Usage::extended(0x0009_0005)),
        0,
        1,
        1,
        2,
    );
    let mut c = Collection::new(
        CollectionType::Logical,
        Usage::extended(0x0001_0002),
        vec![CollectionItem::Report(report)],
    );
    c.string_index = Some(2u32.into());
    let bytes = c.into_bytes();
    assert_eq!(
        bytes,
        vec![
            0x0B, 0x02, 0x00, 0x01, 0x00, // Usage (extended)
            0x79, 0x02, // String Index (2)
            0xA1, 0x02, // Collection (Logical)
            0x1B, 0x01, 0x00, 0x09, 0x00, // Usage Minimum (extended)
            0x2B, 0x02, 0x00, 0x09, 0x00, // Usage Maximum (extended)
            0x0B, 0x05, 0x00, 0x09, 0x00, // Usage (extended)
            0x15, 0x00, // Logical Minimum (0)
            0x25, 0x01, // Logical Maximum (1)
            0x75, 0x01, // Report Size (1)
            0x95, 0x02, // Report Count (2)
            0xB0, // Feature (no flags)
            0xC0, // End Collection
        ]
    );
}

#[test]
fn optional_globals_in_order() {
    let report = Report::new_output(ReportFlags::new().as_variable(), UsageSet::empty(), 0, 255, 8, 1);
    let mut report = report.with_report_id(3);
    report.physical_minimum = Some(-10);
    report.physical_maximum = Some(10);
    report.unit_exponent = Some(UnitExponent::try_from(-2i8).unwrap());
    report.unit = Some(Unit(0x1001));
    let c = Collection::new(
        CollectionType::Application,
        Usage::new(page::LED, 1),
        vec![CollectionItem::Report(report)],
    );
    assert_eq!(
        c.into_bytes(),
        vec![
            0x05, 0x08, 0x09, 0x01, 0xA1, 0x01, // Usage Page, Usage, Collection
            0x15, 0x00, 0x26, 0xFF, 0x00, // Logical Minimum, Logical Maximum (255)
            0x75, 0x08, 0x95, 0x01, // Report Size, Report Count
            0x35, 0xF6, 0x45, 0x0A, // Physical Minimum (-10), Physical Maximum (10)
            0x55, 0xFE, // Unit Exponent (-2)
            0x66, 0x01, 0x10, // Unit
            0x85, 0x03, // Report ID (3)
            0x91, 0x02, // Output
            0xC0,
        ]
    );
}

#[test]
fn deep_nesting_flattens_in_order() {
    let mut g = TagGroup::group(vec![TagGroup::usage_id(0)]);
    for i in 1..2000u16 {
        g = TagGroup::group(vec![TagGroup::usage_id(i), g, TagGroup::end_collection()]);
    }
    let tags = g.tag_list();
    assert_eq!(tags.len(), 1 + 2 * 1999);
    assert_eq!(tags[0], Tag::UsageId(1999));
    assert_eq!(tags[1998], Tag::UsageId(1));
    assert_eq!(tags[1999], Tag::UsageId(0));
    assert_eq!(tags[2000], Tag::EndCollection);
    let mut it = g.tags();
    let mut n = 0;
    while let Some(_) = it.next() {
        n += 1;
    }
    assert_eq!(n, tags.len());
    assert!(it.next().is_none());
}

#[test]
fn empty_groups_yield_nothing() {
    let g = TagGroup::group(vec![TagGroup::group(vec![]), TagGroup::group(vec![TagGroup::group(vec![])])]);
    assert!(g.tags().next().is_none());
    let single = TagGroup::pop();
    assert_eq!(single.tag_list(), vec![Tag::Pop]);
}
