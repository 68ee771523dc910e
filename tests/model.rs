use hid_descriptor::error::TryFromIntError;
use hid_descriptor::field_types::{CollectionType, Delimiter, ReportFlags, Unit, UnitExponent};
use hid_descriptor::item::{BSize, BTag, BType, ItemPrefix, SizeTypeTag};
use hid_descriptor::report::{Report, ReportMain, ReportType};
use hid_descriptor::collection::{Collection, CollectionItem, CollectionItems};
use hid_descriptor::field_types::{DesignatorIndex, StringIndex};
use hid_descriptor::tag::{Tag, TagGroup, TagType};
use hid_descriptor::usage::{ExtendedUsage, Usage, UsageRange, UsageSet};
use hid_descriptor::usage_tables::{keyboard_keypad, led, page};

#[test]
fn usage_forms_compare_by_value() {
    let standard = Usage::new(0x0001, 0x0002);
    let extended = Usage::extended(0x0001_0002);
    assert!(standard == extended);
    assert_eq!(standard.as_u32(), 0x0001_0002);
    assert_eq!(extended.page(), 1);
    assert_eq!(extended.id(), 2);
    assert!(Usage::new(1, 3) > standard);
    assert!(Usage::from_extended(ExtendedUsage::new(5)) < standard);
    let e = ExtendedUsage::new(0xABCD_1234);
    assert_eq!((e.page(), e.id(), e.as_u32()), (0xABCD, 0x1234, 0xABCD_1234));
}

#[test]
fn usage_range_lengths() {
    assert_eq!(UsageRange::single(Usage::new(9, 4)).len(), 1);
    assert_eq!(UsageRange::new(Usage::new(9, 1), Usage::new(9, 8)).len(), 8);
    let full = UsageRange::new(Usage::extended(0), Usage::extended(u32::MAX));
    assert_eq!(full.len(), 0);
}

#[test]
fn usage_set_keeps_insertion_order() {
    let mut set = UsageSet::empty();
    set.push_usage(Usage::new(1, 1));
    set.push_usage_range(UsageRange::single(Usage::new(1, 1)));
    set.push_usage_bounds(Usage::new(7, 4), Usage::new(7, 9));
    let ranges = set.into_boxed_slice();
    assert_eq!(ranges.len(), 3);
    assert!(ranges[0] == ranges[1]);
    assert_eq!(ranges[2].max.id(), 9);
    let set = UsageSet::empty().with_usage_range(UsageRange::single(Usage::new(2, 2)));
    assert_eq!(set.ranges().len(), 1);
}

#[test]
fn usage_table_constructors() {
    assert_eq!(keyboard_keypad::new(4).as_u32(), 0x0007_0004);
    assert_eq!(led::new(1).page(), page::LED);
    assert_eq!(page::FIDO_ALLIANCE, 0xF1D0);
}

#[test]
fn report_flags_bits() {
    let flags = ReportFlags::new().as_constant().as_variable().as_relative().with_wrap();
    assert_eq!(flags.as_u32(), 0b1111);
    assert!(flags.is_constant() && flags.is_variable() && flags.is_relative() && flags.can_wrap());
    assert!(flags.is_linear() && flags.has_preferred_state() && flags.has_no_null_position());
    assert!(flags.is_nonvolatile() && flags.is_bit_field());
    let flags = flags.as_data().as_array().as_absolute().without_wrap();
    assert_eq!(flags.as_u32(), 0);
    let flags = ReportFlags::new()
        .as_nonlinear()
        .with_preferred_state()
        .with_null_state()
        .as_volatile()
        .as_buffered_bytes();
    assert_eq!(flags.as_u32(), 0b1_1111_0000);
    assert!(flags.is_nonlinear() && flags.has_no_preferred_state() && flags.has_null_state());
    assert!(flags.is_volatile() && flags.is_buffered_bytes() && flags.is_data() && flags.is_array());
    assert!(flags.is_absolute() && flags.cannot_wrap());
    let flags = flags.as_linear().without_preferred_state().without_null_position().as_nonvolatile().as_bit_field();
    assert_eq!(flags.as_u32(), 0);
    assert_eq!(ReportFlags::from(0x1FFu32).as_u32(), 0x1FF);
}

#[test]
fn collection_type_codes() {
    assert_eq!(CollectionType::UsageModifier.code(), 6);
    assert_eq!(u8::from(CollectionType::Application), 1);
    assert_eq!(CollectionType::try_from(4u8), Ok(CollectionType::NamedArray));
    assert_eq!(CollectionType::try_from(7u8), Err(TryFromIntError {}));
}

#[test]
fn unit_exponent_range() {
    assert_eq!(UnitExponent::try_from(-5i8), Err(TryFromIntError {}));
    assert_eq!(UnitExponent::try_from(4i8), Err(TryFromIntError {}));
    let e = UnitExponent::try_from(-4i8).unwrap();
    assert_eq!(e.as_i8(), -4);
    assert_eq!(e.as_nibble(), 0x0C);
    assert_eq!(e.as_byte(), 0xFC);
    assert_eq!(UnitExponent::try_from(2i8).unwrap().as_byte(), 0x02);
    assert_eq!(UnitExponent::try_from(3i8).unwrap().as_nibble(), 3);
    assert_eq!(Unit(0x12).code(), 0x12);
}

#[test]
fn delimiters() {
    assert!(Delimiter::open().is_open());
    assert!(Delimiter::close().is_close());
}

#[test]
fn tag_categories() {
    assert_eq!(Tag::Input(ReportFlags::new()).tag_type(), TagType::Main);
    assert_eq!(Tag::Push.tag_type(), TagType::Global);
    assert_eq!(Tag::ReportId(1).tag_type(), TagType::Global);
    assert_eq!(Tag::Delimiter(Delimiter::open()).tag_type(), TagType::Local);
}

#[test]
fn prefix_byte_fields() {
    let tag = BTag::try_from(0xAu8).unwrap();
    assert_eq!(tag.as_u8(), 0xA);
    assert!(BTag::try_from(0x10u8).is_err());
    let p = SizeTypeTag::from_size_type_tag(BSize::B2, BType::Local, tag);
    assert_eq!(p.as_u8(), 0xAA);
    assert_eq!(p.size(), BSize::B2);
    assert_eq!(p.b_type(), BType::Local);
    assert_eq!(p.b_tag(), 0xA);
    assert_eq!(SizeTypeTag::from_u8(0x07).size().size(), 4);
    assert_eq!(BSize::try_from_code(3), Ok(BSize::B4));
    assert!(BSize::try_from_code(4).is_err());
    assert_eq!(BType::from_code(3), Some(BType::Reserved));
    assert_eq!(BType::from_code(4), None);
    let prefix = ItemPrefix::from_u8(0x87);
    assert_eq!(prefix.with_size(BSize::B1).as_u8(), 0x85);
    assert_eq!(prefix.with_u16(0x1234).into_bytes(), vec![0x86, 0x34, 0x12]);
    assert_eq!(prefix.with_i32(-2).into_bytes(), vec![0x87, 0xFE, 0xFF, 0xFF, 0xFF]);
    assert_eq!(prefix.with_shrunk_u32(0).into_bytes(), vec![0x84]);
}

#[test]
fn report_constructors() {
    let r = Report::new(
        ReportMain::new(ReportType::Feature, ReportFlags::new()),
        UsageSet::empty(),
        -1,
        1,
        2,
        3,
    );
    assert!(r.is_feature() && !r.is_input() && !r.is_output());
    assert_eq!(r.report_type(), ReportType::Feature);
    let r = r.with_report_id(4);
    assert_eq!(r.report_id, Some(4));
    assert_eq!(r.without_report_id().report_id, None);
    assert!(ReportMain::new_output(ReportFlags::new()).report_type.is_output());
    assert!(ReportMain::new_input(ReportFlags::new()).report_type.is_input());
    assert!(ReportMain::new_feature(ReportFlags::new()).report_type.is_feature());
}

#[test]
fn conversions() {
    assert_eq!(u32::from(ExtendedUsage::new(0x10002)), 0x10002);
    let range = UsageRange::from(Usage::new(3, 4));
    assert_eq!(range.len(), 1);
    assert!(range.min == range.max);
    assert_eq!(u32::from(ReportFlags::new().as_variable()), 2);
    let d: DesignatorIndex = 9u32.into();
    assert_eq!(u32::from(d), 9);
    let s: StringIndex = 11u32.into();
    assert_eq!(u32::from(s), 11);
}

#[test]
fn usage_groups_have_page_and_id() {
    assert_eq!(
        TagGroup::usage(Usage::new(1, 2)).tag_list(),
        vec![Tag::UsagePage(1), Tag::UsageId(2)]
    );
    assert_eq!(
        TagGroup::usage(Usage::extended(0x10002)).tag_list(),
        vec![Tag::ExtendedUsage(ExtendedUsage::new(0x10002))]
    );
    assert_eq!(
        TagGroup::usage_range(UsageRange::new(Usage::new(9, 1), Usage::new(9, 2))).tag_list(),
        vec![Tag::UsagePage(9), Tag::UsageMinimumId(1), Tag::UsagePage(9), Tag::UsageMaximumId(2)]
    );
    assert_eq!(
        TagGroup::usage_range(UsageRange::new(Usage::extended(5), Usage::extended(6))).tag_list(),
        vec![
            Tag::ExtendedUsageMinimum(ExtendedUsage::new(5)),
            Tag::ExtendedUsageMaximum(ExtendedUsage::new(6))
        ]
    );
    assert_eq!(
        TagGroup::report_main(ReportMain::new_output(ReportFlags::new())),
        TagGroup::Tag(Tag::Output(ReportFlags::new()))
    );
}

#[test]
fn collection_items_and_options() {
    let report = Report::new_input(ReportFlags::new(), UsageSet::empty(), 0, 1, 1, 1);
    let items = CollectionItems::from(vec![CollectionItem::from(report.clone())]).as_boxed();
    let mut c = Collection::new(CollectionType::Report, Usage::new(1, 1), items);
    assert_eq!(c.items().len(), 1);
    assert!(c.items()[0] == CollectionItem::Report(report));
    c.designator_index = Some(1u32.into());
    c.delimiter = Some(Delimiter::open());
    let tags = TagGroup::collection(c).tag_list();
    assert_eq!(tags[2], Tag::DesignatorIndex(1u32.into()));
    assert_eq!(tags[3], Tag::Delimiter(Delimiter::open()));
    assert_eq!(tags[4], Tag::Collection(CollectionType::Report));
    let inner = Collection::empty(CollectionType::NamedArray, Usage::new(1, 2));
    let tags = TagGroup::collection_item(CollectionItem::from(inner)).tag_list();
    assert_eq!(tags.len(), 4);
    let tags = TagGroup::collection_items(vec![]).tag_list();
    assert!(tags.is_empty());
}
