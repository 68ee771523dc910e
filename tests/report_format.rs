use hid_descriptor::collection::{Collection, CollectionItem};
use hid_descriptor::error::MissingIdError;
use hid_descriptor::field_types::{CollectionType, ReportFlags};
use hid_descriptor::format::{
    DataOutOfBoundsError, ItemType, ReportFormat, ReportItem, ReportVariable, TooLargeError,
};
use hid_descriptor::iter::{ReportIter, ToReportIterator};
use hid_descriptor::report::Report;
use hid_descriptor::usage::{Usage, UsageSet};
use hid_descriptor::usage_tables::{button, generic_desktop};

fn input(flags: ReportFlags, size: u32, count: u32) -> Report {
    Report::new_input(flags, UsageSet::empty(), 0, 1, size, count)
}

fn mouse() -> Collection {
    let buttons = Report::new_input(
        ReportFlags::new().as_variable(),
        UsageSet::empty().with_usage_bounds(button::new(1), button::new(3)),
        0,
        1,
        1,
        3,
    );
    let padding = input(ReportFlags::new().as_constant(), 5, 1);
    let axes = Report::new_input(
        ReportFlags::new().as_variable().as_relative(),
        UsageSet::empty()
            .with_usage(Usage::new(generic_desktop::PAGE, generic_desktop::X))
            .with_usage(Usage::new(generic_desktop::PAGE, generic_desktop::Y)),
        -127,
        127,
        8,
        2,
    );
    Collection::new(
        CollectionType::Application,
        Usage::new(generic_desktop::PAGE, generic_desktop::MOUSE),
        vec![CollectionItem::Collection(Collection::new(
            CollectionType::Physical,
            Usage::new(generic_desktop::PAGE, generic_desktop::POINTER),
            vec![
                CollectionItem::Report(buttons),
                CollectionItem::Report(padding),
                CollectionItem::Report(axes),
            ],
        ))],
    )
}

#[test]
fn mouse_input_report_format() {
    let c = mouse();
    let mut format = (&c).input_report_format(None).unwrap();
    assert_eq!(format.count(), 5);
    assert_eq!(format.report_id(), None);
    let offsets: Vec<u32> = format.iter().iter().map(|v| v.bit_offset()).collect();
    assert_eq!(offsets, vec![0, 1, 2, 8, 16]);
    format.get_mut(0).set_unsigned(1).unwrap();
    format.get_mut(2).set_unsigned(1).unwrap();
    format.get_mut(3).set_signed(-1).unwrap();
    format.get_mut(4).set_signed(5).unwrap();
    assert_eq!(format.into_bytes(), vec![0x05, 0xFF, 0x05]);
}

#[test]
fn mouse_has_no_output_or_feature_fields() {
    let c = mouse();
    let output = (&c).output_report_format(None).unwrap();
    assert_eq!(output.count(), 0);
    assert_eq!(output.into_bytes(), Vec::<u8>::new());
    let feature = (&c).feature_report_format(Some(1)).unwrap();
    assert_eq!(feature.into_bytes(), vec![1]);
}

#[test]
fn report_iteration_is_depth_first() {
    let c = mouse();
    let mut it = ReportIter::over(&c);
    let mut sizes = Vec::new();
    while let Some(r) = it.next() {
        sizes.push(r.report_size);
    }
    assert_eq!(sizes, vec![1, 5, 8]);
}

#[test]
fn reports_of_several_collections() {
    let a = Collection::new(
        CollectionType::Application,
        Usage::new(1, 2),
        vec![CollectionItem::Report(input(ReportFlags::new(), 4, 1).with_report_id(2))],
    );
    let b = Collection::new(
        CollectionType::Application,
        Usage::new(1, 6),
        vec![
            CollectionItem::Report(input(ReportFlags::new(), 8, 1).with_report_id(1)),
            CollectionItem::Report(input(ReportFlags::new(), 8, 1).with_report_id(2)),
        ],
    );
    let all = vec![a, b];
    let ids = all.as_slice().input_ids().unwrap();
    assert_eq!(ids, vec![2, 1]);
    let format = all.as_slice().input_report_format(Some(2)).unwrap();
    assert_eq!(format.count(), 2);
    assert_eq!(format.into_bytes(), vec![2, 0, 0]);
    let mut it = all.as_slice().to_report_iter();
    let mut n = 0;
    while let Some(_) = it.next() {
        n += 1;
    }
    assert_eq!(n, 3);
}

#[test]
fn input_ids_without_ids_is_empty() {
    let c = Collection::new(
        CollectionType::Application,
        Usage::new(1, 2),
        vec![
            CollectionItem::Report(input(ReportFlags::new(), 8, 1)),
            CollectionItem::Report(input(ReportFlags::new(), 8, 1)),
        ],
    );
    assert_eq!((&c).input_ids(), Ok(vec![]));
}

#[test]
fn input_ids_with_one_missing_id_fails() {
    let c = Collection::new(
        CollectionType::Application,
        Usage::new(1, 2),
        vec![
            CollectionItem::Report(input(ReportFlags::new(), 8, 1).with_report_id(1)),
            CollectionItem::Report(input(ReportFlags::new(), 8, 1)),
        ],
    );
    assert_eq!((&c).input_ids(), Err(MissingIdError {}));
}

#[test]
fn input_ids_are_distinct_in_first_seen_order() {
    let c = Collection::new(
        CollectionType::Application,
        Usage::new(1, 2),
        vec![
            CollectionItem::Report(input(ReportFlags::new(), 8, 1).with_report_id(3)),
            CollectionItem::Report(
                Report::new_output(ReportFlags::new(), UsageSet::empty(), 0, 1, 8, 1),
            ),
            CollectionItem::Report(input(ReportFlags::new(), 8, 1).with_report_id(1)),
            CollectionItem::Report(input(ReportFlags::new(), 8, 1).with_report_id(3)),
        ],
    );
    assert_eq!((&c).input_ids(), Ok(vec![3, 1]));
    let empty = Collection::empty(CollectionType::Application, Usage::new(1, 2));
    assert_eq!((&empty).input_ids(), Ok(vec![]));
}

#[test]
fn adjacent_fields_share_a_byte() {
    let mut format = ReportFormat::new();
    format.push_empty(4).unwrap();
    format.push_empty(4).unwrap();
    format.get_mut(0).set_unsigned(0xA).unwrap();
    format.get_mut(1).set_unsigned(0x5).unwrap();
    assert_eq!(format.into_bytes(), vec![0x5A]);
}

#[test]
fn report_id_comes_first() {
    let mut format = ReportFormat::new_with_id(7);
    format.push_constant(3);
    format.push_empty(10).unwrap();
    format.get_mut(0).set_unsigned(0x3FF).unwrap();
    assert_eq!(format.into_bytes(), vec![7, 0xF8, 0x1F]);
    let format = ReportFormat::new().with_report_id(9).without_report_id();
    assert_eq!(format.report_id(), None);
    assert_eq!(ReportFormat::new_with_opt_id(Some(4)).report_id(), Some(4));
}

#[test]
fn clear_keeps_layout() {
    let mut format = ReportFormat::new();
    format.push_empty(8).unwrap();
    format.get_mut(0).set_unsigned(0xAB).unwrap();
    format.clear();
    assert_eq!(format.count(), 1);
    assert_eq!(format.iter()[0].data(), 0);
    assert_eq!(format.into_bytes(), vec![0]);
}

#[test]
fn field_wider_than_four_bytes_is_refused() {
    assert!(ReportVariable::new(0, 32).is_ok());
    assert!(ReportVariable::new(7, 25).is_ok());
    assert_eq!(ReportVariable::new(7, 26).err(), Some(TooLargeError {}));
    assert_eq!(ReportVariable::new(0, 33).err(), Some(TooLargeError {}));
    let mut format = ReportFormat::new();
    format.push_constant(4);
    assert_eq!(format.push_empty(29), Err(TooLargeError {}));
    assert_eq!(format.count(), 0);
    assert_eq!(format.push_empty(28), Ok(()));
}

#[test]
fn copy_from_items() {
    let items = vec![
        ReportItem::new(ItemType::Variable, 3),
        ReportItem::new(ItemType::Constant, 5),
        ReportItem::new(ItemType::Variable, 16),
    ];
    let format = ReportFormat::new().copy_from_iter(items).unwrap();
    assert_eq!(format.count(), 2);
    assert_eq!(format.iter()[1].bit_offset(), 8);
    assert_eq!(format.iter()[1].bit_size(), 16);
    let too_large = vec![ReportItem::new(ItemType::Constant, 7), ReportItem::new(ItemType::Variable, 26)];
    assert!(ReportFormat::new().copy_from_iter(too_large).is_err());
    let constant = ReportItem::from_report(&input(ReportFlags::new().as_constant(), 5, 1));
    assert_eq!(constant, ReportItem::new(ItemType::Constant, 5));
}

#[test]
fn set_unsigned_checks_width_and_shifts() {
    let mut v = ReportVariable::new(11, 5).unwrap();
    assert_eq!(v.set_unsigned(31), Ok(()));
    assert_eq!(v.data(), 31 << 3);
    assert_eq!(v.set_unsigned(32), Err(DataOutOfBoundsError {}));
    assert_eq!(v.data(), 31 << 3);
    v.clear();
    assert_eq!(v.data(), 0);
    let mut w = ReportVariable::new(0, 32).unwrap();
    assert_eq!(w.set_unsigned(u32::MAX), Ok(()));
    assert_eq!(w.data(), u32::MAX);
}

fn read_back_signed(data: u32, shift: u32, size: u32) -> i32 {
    let raw = (data as u64 >> shift) & ((1u64 << size) - 1);
    if raw >= 1u64 << (size - 1) {
        (raw as i64 - (1i64 << size)) as i32
    } else {
        raw as i32
    }
}

#[test]
fn set_signed_round_trips() {
    for size in 1..=24u32 {
        let mut v = ReportVariable::new(5, size).unwrap();
        let low = -(1i64 << (size - 1));
        let high = (1i64 << (size - 1)) - 1;
        for x in [low, low + 1, -1, 0, 1, high - 1, high] {
            if x < low || x > high {
                continue;
            }
            assert_eq!(v.set_signed(x as i32), Ok(()));
            assert_eq!(read_back_signed(v.data(), 5, size), x as i32);
        }
    }
    let mut v = ReportVariable::new(0, 32).unwrap();
    for x in [i32::MIN, -1, 0, i32::MAX] {
        assert_eq!(v.set_signed(x), Ok(()));
        assert_eq!(v.data() as i32, x);
    }
}

#[test]
fn set_signed_refuses_values_one_bit_too_wide() {
    let mut v = ReportVariable::new(0, 4).unwrap();
    assert_eq!(v.set_signed(-8), Ok(()));
    assert_eq!(v.data(), 0x8);
    assert_eq!(v.set_signed(-9), Err(DataOutOfBoundsError {}));
    assert_eq!(v.set_signed(-16), Err(DataOutOfBoundsError {}));
    assert_eq!(v.set_signed(16), Err(DataOutOfBoundsError {}));
    assert_eq!(v.set_signed(31), Err(DataOutOfBoundsError {}));
    assert_eq!(v.set_signed(8), Err(DataOutOfBoundsError {}));
    assert_eq!(v.set_signed(15), Err(DataOutOfBoundsError {}));
    assert_eq!(v.data(), 0x8);
    assert_eq!(v.set_signed(7), Ok(()));
    assert_eq!(v.data(), 0x7);
}

#[test]
fn copy_data_realigns_bits() {
    let mut v = ReportVariable::new(2, 5).unwrap();
    v.copy_data_from_slice(&[0b1011_0110, 0xFF], 3);
    assert_eq!(v.data(), 0b10110 << 2);
    let mut w = ReportVariable::new(8, 12).unwrap();
    w.copy_data_from_slice(&[0x00, 0xF0, 0xAB], 12);
    assert_eq!(w.data(), 0xABF);
    let mut past_end = ReportVariable::new(0, 8).unwrap();
    past_end.copy_data_from_slice(&[0xFF], 4);
    assert_eq!(past_end.data(), 0x0F);
    let mut unaligned = ReportVariable::new(6, 4).unwrap();
    unaligned.copy_data_from_slice(&[0x0C], 1);
    assert_eq!(unaligned.data(), 0b0110 << 6);
}
