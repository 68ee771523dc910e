//! Reports: a Main item with its global and local modifiers.
use vstd::prelude::*;
use crate::field_types::{
    Delimiter, DesignatorIndex, LogicalValue, PhysicalValue, ReportCount, ReportFlags, ReportId,
    ReportSize, StringIndex, Unit, UnitExponent,
};
use crate::usage::UsageSet;

verus! {

/// Whether a report travels from device to host, from host to device, or both ways as
/// configuration.
#[derive(Copy, Clone, Debug, PartialEq, Eq, Structural)]
pub enum ReportType {
    Input,
    Output,
    Feature,
}

impl ReportType {
    pub fn is_input(self) -> (r: bool)
        ensures
            r == (self is Input),
    {
        match self {
            ReportType::Input => true,
            _ => false,
        }
    }

    pub fn is_output(self) -> (r: bool)
        ensures
            r == (self is Output),
    {
        match self {
            ReportType::Output => true,
            _ => false,
        }
    }

    pub fn is_feature(self) -> (r: bool)
        ensures
            r == (self is Feature),
    {
        match self {
            ReportType::Feature => true,
            _ => false,
        }
    }
}

/// The Main item of a report: its type and flags.
#[derive(Copy, Clone, Debug, PartialEq, Eq, Structural)]
pub struct ReportMain {
    pub report_type: ReportType,
    pub report_flags: ReportFlags,
}

impl ReportMain {
    pub fn new(report_type: ReportType, report_flags: ReportFlags) -> (r: Self)
        ensures
            r.report_type == report_type,
            r.report_flags == report_flags,
    {
        ReportMain { report_type, report_flags }
    }

    pub fn new_input(report_flags: ReportFlags) -> (r: Self)
        ensures
            r.report_type == ReportType::Input,
            r.report_flags == report_flags,
    {
        ReportMain::new(ReportType::Input, report_flags)
    }

    pub fn new_output(report_flags: ReportFlags) -> (r: Self)
        ensures
            r.report_type == ReportType::Output,
            r.report_flags == report_flags,
    {
        ReportMain::new(ReportType::Output, report_flags)
    }

    pub fn new_feature(report_flags: ReportFlags) -> (r: Self)
        ensures
            r.report_type == ReportType::Feature,
            r.report_flags == report_flags,
    {
        ReportMain::new(ReportType::Feature, report_flags)
    }
}

/// One Main item with its global and local modifiers.
#[derive(Clone, Debug, PartialEq, Eq)]
pub struct Report {
    /// The Main item: input, output or feature, with its flags.
    pub main: ReportMain,
    /// The usages of the fields.
    pub usage_set: UsageSet,
    pub logical_minimum: LogicalValue,
    pub logical_maximum: LogicalValue,
    /// The size of one field, in bits.
    pub report_size: ReportSize,
    /// The number of fields.
    pub report_count: ReportCount,
    pub physical_minimum: Option<PhysicalValue>,
    pub physical_maximum: Option<PhysicalValue>,
    pub unit_exponent: Option<UnitExponent>,
    pub unit: Option<Unit>,
    pub report_id: Option<ReportId>,
    pub designator_index: Option<DesignatorIndex>,
    pub designator_minimum: Option<DesignatorIndex>,
    pub designator_maximum: Option<DesignatorIndex>,
    pub string_index: Option<StringIndex>,
    pub string_minimum: Option<StringIndex>,
    pub string_maximum: Option<StringIndex>,
    pub delimiter: Option<Delimiter>,
}

impl Report {
    /// A report with the required items and none of the optional ones.
    pub open spec fn plain(
        main: ReportMain,
        usage_set: UsageSet,
        logical_minimum: LogicalValue,
        logical_maximum: LogicalValue,
        report_size: ReportSize,
        report_count: ReportCount,
    ) -> Report {
        Report {
            main,
            usage_set,
            logical_minimum,
            logical_maximum,
            report_size,
            report_count,
            physical_minimum: None,
            physical_maximum: None,
            unit_exponent: None,
            unit: None,
            report_id: None,
            designator_index: None,
            designator_minimum: None,
            designator_maximum: None,
            string_index: None,
            string_minimum: None,
            string_maximum: None,
            delimiter: None,
        }
    }

    /// Create a report with no optional values.
    pub fn new(
        main: ReportMain,
        usage_set: UsageSet,
        logical_minimum: LogicalValue,
        logical_maximum: LogicalValue,
        report_size: ReportSize,
        report_count: ReportCount,
    ) -> (r: Self)
        ensures
            r == Report::plain(
                main,
                usage_set,
                logical_minimum,
                logical_maximum,
                report_size,
                report_count,
            ),
    {
        Report {
            main,
            usage_set,
            logical_minimum,
            logical_maximum,
            report_size,
            report_count,
            physical_minimum: None,
            physical_maximum: None,
            unit_exponent: None,
            unit: None,
            report_id: None,
            designator_index: None,
            designator_minimum: None,
            designator_maximum: None,
            string_index: None,
            string_minimum: None,
            string_maximum: None,
            delimiter: None,
        }
    }

    /// Create an input report with no optional values.
    pub fn new_input(
        report_flags: ReportFlags,
        usage_set: UsageSet,
        logical_minimum: LogicalValue,
        logical_maximum: LogicalValue,
        report_size: ReportSize,
        report_count: ReportCount,
    ) -> (r: Self)
        ensures
            r == Report::plain(
                ReportMain { report_type: ReportType::Input, report_flags },
                usage_set,
                logical_minimum,
                logical_maximum,
                report_size,
                report_count,
            ),
    {
        Report::new(
            ReportMain::new_input(report_flags),
            usage_set,
            logical_minimum,
            logical_maximum,
            report_size,
            report_count,
        )
    }

    /// Create an output report with no optional values.
    pub fn new_output(
        report_flags: ReportFlags,
        usage_set: UsageSet,
        logical_minimum: LogicalValue,
        logical_maximum: LogicalValue,
        report_size: ReportSize,
        report_count: ReportCount,
    ) -> (r: Self)
        ensures
            r == Report::plain(
                ReportMain { report_type: ReportType::Output, report_flags },
                usage_set,
                logical_minimum,
                logical_maximum,
                report_size,
                report_count,
            ),
    {
        Report::new(
            ReportMain::new_output(report_flags),
            usage_set,
            logical_minimum,
            logical_maximum,
            report_size,
            report_count,
        )
    }

    /// Create a feature report with no optional values.
    pub fn new_feature(
        report_flags: ReportFlags,
        usage_set: UsageSet,
        logical_minimum: LogicalValue,
        logical_maximum: LogicalValue,
        report_size: ReportSize,
        report_count: ReportCount,
    ) -> (r: Self)
        ensures
            r == Report::plain(
                ReportMain { report_type: ReportType::Feature, report_flags },
                usage_set,
                logical_minimum,
                logical_maximum,
                report_size,
                report_count,
            ),
    {
        Report::new(
            ReportMain::new_feature(report_flags),
            usage_set,
            logical_minimum,
            logical_maximum,
            report_size,
            report_count,
        )
    }

    pub fn report_type(&self) -> (r: ReportType)
        ensures
            r == self.main.report_type,
    {
        self.main.report_type
    }

    pub fn is_input(&self) -> (r: bool)
        ensures
            r == (self.main.report_type is Input),
    {
        self.report_type().is_input()
    }

    pub fn is_output(&self) -> (r: bool)
        ensures
            r == (self.main.report_type is Output),
    {
        self.report_type().is_output()
    }

    pub fn is_feature(&self) -> (r: bool)
        ensures
            r == (self.main.report_type is Feature),
    {
        self.report_type().is_feature()
    }

    /// This report without an ID.
    pub fn without_report_id(self) -> (r: Self)
        ensures
            r == (Report { report_id: None, ..self }),
    {
        let mut s = self;
        s.report_id = None;
        s
    }

    /// This report with the given ID.
    pub fn with_report_id(self, report_id: ReportId) -> (r: Self)
        ensures
            r == (Report { report_id: Some(report_id), ..self }),
    {
        let mut s = self;
        s.report_id = Some(report_id);
        s
    }
}

} // verus!
