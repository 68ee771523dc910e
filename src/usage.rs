//! Usages, usage ranges and usage sets.
use vstd::prelude::*;

verus! {

pub type UsagePage = u16;

pub type UsageId = u16;

/// A usage page and usage ID held as one 32-bit value.
/// An extended usage is never split into separate Usage Page and Usage ID tags.
#[derive(Copy, Clone, Debug, PartialEq, Eq, Structural, PartialOrd, Ord)]
pub struct ExtendedUsage(pub u32);

impl ExtendedUsage {
    pub fn new(id: u32) -> (r: Self)
        ensures
            r.0 == id,
    {
        ExtendedUsage(id)
    }

    pub fn as_u32(self) -> (r: u32)
        ensures
            r == self.0,
    {
        self.0
    }

    /// The upper 16 bits.
    pub fn page(self) -> (r: u16)
        ensures
            r == self.0 / 0x10000,
    {
        let v = self.0;
        assert(((v >> 16u32) & 0xFFFF) == v / 0x10000) by (bit_vector);
        ((v >> 16u32) & 0xFFFF) as u16
    }

    /// The lower 16 bits.
    pub fn id(self) -> (r: u16)
        ensures
            r == self.0 % 0x10000,
    {
        let v = self.0;
        assert((v & 0xFFFF) == v % 0x10000) by (bit_vector);
        (v & 0xFFFF) as u16
    }
}

impl From<ExtendedUsage> for u32 {
    fn from(v: ExtendedUsage) -> (r: u32) {
        v.as_u32()
    }
}

impl vstd::std_specs::convert::FromSpecImpl<ExtendedUsage> for u32 {
    open spec fn obeys_from_spec() -> bool {
        true
    }

    open spec fn from_spec(v: ExtendedUsage) -> u32 {
        v.0
    }
}

/// A usage, also used for the bounds of a usage range.
#[derive(Copy, Clone, Debug)]
pub enum Usage {
    Standard(UsagePage, UsageId),
    Extended(ExtendedUsage),
}

/// The page in the upper and the ID in the lower 16 bits.
pub open spec fn combine(page: u16, id: u16) -> u32 {
    (page as int * 0x10000 + id as int) as u32
}

impl Usage {
    /// The combined 32-bit value of a usage, whatever its form.
    pub open spec fn value(self) -> u32 {
        match self {
            Usage::Standard(page, id) => combine(page, id),
            Usage::Extended(e) => e.0,
        }
    }

    pub open spec fn is_standard(self) -> bool {
        self is Standard
    }

    /// Construct a Usage from a page and an ID.
    pub fn new(page: UsagePage, id: UsageId) -> (r: Self)
        ensures
            r == Usage::Standard(page, id),
    {
        Usage::Standard(page, id)
    }

    /// Construct an extended Usage from a 32-bit value.
    pub fn extended(id: u32) -> (r: Self)
        ensures
            r == Usage::Extended(ExtendedUsage(id)),
    {
        Usage::Extended(ExtendedUsage::new(id))
    }

    /// Construct a Usage from an ExtendedUsage.
    pub fn from_extended(usage: ExtendedUsage) -> (r: Self)
        ensures
            r == Usage::Extended(usage),
    {
        Usage::Extended(usage)
    }

    /// The page of this Usage.
    pub fn page(&self) -> (r: UsagePage)
        ensures
            r == self.value() / 0x10000,
    {
        match self {
            Usage::Standard(page, id) => {
                let (p, i) = (*page, *id);
                assert(combine(p, i) / 0x10000 == p) by {
                    assert(0 <= i < 0x10000);
                    assert((p as int * 0x10000 + i as int) / 0x10000 == p) by (nonlinear_arith)
                        requires 0 <= i < 0x10000;
                }
                p
            },
            Usage::Extended(usage) => usage.page(),
        }
    }

    /// The ID of this Usage.
    pub fn id(&self) -> (r: UsageId)
        ensures
            r == self.value() % 0x10000,
    {
        match self {
            Usage::Standard(page, id) => {
                let (p, i) = (*page, *id);
                assert(combine(p, i) % 0x10000 == i) by {
                    assert((p as int * 0x10000 + i as int) % 0x10000 == i) by (nonlinear_arith)
                        requires 0 <= i < 0x10000;
                }
                i
            },
            Usage::Extended(usage) => usage.id(),
        }
    }

    /// The combined 32-bit value, page in the upper and ID in the lower bits.
    pub fn as_u32(self) -> (r: u32)
        ensures
            r == self.value(),
    {
        match self {
            Usage::Standard(page, id) => {
                let p = page as u32;
                let i = id as u32;
                assert(p < 0x10000 && i < 0x10000 ==> ((p << 16u32) | i) == p * 0x10000 + i)
                    by (bit_vector);
                (p << 16u32) | i
            },
            Usage::Extended(usage) => usage.as_u32(),
        }
    }
}

impl PartialEq for Usage {
    fn eq(&self, other: &Usage) -> (r: bool) {
        self.as_u32() == other.as_u32()
    }
}

impl vstd::std_specs::cmp::PartialEqSpecImpl for Usage {
    open spec fn obeys_eq_spec() -> bool {
        true
    }

    open spec fn eq_spec(&self, other: &Usage) -> bool {
        self.value() == other.value()
    }
}

impl Eq for Usage {}

impl PartialOrd for Usage {
    fn partial_cmp(&self, other: &Usage) -> (r: Option<core::cmp::Ordering>) {
        let a = self.as_u32();
        let b = other.as_u32();
        if a < b {
            Some(core::cmp::Ordering::Less)
        } else if a == b {
            Some(core::cmp::Ordering::Equal)
        } else {
            Some(core::cmp::Ordering::Greater)
        }
    }
}

impl vstd::std_specs::cmp::PartialOrdSpecImpl for Usage {
    open spec fn obeys_partial_cmp_spec() -> bool {
        true
    }

    open spec fn partial_cmp_spec(&self, other: &Usage) -> Option<core::cmp::Ordering> {
        if self.value() < other.value() {
            Some(core::cmp::Ordering::Less)
        } else if self.value() == other.value() {
            Some(core::cmp::Ordering::Equal)
        } else {
            Some(core::cmp::Ordering::Greater)
        }
    }
}

/// A contiguous range of usages.
#[derive(Copy, Clone, Debug)]
pub struct UsageRange {
    pub min: Usage,
    pub max: Usage,
}

/// The bounds of a range are ordered, of one form, and standard bounds share a page.
pub open spec fn range_bounds_valid(min: Usage, max: Usage) -> bool {
    &&& min.value() <= max.value()
    &&& min.is_standard() == max.is_standard()
    &&& (min is Standard ==> min->Standard_0 == max->Standard_0)
}

impl UsageRange {
    /// The number of usages, computed modulo 2^32 over the combined values.
    pub open spec fn spec_len(self) -> u32 {
        ((self.max.value() as int - self.min.value() as int + 1) % 0x1_0000_0000) as u32
    }

    /// Construct a range between two usages.
    pub fn new(min: Usage, max: Usage) -> (r: Self)
        requires
            range_bounds_valid(min, max),
        ensures
            r.min == min,
            r.max == max,
    {
        UsageRange { min, max }
    }

    /// Construct a range of a single usage.
    pub fn single(usage: Usage) -> (r: Self)
        ensures
            r.min == usage,
            r.max == usage,
    {
        UsageRange { min: usage, max: usage }
    }

    /// The number of usages in this range.
    pub fn len(&self) -> (r: u32)
        ensures
            r == self.spec_len(),
    {
        self.max.as_u32().wrapping_sub(self.min.as_u32()).wrapping_add(1)
    }
}

impl PartialEq for UsageRange {
    fn eq(&self, other: &UsageRange) -> (r: bool) {
        self.min == other.min && self.max == other.max
    }
}

impl vstd::std_specs::cmp::PartialEqSpecImpl for UsageRange {
    open spec fn obeys_eq_spec() -> bool {
        true
    }

    open spec fn eq_spec(&self, other: &UsageRange) -> bool {
        self.min.value() == other.min.value() && self.max.value() == other.max.value()
    }
}

impl Eq for UsageRange {}

impl From<Usage> for UsageRange {
    fn from(v: Usage) -> (r: UsageRange) {
        UsageRange::single(v)
    }
}

impl vstd::std_specs::convert::FromSpecImpl<Usage> for UsageRange {
    open spec fn obeys_from_spec() -> bool {
        true
    }

    open spec fn from_spec(v: Usage) -> UsageRange {
        UsageRange { min: v, max: v }
    }
}

/// The usages of a report, as ranges in insertion order.
#[derive(Clone, Debug, PartialEq, Eq)]
pub struct UsageSet(Vec<UsageRange>);

impl View for UsageSet {
    type V = Seq<UsageRange>;

    closed spec fn view(&self) -> Seq<UsageRange> {
        self.0@
    }
}

impl UsageSet {
    pub fn empty() -> (r: Self)
        ensures
            r@ == Seq::<UsageRange>::empty(),
    {
        UsageSet(Vec::new())
    }

    /// The ranges of this set, in order.
    pub fn into_boxed_slice(self) -> (r: Vec<UsageRange>)
        ensures
            r@ == self@,
    {
        self.0
    }

    /// The ranges of this set, in order.
    pub fn ranges(&self) -> (r: &[UsageRange])
        ensures
            r@ == self@,
    {
        self.0.as_slice()
    }

    /// Add a single Usage.
    pub fn push_usage(&mut self, usage: Usage)
        ensures
            final(self)@ == old(self)@.push(UsageRange { min: usage, max: usage }),
    {
        self.0.push(UsageRange::single(usage))
    }

    /// Add a single Usage, returning the set.
    pub fn with_usage(self, usage: Usage) -> (r: Self)
        ensures
            r@ == self@.push(UsageRange { min: usage, max: usage }),
    {
        let mut s = self;
        s.push_usage(usage);
        s
    }

    /// Add a range of usages.
    pub fn push_usage_range(&mut self, usage_range: UsageRange)
        ensures
            final(self)@ == old(self)@.push(usage_range),
    {
        self.0.push(usage_range)
    }

    /// Add a range of usages, returning the set.
    pub fn with_usage_range(self, usage_range: UsageRange) -> (r: Self)
        ensures
            r@ == self@.push(usage_range),
    {
        let mut s = self;
        s.push_usage_range(usage_range);
        s
    }

    /// Add the range between two usages.
    pub fn push_usage_bounds(&mut self, min: Usage, max: Usage)
        requires
            range_bounds_valid(min, max),
        ensures
            final(self)@ == old(self)@.push(UsageRange { min, max }),
    {
        self.0.push(UsageRange::new(min, max))
    }

    /// Add the range between two usages, returning the set.
    pub fn with_usage_bounds(self, min: Usage, max: Usage) -> (r: Self)
        requires
            range_bounds_valid(min, max),
        ensures
            r@ == self@.push(UsageRange { min, max }),
    {
        let mut s = self;
        s.push_usage_bounds(min, max);
        s
    }
}

} // verus!
