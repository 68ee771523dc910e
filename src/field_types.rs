//! The values that descriptor items carry.
use vstd::prelude::*;
use crate::error::TryFromIntError;

verus! {

/// Whether bit `position` of `value` is set.
pub open spec fn flag_bit(value: u32, position: u32) -> bool {
    (value >> position) & 1 == 1
}

fn bit_at(value: u32, position: u32) -> (r: bool)
    requires
        position < 32,
    ensures
        r == flag_bit(value, position),
{
    (value >> position) & 1 == 1
}

fn set_bit_at(value: u32, position: u32) -> (r: u32)
    requires
        position < 32,
    ensures
        r == value | (1u32 << position),
{
    value | (1u32 << position)
}

fn unset_bit_at(value: u32, position: u32) -> (r: u32)
    requires
        position < 32,
    ensures
        r == value & !(1u32 << position),
{
    value & !(1u32 << position)
}

/// A value from -128 to 127 as its two's-complement byte.
pub open spec fn signed_byte(v: int) -> u8 {
    (if v >= 0 {
        v
    } else {
        v + 256
    }) as u8
}

/// The flags of a Main item, one bit each, in the layout of the HID Main item data.
#[derive(Copy, Clone, Debug, PartialEq, Eq, Structural)]
pub struct ReportFlags(u32);

impl ReportFlags {
    /// The packed flag word.
    pub closed spec fn bits(self) -> u32 {
        self.0
    }

    /// Flags with every bit clear.
    pub fn new() -> (r: Self)
        ensures
            r.bits() == 0,
    {
        ReportFlags(0)
    }

    /// The packed flag word.
    pub fn as_u32(self) -> (r: u32)
        ensures
            r == self.bits(),
    {
        self.0
    }

    /// Whether the field is constant (bit 0 set).
    pub fn is_constant(&self) -> (r: bool)
        ensures
            r == flag_bit(self.bits(), 0),
    {
        bit_at(self.0, 0)
    }

    /// Whether the field is data (bit 0 clear).
    pub fn is_data(&self) -> (r: bool)
        ensures
            r == !flag_bit(self.bits(), 0),
    {
        !bit_at(self.0, 0)
    }

    /// These flags, marked constant (bit 0 set).
    pub fn as_constant(self) -> (r: Self)
        ensures
            r.bits() == self.bits() | (1u32 << 0u32),
    {
        ReportFlags(set_bit_at(self.0, 0))
    }

    /// These flags, marked data (bit 0 cleared).
    pub fn as_data(self) -> (r: Self)
        ensures
            r.bits() == self.bits() & !(1u32 << 0u32),
    {
        ReportFlags(unset_bit_at(self.0, 0))
    }

    /// Whether the field is variable (bit 1 set).
    pub fn is_variable(&self) -> (r: bool)
        ensures
            r == flag_bit(self.bits(), 1),
    {
        bit_at(self.0, 1)
    }

    /// Whether the field is array (bit 1 clear).
    pub fn is_array(&self) -> (r: bool)
        ensures
            r == !flag_bit(self.bits(), 1),
    {
        !bit_at(self.0, 1)
    }

    /// These flags, marked variable (bit 1 set).
    pub fn as_variable(self) -> (r: Self)
        ensures
            r.bits() == self.bits() | (1u32 << 1u32),
    {
        ReportFlags(set_bit_at(self.0, 1))
    }

    /// These flags, marked array (bit 1 cleared).
    pub fn as_array(self) -> (r: Self)
        ensures
            r.bits() == self.bits() & !(1u32 << 1u32),
    {
        ReportFlags(unset_bit_at(self.0, 1))
    }

    /// Whether the field is relative (bit 2 set).
    pub fn is_relative(&self) -> (r: bool)
        ensures
            r == flag_bit(self.bits(), 2),
    {
        bit_at(self.0, 2)
    }

    /// Whether the field is absolute (bit 2 clear).
    pub fn is_absolute(&self) -> (r: bool)
        ensures
            r == !flag_bit(self.bits(), 2),
    {
        !bit_at(self.0, 2)
    }

    /// These flags, marked relative (bit 2 set).
    pub fn as_relative(self) -> (r: Self)
        ensures
            r.bits() == self.bits() | (1u32 << 2u32),
    {
        ReportFlags(set_bit_at(self.0, 2))
    }

    /// These flags, marked absolute (bit 2 cleared).
    pub fn as_absolute(self) -> (r: Self)
        ensures
            r.bits() == self.bits() & !(1u32 << 2u32),
    {
        ReportFlags(unset_bit_at(self.0, 2))
    }

    /// Whether the field is wrapping (bit 3 set).
    pub fn can_wrap(&self) -> (r: bool)
        ensures
            r == flag_bit(self.bits(), 3),
    {
        bit_at(self.0, 3)
    }

    /// Whether the field is non-wrapping (bit 3 clear).
    pub fn cannot_wrap(&self) -> (r: bool)
        ensures
            r == !flag_bit(self.bits(), 3),
    {
        !bit_at(self.0, 3)
    }

    /// These flags, marked wrapping (bit 3 set).
    pub fn with_wrap(self) -> (r: Self)
        ensures
            r.bits() == self.bits() | (1u32 << 3u32),
    {
        ReportFlags(set_bit_at(self.0, 3))
    }

    /// These flags, marked non-wrapping (bit 3 cleared).
    pub fn without_wrap(self) -> (r: Self)
        ensures
            r.bits() == self.bits() & !(1u32 << 3u32),
    {
        ReportFlags(unset_bit_at(self.0, 3))
    }

    /// Whether the field is non-linear (bit 4 set).
    pub fn is_nonlinear(&self) -> (r: bool)
        ensures
            r == flag_bit(self.bits(), 4),
    {
        bit_at(self.0, 4)
    }

    /// Whether the field is linear (bit 4 clear).
    pub fn is_linear(&self) -> (r: bool)
        ensures
            r == !flag_bit(self.bits(), 4),
    {
        !bit_at(self.0, 4)
    }

    /// These flags, marked non-linear (bit 4 set).
    pub fn as_nonlinear(self) -> (r: Self)
        ensures
            r.bits() == self.bits() | (1u32 << 4u32),
    {
        ReportFlags(set_bit_at(self.0, 4))
    }

    /// These flags, marked linear (bit 4 cleared).
    pub fn as_linear(self) -> (r: Self)
        ensures
            r.bits() == self.bits() & !(1u32 << 4u32),
    {
        ReportFlags(unset_bit_at(self.0, 4))
    }

    /// Whether the field is without a preferred state (bit 5 set).
    pub fn has_no_preferred_state(&self) -> (r: bool)
        ensures
            r == flag_bit(self.bits(), 5),
    {
        bit_at(self.0, 5)
    }

    /// Whether the field is with a preferred state (bit 5 clear).
    pub fn has_preferred_state(&self) -> (r: bool)
        ensures
            r == !flag_bit(self.bits(), 5),
    {
        !bit_at(self.0, 5)
    }

    /// These flags, marked without a preferred state (bit 5 set).
    pub fn with_preferred_state(self) -> (r: Self)
        ensures
            r.bits() == self.bits() | (1u32 << 5u32),
    {
        ReportFlags(set_bit_at(self.0, 5))
    }

    /// These flags, marked with a preferred state (bit 5 cleared).
    pub fn without_preferred_state(self) -> (r: Self)
        ensures
            r.bits() == self.bits() & !(1u32 << 5u32),
    {
        ReportFlags(unset_bit_at(self.0, 5))
    }

    /// Whether the field is with a null state (bit 6 set).
    pub fn has_null_state(&self) -> (r: bool)
        ensures
            r == flag_bit(self.bits(), 6),
    {
        bit_at(self.0, 6)
    }

    /// Whether the field is without a null position (bit 6 clear).
    pub fn has_no_null_position(&self) -> (r: bool)
        ensures
            r == !flag_bit(self.bits(), 6),
    {
        !bit_at(self.0, 6)
    }

    /// These flags, marked with a null state (bit 6 set).
    pub fn with_null_state(self) -> (r: Self)
        ensures
            r.bits() == self.bits() | (1u32 << 6u32),
    {
        ReportFlags(set_bit_at(self.0, 6))
    }

    /// These flags, marked without a null position (bit 6 cleared).
    pub fn without_null_position(self) -> (r: Self)
        ensures
            r.bits() == self.bits() & !(1u32 << 6u32),
    {
        ReportFlags(unset_bit_at(self.0, 6))
    }

    /// Whether the field is volatile (bit 7 set).
    pub fn is_volatile(&self) -> (r: bool)
        ensures
            r == flag_bit(self.bits(), 7),
    {
        bit_at(self.0, 7)
    }

    /// Whether the field is non-volatile (bit 7 clear).
    pub fn is_nonvolatile(&self) -> (r: bool)
        ensures
            r == !flag_bit(self.bits(), 7),
    {
        !bit_at(self.0, 7)
    }

    /// These flags, marked volatile (bit 7 set).
    pub fn as_volatile(self) -> (r: Self)
        ensures
            r.bits() == self.bits() | (1u32 << 7u32),
    {
        ReportFlags(set_bit_at(self.0, 7))
    }

    /// These flags, marked non-volatile (bit 7 cleared).
    pub fn as_nonvolatile(self) -> (r: Self)
        ensures
            r.bits() == self.bits() & !(1u32 << 7u32),
    {
        ReportFlags(unset_bit_at(self.0, 7))
    }

    /// Whether the field is buffered bytes (bit 8 set).
    pub fn is_buffered_bytes(&self) -> (r: bool)
        ensures
            r == flag_bit(self.bits(), 8),
    {
        bit_at(self.0, 8)
    }

    /// Whether the field is a bit field (bit 8 clear).
    pub fn is_bit_field(&self) -> (r: bool)
        ensures
            r == !flag_bit(self.bits(), 8),
    {
        !bit_at(self.0, 8)
    }

    /// These flags, marked buffered bytes (bit 8 set).
    pub fn as_buffered_bytes(self) -> (r: Self)
        ensures
            r.bits() == self.bits() | (1u32 << 8u32),
    {
        ReportFlags(set_bit_at(self.0, 8))
    }

    /// These flags, marked a bit field (bit 8 cleared).
    pub fn as_bit_field(self) -> (r: Self)
        ensures
            r.bits() == self.bits() & !(1u32 << 8u32),
    {
        ReportFlags(unset_bit_at(self.0, 8))
    }
}

impl From<u32> for ReportFlags {
    fn from(value: u32) -> (r: Self) {
        ReportFlags(value)
    }
}

impl vstd::std_specs::convert::FromSpecImpl<u32> for ReportFlags {
    open spec fn obeys_from_spec() -> bool {
        true
    }

    closed spec fn from_spec(v: u32) -> ReportFlags {
        ReportFlags(v)
    }
}

impl From<ReportFlags> for u32 {
    fn from(v: ReportFlags) -> (r: u32) {
        v.as_u32()
    }
}

impl vstd::std_specs::convert::FromSpecImpl<ReportFlags> for u32 {
    open spec fn obeys_from_spec() -> bool {
        true
    }

    open spec fn from_spec(v: ReportFlags) -> u32 {
        v.bits()
    }
}

/// The kind of a collection, with its one-byte code.
#[derive(Copy, Clone, Debug, PartialEq, Eq, Structural)]
pub enum CollectionType {
    Physical,
    Application,
    Logical,
    Report,
    NamedArray,
    UsageSwitch,
    UsageModifier,
}

impl CollectionType {
    pub open spec fn spec_code(self) -> u8 {
        match self {
            CollectionType::Physical => 0x00,
            CollectionType::Application => 0x01,
            CollectionType::Logical => 0x02,
            CollectionType::Report => 0x03,
            CollectionType::NamedArray => 0x04,
            CollectionType::UsageSwitch => 0x05,
            CollectionType::UsageModifier => 0x06,
        }
    }

    /// The code of this collection type.
    pub fn code(self) -> (r: u8)
        ensures
            r == self.spec_code(),
    {
        match self {
            CollectionType::Physical => 0x00,
            CollectionType::Application => 0x01,
            CollectionType::Logical => 0x02,
            CollectionType::Report => 0x03,
            CollectionType::NamedArray => 0x04,
            CollectionType::UsageSwitch => 0x05,
            CollectionType::UsageModifier => 0x06,
        }
    }

    /// The collection type with the given code, if there is one.
    pub open spec fn spec_from_code(value: u8) -> Result<Self, TryFromIntError> {
        match value {
            0x00 => Ok(CollectionType::Physical),
            0x01 => Ok(CollectionType::Application),
            0x02 => Ok(CollectionType::Logical),
            0x03 => Ok(CollectionType::Report),
            0x04 => Ok(CollectionType::NamedArray),
            0x05 => Ok(CollectionType::UsageSwitch),
            0x06 => Ok(CollectionType::UsageModifier),
            _ => Err(TryFromIntError {}),
        }
    }

    /// The collection type with the given code.
    pub fn from_code(value: u8) -> (r: Result<Self, TryFromIntError>)
        ensures
            r == Self::spec_from_code(value),
            value <= 6 <==> r is Ok,
            r matches Ok(t) ==> t.spec_code() == value,
    {
        match value {
            0x00 => Ok(CollectionType::Physical),
            0x01 => Ok(CollectionType::Application),
            0x02 => Ok(CollectionType::Logical),
            0x03 => Ok(CollectionType::Report),
            0x04 => Ok(CollectionType::NamedArray),
            0x05 => Ok(CollectionType::UsageSwitch),
            0x06 => Ok(CollectionType::UsageModifier),
            _ => Err(TryFromIntError {}),
        }
    }
}

impl TryFrom<u8> for CollectionType {
    type Error = TryFromIntError;

    fn try_from(value: u8) -> (r: Result<Self, TryFromIntError>) {
        CollectionType::from_code(value)
    }
}

impl vstd::std_specs::convert::TryFromSpecImpl<u8> for CollectionType {
    open spec fn obeys_try_from_spec() -> bool {
        true
    }

    open spec fn try_from_spec(v: u8) -> Result<Self, TryFromIntError> {
        CollectionType::spec_from_code(v)
    }
}

impl From<CollectionType> for u8 {
    fn from(collection_type: CollectionType) -> (r: u8) {
        collection_type.code()
    }
}

impl vstd::std_specs::convert::FromSpecImpl<CollectionType> for u8 {
    open spec fn obeys_from_spec() -> bool {
        true
    }

    open spec fn from_spec(v: CollectionType) -> u8 {
        v.spec_code()
    }
}

/// Used in logical minima and maxima, in logical units.
pub type LogicalValue = i32;

/// Used in physical minima and maxima, in the units of the Unit and UnitExponent tags.
pub type PhysicalValue = i32;

/// A base-10 exponent held in four bits of two's complement: from -4 to 3.
#[derive(Copy, Clone, Debug)]
pub struct UnitExponent(i8);

impl PartialEq for UnitExponent {
    fn eq(&self, other: &UnitExponent) -> (r: bool) {
        self.0 == other.0
    }
}

impl vstd::std_specs::cmp::PartialEqSpecImpl for UnitExponent {
    open spec fn obeys_eq_spec() -> bool {
        true
    }

    open spec fn eq_spec(&self, other: &UnitExponent) -> bool {
        *self == *other
    }
}

impl Eq for UnitExponent {}

impl UnitExponent {
    #[verifier::type_invariant]
    spec fn in_range(self) -> bool {
        -4 <= self.0 <= 3
    }

    /// The exponent.
    pub closed spec fn value(self) -> i8 {
        self.0
    }

    /// The exponent as a signed integer.
    pub fn as_i8(&self) -> (r: i8)
        ensures
            r == self.value(),
            -4 <= r <= 3,
    {
        proof {
            use_type_invariant(self);
        }
        self.0
    }

    /// The exponent in its four-bit two's-complement form.
    pub fn as_nibble(&self) -> (r: u8)
        ensures
            r == self.value() % 16,
            r < 16,
    {
        proof {
            use_type_invariant(self);
        }
        let v = self.0;
        assert(-4 <= v <= 3 ==> (v & 0xF) as int == v % 16) by (bit_vector);
        assert(-4 <= v <= 3 ==> 0 <= (v & 0xF) < 16) by (bit_vector);
        (v & 0xF) as u8
    }

    /// The exponent as one byte: its nibble sign-extended, that is its two's-complement byte.
    pub fn as_byte(&self) -> (r: u8)
        ensures
            r == signed_byte(self.value() as int),
    {
        proof {
            use_type_invariant(self);
        }
        if self.0 >= 0 {
            self.0 as u8
        } else {
            (self.0 as i16 + 256) as u8
        }
    }

    /// The exponent `value`, when it lies in -4..=3.
    pub closed spec fn spec_from_i8(value: i8) -> Result<Self, TryFromIntError> {
        if -4 <= value <= 3 {
            Ok(UnitExponent(value))
        } else {
            Err(TryFromIntError {})
        }
    }

    /// The exponent `value`, when it lies in -4..=3.
    pub fn from_i8(value: i8) -> (r: Result<Self, TryFromIntError>)
        ensures
            r == Self::spec_from_i8(value),
            -4 <= value <= 3 <==> r is Ok,
            r matches Ok(e) ==> e.value() == value,
    {
        if value >= -4 && value < 4 {
            Ok(UnitExponent(value))
        } else {
            Err(TryFromIntError {})
        }
    }
}

impl TryFrom<i8> for UnitExponent {
    type Error = TryFromIntError;

    fn try_from(value: i8) -> (r: Result<Self, TryFromIntError>)
        ensures
            r is Ok <==> -4 <= value <= 3,
            r matches Ok(e) ==> e.value() == value,
    {
        UnitExponent::from_i8(value)
    }
}

impl vstd::std_specs::convert::TryFromSpecImpl<i8> for UnitExponent {
    open spec fn obeys_try_from_spec() -> bool {
        true
    }

    open spec fn try_from_spec(v: i8) -> Result<Self, TryFromIntError> {
        UnitExponent::spec_from_i8(v)
    }
}

/// A unit, in eight nibbles: system, length, mass, time, temperature, current,
/// luminous intensity, and one reserved.
#[derive(Copy, Clone, Debug)]
pub struct Unit(pub u32);

impl PartialEq for Unit {
    fn eq(&self, other: &Unit) -> (r: bool) {
        self.0 == other.0
    }
}

impl vstd::std_specs::cmp::PartialEqSpecImpl for Unit {
    open spec fn obeys_eq_spec() -> bool {
        true
    }

    open spec fn eq_spec(&self, other: &Unit) -> bool {
        *self == *other
    }
}

impl Eq for Unit {}

impl Unit {
    /// The packed unit code.
    pub fn code(self) -> (r: u32)
        ensures
            r == self.0,
    {
        self.0
    }
}

/// An ID that prefixes the reports it is attached to. Zero is not used.
pub type ReportId = u8;

/// The size of one report field, in bits.
pub type ReportSize = u32;

/// The number of fields of a report item.
pub type ReportCount = u32;

/// The index of a physical descriptor for a control; also a designator minimum or maximum.
#[derive(Copy, Clone, Debug, PartialEq, Eq, Structural)]
pub struct DesignatorIndex(pub u32);

impl From<u32> for DesignatorIndex {
    fn from(value: u32) -> (r: Self) {
        DesignatorIndex(value)
    }
}

impl vstd::std_specs::convert::FromSpecImpl<u32> for DesignatorIndex {
    open spec fn obeys_from_spec() -> bool {
        true
    }

    open spec fn from_spec(v: u32) -> DesignatorIndex {
        DesignatorIndex(v)
    }
}

impl From<DesignatorIndex> for u32 {
    fn from(v: DesignatorIndex) -> (r: u32) {
        v.0
    }
}

impl vstd::std_specs::convert::FromSpecImpl<DesignatorIndex> for u32 {
    open spec fn obeys_from_spec() -> bool {
        true
    }

    open spec fn from_spec(v: DesignatorIndex) -> u32 {
        v.0
    }
}

/// The index of a string for an item or control; also a string minimum or maximum.
#[derive(Copy, Clone, Debug, PartialEq, Eq, Structural)]
pub struct StringIndex(pub u32);

impl From<u32> for StringIndex {
    fn from(value: u32) -> (r: Self) {
        StringIndex(value)
    }
}

impl vstd::std_specs::convert::FromSpecImpl<u32> for StringIndex {
    open spec fn obeys_from_spec() -> bool {
        true
    }

    open spec fn from_spec(v: u32) -> StringIndex {
        StringIndex(v)
    }
}

impl From<StringIndex> for u32 {
    fn from(v: StringIndex) -> (r: u32) {
        v.0
    }
}

impl vstd::std_specs::convert::FromSpecImpl<StringIndex> for u32 {
    open spec fn obeys_from_spec() -> bool {
        true
    }

    open spec fn from_spec(v: StringIndex) -> u32 {
        v.0
    }
}

/// Opens (true) or closes (false) a set of local items.
#[derive(Copy, Clone, Debug, PartialEq, Eq, Structural)]
pub struct Delimiter(pub bool);

impl Delimiter {
    pub fn open() -> (r: Self)
        ensures
            r.0,
    {
        Delimiter(true)
    }

    pub fn close() -> (r: Self)
        ensures
            !r.0,
    {
        Delimiter(false)
    }

    pub fn is_open(&self) -> (r: bool)
        ensures
            r == self.0,
    {
        self.0
    }

    pub fn is_close(&self) -> (r: bool)
        ensures
            r == !self.0,
    {
        !self.0
    }
}

} // verus!
