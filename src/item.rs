//! Short items: the prefix byte and data bytes each tag is written as.
use vstd::prelude::*;
use vstd::arithmetic::power2::{lemma2_to64, lemma2_to64_rest, pow2};
use crate::error::TryFromIntError;
use crate::field_types::signed_byte;
use crate::tag::{Tag, TagType};

pub mod global_item;
pub mod local_item;
pub mod main_item;

verus! {

/// The two-bit size code of a short item.
#[derive(Copy, Clone, Debug, PartialEq, Eq, Structural)]
pub enum BSize {
    B0,
    B1,
    B2,
    B4,
}

impl BSize {
    pub open spec fn spec_code(self) -> u8 {
        match self {
            BSize::B0 => 0,
            BSize::B1 => 1,
            BSize::B2 => 2,
            BSize::B4 => 3,
        }
    }

    pub open spec fn spec_size(self) -> u8 {
        match self {
            BSize::B0 => 0,
            BSize::B1 => 1,
            BSize::B2 => 2,
            BSize::B4 => 4,
        }
    }

    /// The size code.
    pub fn code(&self) -> (r: u8)
        ensures
            r == self.spec_code(),
    {
        match self {
            BSize::B0 => 0,
            BSize::B1 => 1,
            BSize::B2 => 2,
            BSize::B4 => 3,
        }
    }

    /// The number of data bytes.
    pub fn size(&self) -> (r: u8)
        ensures
            r == self.spec_size(),
    {
        match self {
            BSize::B0 => 0,
            BSize::B1 => 1,
            BSize::B2 => 2,
            BSize::B4 => 4,
        }
    }

    /// The size with the given code.
    pub fn try_from_code(code: u8) -> (r: Result<Self, TryFromIntError>)
        ensures
            code <= 3 <==> r is Ok,
            r matches Ok(s) ==> s.spec_code() == code,
    {
        match code {
            0 => Ok(BSize::B0),
            1 => Ok(BSize::B1),
            2 => Ok(BSize::B2),
            3 => Ok(BSize::B4),
            _ => Err(TryFromIntError {}),
        }
    }
}

/// The number of data bytes that a size code stands for.
pub open spec fn bytes_of_size_code(code: u8) -> nat {
    if code == 0 {
        0
    } else if code == 1 {
        1
    } else if code == 2 {
        2
    } else {
        4
    }
}

/// The two-bit type code of a short item.
#[derive(Copy, Clone, Debug, PartialEq, Eq, Structural)]
pub enum BType {
    Main,
    Global,
    Local,
    Reserved,
}

impl BType {
    pub open spec fn spec_code(self) -> u8 {
        match self {
            BType::Main => 0,
            BType::Global => 1,
            BType::Local => 2,
            BType::Reserved => 3,
        }
    }

    /// The type code.
    pub fn code(&self) -> (r: u8)
        ensures
            r == self.spec_code(),
    {
        match self {
            BType::Main => 0,
            BType::Global => 1,
            BType::Local => 2,
            BType::Reserved => 3,
        }
    }

    /// The type with the given code.
    pub fn from_code(code: u8) -> (r: Option<Self>)
        ensures
            code <= 3 <==> r is Some,
            r matches Some(t) ==> t.spec_code() == code,
    {
        match code {
            0 => Some(BType::Main),
            1 => Some(BType::Global),
            2 => Some(BType::Local),
            3 => Some(BType::Reserved),
            _ => None,
        }
    }
}

/// The four-bit tag number of a short item.
#[derive(Copy, Clone, Debug, PartialEq, Eq, Structural)]
pub struct BTag(u8);

impl BTag {
    #[verifier::type_invariant]
    spec fn fits(self) -> bool {
        self.0 < 16
    }

    pub closed spec fn value(self) -> u8 {
        self.0
    }

    /// The tag number `value`, when it fits in four bits.
    pub closed spec fn spec_try_from(value: u8) -> Result<BTag, TryFromIntError> {
        if value < 16 {
            Ok(BTag(value))
        } else {
            Err(TryFromIntError {})
        }
    }

    /// The tag number.
    pub fn as_u8(&self) -> (r: u8)
        ensures
            r == self.value(),
            r < 16,
    {
        proof {
            use_type_invariant(self);
        }
        self.0
    }
}

impl TryFrom<u8> for BTag {
    type Error = TryFromIntError;

    fn try_from(value: u8) -> (r: Result<BTag, TryFromIntError>)
        ensures
            r is Ok <==> value < 16,
            r matches Ok(g) ==> g.value() == value,
    {
        assert((value & 0xF == value) == (value < 16)) by (bit_vector);
        if value & 0xF == value {
            Ok(BTag(value))
        } else {
            Err(TryFromIntError {})
        }
    }
}

impl vstd::std_specs::convert::TryFromSpecImpl<u8> for BTag {
    open spec fn obeys_try_from_spec() -> bool {
        true
    }

    open spec fn try_from_spec(v: u8) -> Result<BTag, TryFromIntError> {
        BTag::spec_try_from(v)
    }
}

/// The prefix byte of a short item: size in bits 0-1, type in bits 2-3, tag in bits 4-7.
#[derive(Copy, Clone, Debug, PartialEq, Eq, Structural)]
pub struct SizeTypeTag(pub u8);

impl SizeTypeTag {
    pub fn from_u8(value: u8) -> (r: Self)
        ensures
            r.0 == value,
    {
        SizeTypeTag(value)
    }

    /// The prefix with the given size, type and tag.
    pub fn from_size_type_tag(size: BSize, b_type: BType, tag: BTag) -> (r: Self)
        ensures
            r.0 % 4 == size.spec_code(),
            (r.0 / 4) % 4 == b_type.spec_code(),
            r.0 / 16 == tag.value(),
    {
        let s = size.code();
        let t = b_type.code();
        let g = tag.as_u8();
        assert(s < 4 && t < 4 && g < 16 ==> {
            let v = s | (t << 2u8) | (g << 4u8);
            &&& v % 4 == s
            &&& (v / 4) % 4 == t
            &&& v / 16 == g
        }) by (bit_vector);
        SizeTypeTag(s | (t << 2u8) | (g << 4u8))
    }

    /// The size of the data.
    pub fn size(&self) -> (r: BSize)
        ensures
            r.spec_code() == self.0 % 4,
    {
        let v = self.0;
        let code = v & 0x03;
        assert(v & 0x03 == v % 4) by (bit_vector);
        match code {
            0 => BSize::B0,
            1 => BSize::B1,
            2 => BSize::B2,
            _ => BSize::B4,
        }
    }

    /// The type of the item.
    pub fn b_type(&self) -> (r: BType)
        ensures
            r.spec_code() == (self.0 / 4) % 4,
    {
        let v = self.0;
        let code = (v >> 2u8) & 0x03;
        assert((v >> 2u8) & 0x03 == (v / 4) % 4) by (bit_vector);
        match code {
            0 => BType::Main,
            1 => BType::Global,
            2 => BType::Local,
            _ => BType::Reserved,
        }
    }

    /// The tag number of the item.
    pub fn b_tag(&self) -> (r: u8)
        ensures
            r == self.0 / 16,
    {
        let v = self.0;
        assert((v >> 4u8) & 0x0f == v / 16) by (bit_vector);
        (v >> 4u8) & 0x0f
    }

    pub fn as_u8(self) -> (r: u8)
        ensures
            r == self.0,
    {
        self.0
    }
}

/// Byte `k` (0 to 3, least significant first) of a 32-bit value.
pub open spec fn le_byte(v: u32, k: int) -> u8 {
    if k == 0 {
        (v & 0xFF) as u8
    } else if k == 1 {
        ((v >> 8u32) & 0xFF) as u8
    } else if k == 2 {
        ((v >> 16u32) & 0xFF) as u8
    } else {
        ((v >> 24u32) & 0xFF) as u8
    }
}

pub(crate) fn byte_of(v: u32, k: usize) -> (r: u8)
    ensures
        r == le_byte(v, k as int),
{
    if k == 0 {
        (v & 0xFF) as u8
    } else if k == 1 {
        ((v >> 8u32) & 0xFF) as u8
    } else if k == 2 {
        ((v >> 16u32) & 0xFF) as u8
    } else {
        ((v >> 24u32) & 0xFF) as u8
    }
}

/// A signed value as a 32-bit two's-complement word.
pub open spec fn word_of(v: int) -> u32 {
    (if v >= 0 {
        v
    } else {
        v + 0x1_0000_0000
    }) as u32
}

fn to_word(v: i32) -> (r: u32)
    ensures
        r == word_of(v as int),
{
    if v >= 0 {
        v as u32
    } else {
        (v as i64 + 0x1_0000_0000i64) as u32
    }
}

/// A short item: a prefix and up to four bytes of little-endian data.
#[derive(Copy, Clone, Debug, PartialEq, Eq, Structural)]
pub struct ShortItem(pub SizeTypeTag, pub u32);

/// The bytes of a short item: its prefix, then as many data bytes as its size code says.
pub open spec fn item_bytes(item: ShortItem) -> Seq<u8> {
    seq![item.0.0] + Seq::new(bytes_of_size_code(item.0.0 % 4), |k: int| le_byte(item.1, k))
}

/// The bytes of a sequence of short items, one after the other.
pub open spec fn items_bytes(s: Seq<ShortItem>) -> Seq<u8>
    decreases s.len(),
{
    if s.len() == 0 {
        Seq::empty()
    } else {
        items_bytes(s.subrange(0, s.len() - 1)) + item_bytes(s[s.len() - 1])
    }
}

impl ShortItem {
    pub fn new(size_type_tag: SizeTypeTag, data: u32) -> (r: Self)
        ensures
            r == ShortItem(size_type_tag, data),
    {
        ShortItem(size_type_tag, data)
    }

    /// The prefix byte followed by the data bytes that the size code asks for.
    pub fn into_bytes(self) -> (r: Vec<u8>)
        ensures
            r@ == item_bytes(self),
    {
        let mut out: Vec<u8> = Vec::new();
        out.push(self.0.as_u8());
        let n: usize = match self.0.size() {
            BSize::B0 => 0,
            BSize::B1 => 1,
            BSize::B2 => 2,
            BSize::B4 => 4,
        };
        let mut k: usize = 0;
        while k < n
            invariant
                n == bytes_of_size_code(self.0.0 % 4),
                n <= 4,
                k <= n,
                out@ == seq![self.0.0] + Seq::new(k as nat, |j: int| le_byte(self.1, j)),
            decreases n - k,
        {
            out.push(byte_of(self.1, k));
            assert(out@ =~= seq![self.0.0] + Seq::new((k + 1) as nat, |j: int| le_byte(self.1, j)));
            k = k + 1;
        }
        out
    }
}

/// The data of a short item, with the width and signedness it is written with.
#[derive(Copy, Clone, Debug, PartialEq, Eq, Structural)]
pub enum ShortItemData {
    Empty,
    U8(u8),
    I8(i8),
    U16(u16),
    I16(i16),
    U32(u32),
    I32(i32),
}

/// The narrowest unsigned data that holds `v`: none at all for zero.
pub open spec fn shrunk_unsigned(v: u32) -> ShortItemData {
    if v == 0 {
        ShortItemData::Empty
    } else if v <= 0xFF {
        ShortItemData::U8(v as u8)
    } else if v <= 0xFFFF {
        ShortItemData::U16(v as u16)
    } else {
        ShortItemData::U32(v)
    }
}

/// The narrowest signed data, of one byte at least, that holds `v`.
pub open spec fn shrunk_signed(v: i32) -> ShortItemData {
    if -0x80 <= v <= 0x7F {
        ShortItemData::I8(v as i8)
    } else if -0x8000 <= v <= 0x7FFF {
        ShortItemData::I16(v as i16)
    } else {
        ShortItemData::I32(v)
    }
}

impl ShortItemData {
    pub open spec fn spec_size(self) -> BSize {
        match self {
            ShortItemData::Empty => BSize::B0,
            ShortItemData::U8(_) | ShortItemData::I8(_) => BSize::B1,
            ShortItemData::U16(_) | ShortItemData::I16(_) => BSize::B2,
            ShortItemData::U32(_) | ShortItemData::I32(_) => BSize::B4,
        }
    }

    /// The data as a 32-bit word; signed values are sign-extended.
    pub open spec fn spec_as_u32(self) -> u32 {
        match self {
            ShortItemData::Empty => 0,
            ShortItemData::U8(v) => v as u32,
            ShortItemData::I8(v) => word_of(v as int),
            ShortItemData::U16(v) => v as u32,
            ShortItemData::I16(v) => word_of(v as int),
            ShortItemData::U32(v) => v,
            ShortItemData::I32(v) => word_of(v as int),
        }
    }

    /// The width of this data.
    pub fn size(&self) -> (r: BSize)
        ensures
            r == self.spec_size(),
    {
        match self {
            ShortItemData::Empty => BSize::B0,
            ShortItemData::U8(_) | ShortItemData::I8(_) => BSize::B1,
            ShortItemData::U16(_) | ShortItemData::I16(_) => BSize::B2,
            ShortItemData::U32(_) | ShortItemData::I32(_) => BSize::B4,
        }
    }

    /// The data as a 32-bit word; signed values are sign-extended.
    pub fn as_u32(self) -> (r: u32)
        ensures
            r == self.spec_as_u32(),
    {
        match self {
            ShortItemData::Empty => 0,
            ShortItemData::U8(v) => v as u32,
            ShortItemData::I8(v) => to_word(v as i32),
            ShortItemData::U16(v) => v as u32,
            ShortItemData::I16(v) => to_word(v as i32),
            ShortItemData::U32(v) => v,
            ShortItemData::I32(v) => to_word(v),
        }
    }

    fn make_shrunk_unsigned(value: u32) -> (r: Self)
        ensures
            r == shrunk_unsigned(value),
    {
        if value == 0 {
            return ShortItemData::Empty;
        }
        if value <= 0xFF {
            return ShortItemData::U8(value as u8);
        }
        if value <= 0xFFFF {
            return ShortItemData::U16(value as u16);
        }
        ShortItemData::U32(value)
    }

    fn make_shrunk_signed(value: i32) -> (r: Self)
        ensures
            r == shrunk_signed(value),
    {
        if -0x80 <= value && value <= 0x7F {
            return ShortItemData::I8(value as i8);
        }
        if -0x8000 <= value && value <= 0x7FFF {
            return ShortItemData::I16(value as i16);
        }
        ShortItemData::I32(value)
    }

    /// This data in its narrowest form of the same signedness.
    pub fn shrink(self) -> (r: Self)
        ensures
            r == match self {
                ShortItemData::Empty => ShortItemData::Empty,
                ShortItemData::U8(v) => shrunk_unsigned(v as u32),
                ShortItemData::U16(v) => shrunk_unsigned(v as u32),
                ShortItemData::U32(v) => shrunk_unsigned(v),
                ShortItemData::I8(v) => shrunk_signed(v as i32),
                ShortItemData::I16(v) => shrunk_signed(v as i32),
                ShortItemData::I32(v) => shrunk_signed(v),
            },
    {
        match self {
            ShortItemData::Empty => self,
            ShortItemData::U8(v) => ShortItemData::make_shrunk_unsigned(v as u32),
            ShortItemData::U16(v) => ShortItemData::make_shrunk_unsigned(v as u32),
            ShortItemData::U32(v) => ShortItemData::make_shrunk_unsigned(v),
            ShortItemData::I8(v) => ShortItemData::make_shrunk_signed(v as i32),
            ShortItemData::I16(v) => ShortItemData::make_shrunk_signed(v as i32),
            ShortItemData::I32(v) => ShortItemData::make_shrunk_signed(v),
        }
    }
}

impl From<u8> for ShortItemData {
    fn from(data: u8) -> (r: Self) {
        ShortItemData::U8(data)
    }
}

impl vstd::std_specs::convert::FromSpecImpl<u8> for ShortItemData {
    open spec fn obeys_from_spec() -> bool {
        true
    }

    open spec fn from_spec(v: u8) -> ShortItemData {
        ShortItemData::U8(v)
    }
}

impl From<u16> for ShortItemData {
    fn from(data: u16) -> (r: Self) {
        ShortItemData::U16(data)
    }
}

impl vstd::std_specs::convert::FromSpecImpl<u16> for ShortItemData {
    open spec fn obeys_from_spec() -> bool {
        true
    }

    open spec fn from_spec(v: u16) -> ShortItemData {
        ShortItemData::U16(v)
    }
}

impl From<u32> for ShortItemData {
    fn from(data: u32) -> (r: Self) {
        ShortItemData::U32(data)
    }
}

impl vstd::std_specs::convert::FromSpecImpl<u32> for ShortItemData {
    open spec fn obeys_from_spec() -> bool {
        true
    }

    open spec fn from_spec(v: u32) -> ShortItemData {
        ShortItemData::U32(v)
    }
}

/// The short item with prefix `p` (size bits clear) and data `d`.
pub open spec fn item_with(p: u8, d: ShortItemData) -> ShortItem {
    ShortItem(SizeTypeTag(p | d.spec_size().spec_code()), d.spec_as_u32())
}

/// The type and tag bits of a short item; the size bits are clear.
#[derive(Copy, Clone, Debug, PartialEq, Eq, Structural)]
pub struct ItemPrefix(u8);

impl ItemPrefix {
    pub closed spec fn value(self) -> u8 {
        self.0
    }

    /// A prefix from a byte, with its size bits cleared.
    pub fn from_u8(value: u8) -> (r: Self)
        ensures
            r.value() == value & 0xfc,
    {
        ItemPrefix(value & 0xfc)
    }

    /// The prefix byte with the given size.
    pub fn with_size(self, size: BSize) -> (r: SizeTypeTag)
        ensures
            r.0 == self.value() | size.spec_code(),
    {
        SizeTypeTag::from_u8(self.0 | size.code())
    }

    /// The short item with this prefix and the given data.
    pub fn with_data(self, data: ShortItemData) -> (r: ShortItem)
        ensures
            r == item_with(self.value(), data),
    {
        ShortItem::new(self.with_size(data.size()), data.as_u32())
    }

    /// The short item with this prefix and no data.
    pub fn without_data(self) -> (r: ShortItem)
        ensures
            r == item_with(self.value(), ShortItemData::Empty),
    {
        self.with_data(ShortItemData::Empty)
    }

    /// The short item with this prefix and one byte of data.
    pub fn with_u8(self, data: u8) -> (r: ShortItem)
        ensures
            r == item_with(self.value(), ShortItemData::U8(data)),
    {
        self.with_data(ShortItemData::U8(data))
    }

    /// The short item with this prefix and two bytes of data.
    pub fn with_u16(self, data: u16) -> (r: ShortItem)
        ensures
            r == item_with(self.value(), ShortItemData::U16(data)),
    {
        self.with_data(ShortItemData::U16(data))
    }

    /// The short item with this prefix and four bytes of data.
    pub fn with_u32(self, data: u32) -> (r: ShortItem)
        ensures
            r == item_with(self.value(), ShortItemData::U32(data)),
    {
        self.with_data(ShortItemData::U32(data))
    }

    /// The short item with this prefix and four bytes holding a signed value.
    pub fn with_i32(self, data: i32) -> (r: ShortItem)
        ensures
            r == item_with(self.value(), ShortItemData::U32(word_of(data as int))),
    {
        self.with_data(ShortItemData::U32(to_word(data)))
    }

    /// The short item with this prefix and the narrowest unsigned form of `data`.
    pub fn with_shrunk_u32(self, data: u32) -> (r: ShortItem)
        ensures
            r == item_with(self.value(), shrunk_unsigned(data)),
    {
        self.with_data(ShortItemData::U32(data).shrink())
    }

    /// The short item with this prefix and the narrowest signed form of `data`.
    pub fn with_shrunk_i32(self, data: i32) -> (r: ShortItem)
        ensures
            r == item_with(self.value(), shrunk_signed(data)),
    {
        self.with_data(ShortItemData::I32(data).shrink())
    }
}

/// The prefix byte of each kind of tag, with the size bits clear.
pub open spec fn tag_prefix(t: Tag) -> u8 {
    match t {
        Tag::Input(_) => 0x80,
        Tag::Output(_) => 0x90,
        Tag::Feature(_) => 0xB0,
        Tag::Collection(_) => 0xA0,
        Tag::EndCollection => 0xC0,
        Tag::UsagePage(_) => 0x04,
        Tag::LogicalMinimum(_) => 0x14,
        Tag::LogicalMaximum(_) => 0x24,
        Tag::PhysicalMinimum(_) => 0x34,
        Tag::PhysicalMaximum(_) => 0x44,
        Tag::UnitExponent(_) => 0x54,
        Tag::Unit(_) => 0x64,
        Tag::ReportSize(_) => 0x74,
        Tag::ReportId(_) => 0x84,
        Tag::ReportCount(_) => 0x94,
        Tag::Push => 0xA4,
        Tag::Pop => 0xB4,
        Tag::ExtendedUsage(_) => 0x08,
        Tag::UsageId(_) => 0x08,
        Tag::ExtendedUsageMinimum(_) => 0x18,
        Tag::UsageMinimumId(_) => 0x18,
        Tag::ExtendedUsageMaximum(_) => 0x28,
        Tag::UsageMaximumId(_) => 0x28,
        Tag::DesignatorIndex(_) => 0x38,
        Tag::DesignatorMinimum(_) => 0x48,
        Tag::DesignatorMaximum(_) => 0x58,
        Tag::StringIndex(_) => 0x78,
        Tag::StringMinimum(_) => 0x88,
        Tag::StringMaximum(_) => 0x98,
        Tag::Delimiter(_) => 0xA8,
    }
}

/// The data each kind of tag is written with: unsigned values in their narrowest form (none
/// for zero), signed values in their narrowest form of one byte at least, extended usages in
/// four bytes, and the collection type, report ID and unit exponent (its nibble sign-extended)
/// in one byte.
pub open spec fn tag_data(t: Tag) -> ShortItemData {
    match t {
        Tag::Input(v) => shrunk_unsigned(v.bits()),
        Tag::Output(v) => shrunk_unsigned(v.bits()),
        Tag::Feature(v) => shrunk_unsigned(v.bits()),
        Tag::Collection(v) => ShortItemData::U8(v.spec_code()),
        Tag::EndCollection => ShortItemData::Empty,
        Tag::UsagePage(v) => shrunk_unsigned(v as u32),
        Tag::LogicalMinimum(v) => shrunk_signed(v),
        Tag::LogicalMaximum(v) => shrunk_signed(v),
        Tag::PhysicalMinimum(v) => shrunk_signed(v),
        Tag::PhysicalMaximum(v) => shrunk_signed(v),
        Tag::UnitExponent(v) => ShortItemData::U8(signed_byte(v.value() as int)),
        Tag::Unit(v) => shrunk_unsigned(v.0),
        Tag::ReportSize(v) => shrunk_unsigned(v),
        Tag::ReportId(v) => ShortItemData::U8(v),
        Tag::ReportCount(v) => shrunk_unsigned(v),
        Tag::Push => ShortItemData::Empty,
        Tag::Pop => ShortItemData::Empty,
        Tag::ExtendedUsage(v) => ShortItemData::U32(v.0),
        Tag::UsageId(v) => shrunk_unsigned(v as u32),
        Tag::ExtendedUsageMinimum(v) => ShortItemData::U32(v.0),
        Tag::UsageMinimumId(v) => shrunk_unsigned(v as u32),
        Tag::ExtendedUsageMaximum(v) => ShortItemData::U32(v.0),
        Tag::UsageMaximumId(v) => shrunk_unsigned(v as u32),
        Tag::DesignatorIndex(v) => shrunk_unsigned(v.0),
        Tag::DesignatorMinimum(v) => shrunk_unsigned(v.0),
        Tag::DesignatorMaximum(v) => shrunk_unsigned(v.0),
        Tag::StringIndex(v) => shrunk_unsigned(v.0),
        Tag::StringMinimum(v) => shrunk_unsigned(v.0),
        Tag::StringMaximum(v) => shrunk_unsigned(v.0),
        Tag::Delimiter(v) => shrunk_unsigned(if v.0 { 1 } else { 0 }),
    }
}

/// The short item a tag is written as.
pub open spec fn encode_tag(t: Tag) -> ShortItem {
    item_with(tag_prefix(t), tag_data(t))
}

impl From<Tag> for ShortItem {
    fn from(tag: Tag) -> (r: Self) {
        match tag {
            Tag::Input(v) => ItemPrefix(main_item::INPUT).with_shrunk_u32(v.as_u32()),
            Tag::Output(v) => ItemPrefix(main_item::OUTPUT).with_shrunk_u32(v.as_u32()),
            Tag::Feature(v) => ItemPrefix(main_item::FEATURE).with_shrunk_u32(v.as_u32()),
            Tag::Collection(v) => ItemPrefix(main_item::COLLECTION).with_u8(v.code()),
            Tag::EndCollection => ItemPrefix(main_item::END_COLLECTION).without_data(),
            Tag::UsagePage(v) => ItemPrefix(global_item::USAGE_PAGE).with_shrunk_u32(v as u32),
            Tag::LogicalMinimum(v) => ItemPrefix(global_item::LOGICAL_MINIMUM).with_shrunk_i32(v),
            Tag::LogicalMaximum(v) => ItemPrefix(global_item::LOGICAL_MAXIMUM).with_shrunk_i32(v),
            Tag::PhysicalMinimum(v) => ItemPrefix(global_item::PHYSICAL_MINIMUM).with_shrunk_i32(v),
            Tag::PhysicalMaximum(v) => ItemPrefix(global_item::PHYSICAL_MAXIMUM).with_shrunk_i32(v),
            Tag::UnitExponent(v) => ItemPrefix(global_item::UNIT_EXPONENT).with_u8(v.as_byte()),
            Tag::Unit(v) => ItemPrefix(global_item::UNIT).with_shrunk_u32(v.code()),
            Tag::ReportSize(v) => ItemPrefix(global_item::REPORT_SIZE).with_shrunk_u32(v),
            Tag::ReportId(v) => ItemPrefix(global_item::REPORT_ID).with_u8(v),
            Tag::ReportCount(v) => ItemPrefix(global_item::REPORT_COUNT).with_shrunk_u32(v),
            Tag::Push => ItemPrefix(global_item::PUSH).without_data(),
            Tag::Pop => ItemPrefix(global_item::POP).without_data(),
            Tag::ExtendedUsage(v) => ItemPrefix(local_item::USAGE).with_u32(v.as_u32()),
            Tag::UsageId(v) => ItemPrefix(local_item::USAGE).with_shrunk_u32(v as u32),
            Tag::ExtendedUsageMinimum(v) => ItemPrefix(local_item::USAGE_MINIMUM).with_u32(v.as_u32()),
            Tag::UsageMinimumId(v) => ItemPrefix(local_item::USAGE_MINIMUM).with_shrunk_u32(v as u32),
            Tag::ExtendedUsageMaximum(v) => ItemPrefix(local_item::USAGE_MAXIMUM).with_u32(v.as_u32()),
            Tag::UsageMaximumId(v) => ItemPrefix(local_item::USAGE_MAXIMUM).with_shrunk_u32(v as u32),
            Tag::DesignatorIndex(v) => ItemPrefix(local_item::DESIGNATOR_INDEX).with_shrunk_u32(v.0),
            Tag::DesignatorMinimum(v) => ItemPrefix(local_item::DESIGNATOR_MINIMUM).with_shrunk_u32(v.0),
            Tag::DesignatorMaximum(v) => ItemPrefix(local_item::DESIGNATOR_MAXIMUM).with_shrunk_u32(v.0),
            Tag::StringIndex(v) => ItemPrefix(local_item::STRING_INDEX).with_shrunk_u32(v.0),
            Tag::StringMinimum(v) => ItemPrefix(local_item::STRING_MINIMUM).with_shrunk_u32(v.0),
            Tag::StringMaximum(v) => ItemPrefix(local_item::STRING_MAXIMUM).with_shrunk_u32(v.0),
            Tag::Delimiter(v) => ItemPrefix(local_item::DELIMITER).with_shrunk_u32(if v.is_open() { 1 } else { 0 }),
        }
    }
}

impl vstd::std_specs::convert::FromSpecImpl<Tag> for ShortItem {
    open spec fn obeys_from_spec() -> bool {
        true
    }

    open spec fn from_spec(v: Tag) -> ShortItem {
        encode_tag(v)
    }
}

/// A sequence of short items.
#[derive(Clone, Debug)]
pub struct ShortItems(Vec<ShortItem>);

impl View for ShortItems {
    type V = Seq<ShortItem>;

    closed spec fn view(&self) -> Seq<ShortItem> {
        self.0@
    }
}

impl ShortItems {
    /// The short items the given tags are written as, in order.
    pub fn from_tags(tags: Vec<Tag>) -> (r: Self)
        ensures
            r@ == tags@.map_values(|t: Tag| encode_tag(t)),
    {
        let mut items: Vec<ShortItem> = Vec::new();
        let mut i: usize = 0;
        while i < tags.len()
            invariant
                0 <= i <= tags@.len(),
                items@ == tags@.subrange(0, i as int).map_values(|t: Tag| encode_tag(t)),
            decreases tags@.len() - i,
        {
            items.push(ShortItem::from(tags[i]));
            assert(items@ =~= tags@.subrange(0, i + 1).map_values(|t: Tag| encode_tag(t)));
            i = i + 1;
        }
        assert(tags@.subrange(0, tags@.len() as int) =~= tags@);
        ShortItems(items)
    }

    /// A sequence of the given items.
    pub fn from_items(items: Vec<ShortItem>) -> (r: Self)
        ensures
            r@ == items@,
    {
        ShortItems(items)
    }

    /// The bytes of every item, one after the other.
    pub fn into_bytes(self) -> (r: Vec<u8>)
        ensures
            r@ == items_bytes(self@),
    {
        let items = self.0;
        let mut out: Vec<u8> = Vec::new();
        let mut i: usize = 0;
        while i < items.len()
            invariant
                0 <= i <= items@.len(),
                out@ == items_bytes(items@.subrange(0, i as int)),
            decreases items@.len() - i,
        {
            let mut bytes = items[i].into_bytes();
            out.append(&mut bytes);
            assert(items@.subrange(0, i + 1).subrange(0, i as int) =~= items@.subrange(0, i as int));
            i = i + 1;
        }
        assert(items@.subrange(0, items@.len() as int) =~= items@);
        out
    }
}

/// The type code of a category of tags.
pub open spec fn type_code(t: TagType) -> u8 {
    match t {
        TagType::Main => 0,
        TagType::Global => 1,
        TagType::Local => 2,
    }
}

/// The combined length of a sequence of short items.
pub open spec fn items_total_len(s: Seq<ShortItem>) -> nat
    decreases s.len(),
{
    if s.len() == 0 {
        0
    } else {
        items_total_len(s.subrange(0, s.len() - 1)) + 1 + bytes_of_size_code(s[s.len() - 1].0.0 % 4)
    }
}

/// Where item `k` starts in the bytes of a sequence of items.
pub open spec fn item_offset(s: Seq<ShortItem>, k: int) -> nat {
    items_bytes(s.subrange(0, k)).len()
}

/// A size code in the low bits of a prefix whose low bits are clear.
proof fn lemma_prefix_with_size(p: u8, c: u8)
    by (bit_vector)
    requires
        p % 4 == 0,
        c < 4,
    ensures
        (p | c) % 4 == c,
        (p | c) / 4 == p / 4,
        (p | c) / 16 == p / 16,
{
}

/// The prefix byte of a tag's item decodes to the tag's data length, its category and its
/// tag number.
pub proof fn lemma_tag_prefix(t: Tag)
    ensures
        encode_tag(t).0.0 % 4 == tag_data(t).spec_size().spec_code(),
        bytes_of_size_code(encode_tag(t).0.0 % 4) == tag_data(t).spec_size().spec_size(),
        (encode_tag(t).0.0 / 4) % 4 == type_code(t.spec_tag_type()),
        encode_tag(t).0.0 / 16 == tag_prefix(t) / 16,
{
    lemma_prefix_with_size(tag_prefix(t), tag_data(t).spec_size().spec_code());
}

/// The bytes of items laid end to end: the total length is the sum of the item lengths, each
/// item's bytes stand at its offset, and its first byte is its prefix.
#[verifier::rlimit(50)]
pub proof fn lemma_items_layout(s: Seq<ShortItem>)
    ensures
        items_bytes(s).len() == items_total_len(s),
        forall|k: int|
            0 <= k < s.len() ==> {
                &&& item_offset(s, k) + item_bytes(#[trigger] s[k]).len() <= items_bytes(s).len()
                &&& items_bytes(s).subrange(
                    item_offset(s, k) as int,
                    (item_offset(s, k) + item_bytes(s[k]).len()) as int,
                ) == item_bytes(s[k])
                &&& items_bytes(s)[item_offset(s, k) as int] == s[k].0.0
            },
    decreases s.len(),
{
    if s.len() > 0 {
        let n = s.len() - 1;
        let init = s.subrange(0, n);
        let head = items_bytes(init);
        let last = item_bytes(s[n]);
        lemma_items_layout(init);
        assert(items_bytes(s) == head + last);
        assert forall|k: int| 0 <= k < s.len() implies {
            &&& item_offset(s, k) + item_bytes(#[trigger] s[k]).len() <= items_bytes(s).len()
            &&& items_bytes(s).subrange(
                item_offset(s, k) as int,
                (item_offset(s, k) + item_bytes(s[k]).len()) as int,
            ) == item_bytes(s[k])
            &&& items_bytes(s)[item_offset(s, k) as int] == s[k].0.0
        } by {
            if k < n {
                assert(s.subrange(0, k) =~= init.subrange(0, k));
                assert(init[k] == s[k]);
                let o = item_offset(init, k) as int;
                let e = o + item_bytes(s[k]).len();
                assert(e <= head.len());
                assert((head + last).subrange(o, e) =~= head.subrange(o, e));
                assert((head + last)[o] == head[o]);
            } else {
                assert(s.subrange(0, k) =~= init);
                assert((head + last).subrange(head.len() as int, (head.len() + last.len()) as int)
                    =~= last);
            }
        }
    }
}

/// The data bytes of short item data, least significant first.
pub open spec fn data_bytes(d: ShortItemData) -> Seq<u8> {
    Seq::new(d.spec_size().spec_size() as nat, |k: int| le_byte(d.spec_as_u32(), k))
}

/// The value of little-endian bytes.
pub open spec fn decode_le(b: Seq<u8>) -> nat
    decreases b.len(),
{
    if b.len() == 0 {
        0
    } else {
        (b[0] + 256 * decode_le(b.subrange(1, b.len() as int))) as nat
    }
}

/// The value of little-endian bytes read as two's complement.
pub open spec fn decode_le_signed(b: Seq<u8>) -> int {
    if b.len() > 0 && b[b.len() - 1] >= 0x80 {
        decode_le(b) - pow2(8 * b.len())
    } else {
        decode_le(b) as int
    }
}

proof fn lemma_le_bytes(w: u32)
    by (bit_vector)
    ensures
        w & 0xFF == w % 256,
        (w & 0xFF) + 256 * ((w >> 8u32) & 0xFF) == w % 65536,
        (w & 0xFF) + 256 * (((w >> 8u32) & 0xFF) + 256 * (((w >> 16u32) & 0xFF) + 256 * ((w
            >> 24u32) & 0xFF))) == w,
        ((w >> 8u32) & 0xFF >= 0x80) == (w % 65536 >= 0x8000),
        ((w >> 24u32) & 0xFF >= 0x80) == (w >= 0x8000_0000),
        (w >> 8u32) & 0xFF < 256,
        (w >> 16u32) & 0xFF < 256,
        (w >> 24u32) & 0xFF < 256,
{
}

/// The bytes of 1, 2 or 4 byte data decode to the data word cut to that width.
proof fn lemma_decode_data(d: ShortItemData)
    ensures
        d.spec_size() == BSize::B1 ==> decode_le(data_bytes(d)) == d.spec_as_u32() % 256,
        d.spec_size() == BSize::B2 ==> decode_le(data_bytes(d)) == d.spec_as_u32() % 65536,
        d.spec_size() == BSize::B4 ==> decode_le(data_bytes(d)) == d.spec_as_u32(),
        d.spec_size() == BSize::B1 ==> (data_bytes(d).last() >= 0x80 <==> d.spec_as_u32() % 256
            >= 0x80),
        d.spec_size() == BSize::B2 ==> (data_bytes(d).last() >= 0x80 <==> d.spec_as_u32()
            % 65536 >= 0x8000),
        d.spec_size() == BSize::B4 ==> (data_bytes(d).last() >= 0x80 <==> d.spec_as_u32()
            >= 0x8000_0000),
{
    let w = d.spec_as_u32();
    let b = data_bytes(d);
    lemma_le_bytes(w);
    reveal_with_fuel(decode_le, 5);
    if b.len() >= 1 {
        let b1 = b.subrange(1, b.len() as int);
        if b.len() >= 2 {
            let b2 = b1.subrange(1, b1.len() as int);
            assert(b1[0] == b[1]);
            if b.len() == 4 {
                let b3 = b2.subrange(1, b2.len() as int);
                assert(b2[0] == b[2]);
                assert(b3[0] == b[3]);
                assert(b3.subrange(1, b3.len() as int).len() == 0);
                assert(decode_le(b3) == b[3]);
                assert(decode_le(b2) == b[2] + 256 * b[3]);
                assert(decode_le(b1) == b[1] + 256 * (b[2] + 256 * b[3]));
                assert(decode_le(b) == b[0] + 256 * (b[1] + 256 * (b[2] + 256 * b[3])));
            } else {
                assert(b2.len() == 0);
            }
        } else {
            assert(b1.len() == 0);
        }
    }
}

/// Unsigned shrink round trip: the bytes written for the narrowest unsigned form of `v`
/// decode back to `v`.
pub proof fn lemma_shrink_unsigned_round_trip(v: u32)
    ensures
        decode_le(data_bytes(shrunk_unsigned(v))) == v,
{
    let d = shrunk_unsigned(v);
    lemma_decode_data(d);
    if v == 0 {
        assert(data_bytes(d).len() == 0);
    }
}

/// Signed shrink round trip: the bytes written for the narrowest signed form of `v` decode
/// back to `v` as two's complement.
pub proof fn lemma_shrink_signed_round_trip(v: i32)
    ensures
        decode_le_signed(data_bytes(shrunk_signed(v))) == v,
{
    let d = shrunk_signed(v);
    lemma_decode_data(d);
    let w = d.spec_as_u32();
    lemma2_to64();
    lemma2_to64_rest();
}

} // verus!
