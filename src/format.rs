//! Bit-level layout of reports: fields at arbitrary bit offsets, filled in and packed.
use vstd::prelude::*;
use vstd::arithmetic::div_mod::{lemma_div_by_multiple, lemma_small_mod};
use vstd::arithmetic::mul::lemma_mul_strict_inequality;
use vstd::arithmetic::power2::{
    lemma2_to64, lemma2_to64_rest, lemma_pow2_adds, lemma_pow2_pos, lemma_pow2_strictly_increases,
    pow2,
};
use vstd::bits::{lemma_u64_shl_is_mul, lemma_u64_pow2_no_overflow};
use crate::field_types::{flag_bit, ReportId};
use crate::item::{byte_of, le_byte};
use crate::report::Report;

verus! {

/// A value has bits set outside the width of its field.
#[derive(Copy, Clone, Debug, PartialEq, Eq, Structural)]
pub struct DataOutOfBoundsError {}

impl DataOutOfBoundsError {
    /// A description of the error.
    pub fn to_string(&self) -> (r: String) {
        String::from_str("data bits out of defined size")
    }
}

/// A field would need more than four bytes of storage, or a report more bits than a `u32`
/// counts.
#[derive(Copy, Clone, Debug, PartialEq, Eq, Structural)]
pub struct TooLargeError {}

impl TooLargeError {
    /// A description of the error.
    pub fn to_string(&self) -> (r: String) {
        String::from_str("size too large for a report")
    }
}

/// `2^k` as a 64-bit integer, for `k` up to 32.
fn pow2_u64(k: u32) -> (r: u64)
    requires
        k <= 32,
    ensures
        r == pow2(k as nat),
        r <= 0x1_0000_0000,
{
    proof {
        lemma_u64_pow2_no_overflow(k as nat);
        lemma_u64_shl_is_mul(1, k as u64);
        lemma2_to64();
        lemma2_to64_rest();
        if k < 32 {
            lemma_pow2_strictly_increases(k as nat, 32);
        }
    }
    1u64 << (k as u64)
}

/// `v * 2^shift`, for a `v` of `n` bits with `n + shift` at most 32.
fn shift_into_word(v: u64, n: u32, shift: u32) -> (r: u32)
    requires
        v < pow2(n as nat),
        n + shift <= 32,
    ensures
        r == v * pow2(shift as nat),
{
    proof {
        lemma2_to64();
        lemma2_to64_rest();
        lemma_pow2_pos(shift as nat);
        lemma_pow2_adds(n as nat, shift as nat);
        lemma_mul_strict_inequality(v as int, pow2(n as nat) as int, pow2(shift as nat) as int);
        if n + shift < 32 {
            lemma_pow2_strictly_increases((n + shift) as nat, 32);
        }
        lemma_u64_pow2_no_overflow(shift as nat);
        lemma_u64_shl_is_mul(v, shift as u64);
    }
    (v << (shift as u64)) as u32
}

/// Whether `v` may be written in a signed field of `n` bits as two's complement: from
/// `-2^n / 2` up to `2^n / 2 - 1`.
pub open spec fn signed_fits(v: int, n: nat) -> bool {
    -(pow2(n) as int / 2) <= v < pow2(n) as int / 2
}

/// The `n`-bit two's-complement pattern of `v`.
pub open spec fn signed_field_bits(v: int, n: nat) -> int {
    if v >= 0 {
        v
    } else {
        v + pow2(n)
    }
}

/// Bit `i` of a byte buffer, least significant bit of each byte first; zero past its end.
pub open spec fn buffer_bit(buf: Seq<u8>, i: int) -> bool {
    0 <= i / 8 < buf.len() && (buf[i / 8] >> ((i % 8) as u8)) & 1 == 1
}

/// The value of the `n` bits of a buffer that start at bit `off`, lowest bit first.
pub open spec fn buffer_bits(buf: Seq<u8>, off: int, n: nat) -> nat
    decreases n,
{
    if n == 0 {
        0
    } else {
        buffer_bits(buf, off, (n - 1) as nat) + if buffer_bit(buf, off + n - 1) {
            pow2((n - 1) as nat)
        } else {
            0
        }
    }
}

/// The writable window of one field of a report: its absolute bit offset, its size in bits,
/// and its value, already shifted by the offset within its first byte.
#[derive(Debug)]
pub struct ReportVariable {
    bit_offset: u32,
    bit_size: u32,
    data: u32,
}

impl ReportVariable {
    #[verifier::type_invariant]
    spec fn fits_in_four_bytes(self) -> bool {
        self.bit_size + self.bit_offset % 8 <= 32
    }

    /// The absolute bit offset of the field.
    pub closed spec fn offset(self) -> u32 {
        self.bit_offset
    }

    /// The size of the field in bits.
    pub closed spec fn size(self) -> u32 {
        self.bit_size
    }

    /// The staged value.
    pub closed spec fn value(self) -> u32 {
        self.data
    }

    /// The offset of the field within its first byte.
    pub open spec fn shift(self) -> nat {
        (self.offset() % 8) as nat
    }

    /// A field at the given absolute bit offset, of the given size, with value zero. Fails
    /// when the field would need more than four bytes.
    pub fn new(bit_offset: u32, bit_size: u32) -> (r: Result<Self, TooLargeError>)
        ensures
            r is Ok <==> bit_size + bit_offset % 8 <= 32,
            r matches Ok(v) ==> v.offset() == bit_offset && v.size() == bit_size && v.value()
                == 0,
    {
        let internal_offset = bit_offset % 8;
        if (bit_size as u64) + (internal_offset as u64) <= 32 {
            Ok(ReportVariable { bit_offset, bit_size, data: 0 })
        } else {
            Err(TooLargeError {})
        }
    }

    /// The absolute bit offset of the field.
    pub fn bit_offset(&self) -> (r: u32)
        ensures
            r == self.offset(),
    {
        self.bit_offset
    }

    /// The size of the field in bits.
    pub fn bit_size(&self) -> (r: u32)
        ensures
            r == self.size(),
            r + self.shift() <= 32,
    {
        proof {
            use_type_invariant(self);
        }
        self.bit_size
    }

    /// Clear the staged value.
    pub fn clear(&mut self)
        ensures
            final(self).offset() == old(self).offset(),
            final(self).size() == old(self).size(),
            final(self).value() == 0,
    {
        proof {
            use_type_invariant(&*self);
        }
        self.data = 0;
    }

    /// The staged value, shifted by the offset within the first byte.
    pub fn data(&self) -> (r: u32)
        ensures
            r == self.value(),
    {
        self.data
    }

    /// Stage an unsigned value. Fails, changing nothing, when it has a bit set at or above
    /// the field's size.
    pub fn set_unsigned(&mut self, data: u32) -> (r: Result<(), DataOutOfBoundsError>)
        ensures
            final(self).offset() == old(self).offset(),
            final(self).size() == old(self).size(),
            r is Ok <==> data < pow2(old(self).size() as nat),
            r is Ok ==> final(self).value() == data * pow2(old(self).shift()),
            r is Err ==> final(self).value() == old(self).value(),
    {
        proof {
            use_type_invariant(&*self);
        }
        let limit = pow2_u64(self.bit_size);
        if (data as u64) < limit {
            let internal_offset = self.bit_offset % 8;
            self.data = shift_into_word(data as u64, self.bit_size, internal_offset);
            Ok(())
        } else {
            Err(DataOutOfBoundsError {})
        }
    }

    /// Stage a signed value as its two's-complement pattern in the field's width. Fails,
    /// changing nothing, unless it lies from `-2^size / 2` up to `2^size / 2 - 1`.
    pub fn set_signed(&mut self, data: i32) -> (r: Result<(), DataOutOfBoundsError>)
        ensures
            final(self).offset() == old(self).offset(),
            final(self).size() == old(self).size(),
            r is Ok <==> signed_fits(data as int, old(self).size() as nat),
            r is Ok ==> final(self).value() == signed_field_bits(data as int, old(self).size() as nat)
                * pow2(old(self).shift()),
            r is Err ==> final(self).value() == old(self).value(),
    {
        proof {
            use_type_invariant(&*self);
        }
        let limit = pow2_u64(self.bit_size);
        let v = data as i64;
        let lower = -((limit / 2) as i64);
        if v < lower || v >= (limit / 2) as i64 {
            return Err(DataOutOfBoundsError {});
        }
        let truncated: u64 = if v >= 0 {
            v as u64
        } else {
            (v + limit as i64) as u64
        };
        let internal_offset = self.bit_offset % 8;
        self.data = shift_into_word(truncated, self.bit_size, internal_offset);
        Ok(())
    }

    /// Stage the `size` bits of `data` that start at bit `bit_offset`, which may be aligned
    /// differently from this field; bits past the end of `data` read as zero.
    pub fn copy_data_from_slice(&mut self, data: &[u8], bit_offset: u32)
        ensures
            final(self).offset() == old(self).offset(),
            final(self).size() == old(self).size(),
            final(self).value() == buffer_bits(data@, bit_offset as int, old(self).size() as nat)
                * pow2(old(self).shift()),
    {
        proof {
            use_type_invariant(&*self);
            lemma2_to64();
            lemma2_to64_rest();
        }
        let n = self.bit_size;
        let mut acc: u64 = 0;
        let mut i: u32 = 0;
        while i < n
            invariant
                n <= 32,
                i <= n,
                acc == buffer_bits(data@, bit_offset as int, i as nat),
                acc < pow2(i as nat),
            decreases n - i,
        {
            let pos: u64 = bit_offset as u64 + i as u64;
            let byte_index: u64 = pos / 8;
            let mut bit_set = false;
            if byte_index < data.len() as u64 {
                let byte = data[byte_index as usize];
                bit_set = (byte >> ((pos % 8) as u8)) & 1 == 1;
            }
            let step = pow2_u64(i);
            proof {
                assert(bit_set == buffer_bit(data@, bit_offset + i));
                lemma_pow2_adds(i as nat, 1);
                lemma2_to64();
            }
            if bit_set {
                acc = acc + step;
            }
            i = i + 1;
        }
        let internal_offset = self.bit_offset % 8;
        self.data = shift_into_word(acc, n, internal_offset);
    }
}

/// Whether an item of a report occupies bits without a value (constant) or holds a value.
#[derive(Copy, Clone, Debug, PartialEq, Eq, Structural)]
pub enum ItemType {
    Constant,
    Variable,
}

/// One field of a report, by kind and size in bits.
#[derive(Copy, Clone, Debug, PartialEq, Eq, Structural)]
pub struct ReportItem {
    pub item_type: ItemType,
    pub bit_size: u32,
}

impl ReportItem {
    /// The field of a report: constant if its flags say so, of the report's field size.
    pub open spec fn spec_from_report(report: Report) -> ReportItem {
        ReportItem {
            item_type: if flag_bit(report.main.report_flags.bits(), 0) {
                ItemType::Constant
            } else {
                ItemType::Variable
            },
            bit_size: report.report_size,
        }
    }

    pub fn new(item_type: ItemType, bit_size: u32) -> (r: Self)
        ensures
            r == (ReportItem { item_type, bit_size }),
    {
        ReportItem { item_type, bit_size }
    }

    /// The kind and size of one field of a report.
    pub fn from_report(report: &Report) -> (r: Self)
        ensures
            r == ReportItem::spec_from_report(*report),
    {
        let is_constant = report.main.report_flags.is_constant();
        ReportItem {
            item_type: if is_constant {
                ItemType::Constant
            } else {
                ItemType::Variable
            },
            bit_size: report.report_size,
        }
    }
}

/// The shape of a field: its bit offset and size.
pub open spec fn var_shape(v: ReportVariable) -> (u32, u32) {
    (v.offset(), v.size())
}

/// The fields laid out by a sequence of items after `total` bits, and the new total; `None`
/// when a field would need more than four bytes or the total would pass `u32::MAX`.
pub open spec fn layout(total: u32, items: Seq<ReportItem>) -> Option<(Seq<(u32, u32)>, u32)>
    decreases items.len(),
{
    if items.len() == 0 {
        Some((Seq::empty(), total))
    } else {
        let it = items[items.len() - 1];
        match layout(total, items.subrange(0, items.len() - 1)) {
            None => None,
            Some((shapes, t)) => {
                if t + it.bit_size > u32::MAX {
                    None
                } else if it.item_type == ItemType::Variable {
                    if it.bit_size + t % 8 <= 32 {
                        Some((shapes.push((t, it.bit_size)), (t + it.bit_size) as u32))
                    } else {
                        None
                    }
                } else {
                    Some((shapes, (t + it.bit_size) as u32))
                }
            },
        }
    }
}

/// The bytes of a buffer with the little-endian bytes of `data` ORed in from byte `start`,
/// as far as the buffer reaches.
pub open spec fn or_data(buf: Seq<u8>, start: int, data: u32) -> Seq<u8> {
    Seq::new(
        buf.len(),
        |j: int|
            if start <= j < start + 4 {
                buf[j] | le_byte(data, j - start)
            } else {
                buf[j]
            },
    )
}

/// A buffer with the values of the given fields ORed in, each at the byte of its offset
/// (after `skip` leading bytes).
pub open spec fn or_fields(buf: Seq<u8>, vars: Seq<ReportVariable>, skip: int) -> Seq<u8>
    decreases vars.len(),
{
    if vars.len() == 0 {
        buf
    } else {
        let v = vars[vars.len() - 1];
        or_data(or_fields(buf, vars.subrange(0, vars.len() - 1), skip), skip + v.offset() / 8, v.value())
    }
}

/// The layout of a whole report: an optional ID, then fields at bit offsets.
#[derive(Debug)]
pub struct ReportFormat {
    report_id: Option<ReportId>,
    reports: Vec<ReportVariable>,
    bit_size: u32,
}

impl ReportFormat {
    /// The ID that prefixes the report, if any.
    pub closed spec fn id(self) -> Option<ReportId> {
        self.report_id
    }

    /// The fields, in order.
    pub closed spec fn vars(self) -> Seq<ReportVariable> {
        self.reports@
    }

    /// The number of bits of the report, constant fields included.
    pub closed spec fn total_bits(self) -> u32 {
        self.bit_size
    }

    /// The number of bytes of the report: the ID byte, if any, and the bits rounded up.
    pub open spec fn byte_len(self) -> nat {
        (if self.id() is Some {
            1nat
        } else {
            0nat
        }) + ((self.total_bits() + 7) / 8) as nat
    }

    /// The bytes of the report: the ID first if there is one, then every field's value ORed
    /// in at the byte of its offset.
    pub open spec fn spec_bytes(self) -> Seq<u8> {
        let skip: int = if self.id() is Some {
            1
        } else {
            0
        };
        let blank = Seq::new(
            self.byte_len(),
            |j: int|
                if j == 0 && self.id() is Some {
                    self.id()->0
                } else {
                    0u8
                },
        );
        or_fields(blank, self.vars(), skip)
    }

    /// The number of bits of the report, constant fields included.
    pub fn total_bits_u32(&self) -> (r: u32)
        ensures
            r == self.total_bits(),
    {
        self.bit_size
    }

    /// An empty format without an ID.
    pub fn new() -> (r: Self)
        ensures
            r.id() is None,
            r.vars().len() == 0,
            r.total_bits() == 0,
    {
        ReportFormat { report_id: None, reports: Vec::new(), bit_size: 0 }
    }

    /// An empty format with an ID.
    pub fn new_with_id(report_id: ReportId) -> (r: Self)
        ensures
            r.id() == Some(report_id),
            r.vars().len() == 0,
            r.total_bits() == 0,
    {
        ReportFormat { report_id: Some(report_id), reports: Vec::new(), bit_size: 0 }
    }

    /// An empty format with an optional ID.
    pub fn new_with_opt_id(report_id: Option<ReportId>) -> (r: Self)
        ensures
            r.id() == report_id,
            r.vars().len() == 0,
            r.total_bits() == 0,
    {
        ReportFormat { report_id, reports: Vec::new(), bit_size: 0 }
    }

    /// The ID of this report, if it has one.
    pub fn report_id(&self) -> (r: Option<ReportId>)
        ensures
            r == self.id(),
    {
        self.report_id
    }

    /// This format without an ID.
    pub fn without_report_id(self) -> (r: Self)
        ensures
            r.id() is None,
            r.vars() == self.vars(),
            r.total_bits() == self.total_bits(),
    {
        ReportFormat { report_id: None, reports: self.reports, bit_size: self.bit_size }
    }

    /// This format with the given ID.
    pub fn with_report_id(self, report_id: ReportId) -> (r: Self)
        ensures
            r.id() == Some(report_id),
            r.vars() == self.vars(),
            r.total_bits() == self.total_bits(),
    {
        ReportFormat { report_id: Some(report_id), reports: self.reports, bit_size: self.bit_size }
    }

    /// Add a field of the given size after the current bits. Fails, changing nothing, when the
    /// field would need more than four bytes or the total would pass `u32::MAX`.
    pub fn push_empty(&mut self, bit_size: u32) -> (r: Result<(), TooLargeError>)
        ensures
            final(self).id() == old(self).id(),
            r is Ok <==> bit_size + old(self).total_bits() % 8 <= 32 && old(self).total_bits()
                + bit_size <= u32::MAX,
            r is Ok ==> {
                &&& final(self).total_bits() == old(self).total_bits() + bit_size
                &&& final(self).vars().len() == old(self).vars().len() + 1
                &&& final(self).vars().subrange(0, old(self).vars().len() as int) == old(
                    self,
                ).vars()
                &&& final(self).vars().last().offset() == old(self).total_bits()
                &&& final(self).vars().last().size() == bit_size
                &&& final(self).vars().last().value() == 0
            },
            r is Err ==> final(self).vars() == old(self).vars() && final(self).total_bits() == old(
                self,
            ).total_bits(),
    {
        let bit_offset = self.bit_size;
        if (bit_offset as u64) + (bit_size as u64) > u32::MAX as u64 {
            return Err(TooLargeError {});
        }
        match ReportVariable::new(bit_offset, bit_size) {
            Ok(v) => {
                self.reports.push(v);
                self.bit_size = bit_offset + bit_size;
                Ok(())
            },
            Err(e) => Err(e),
        }
    }

    /// Add constant bits, which hold no field, after the current bits.
    pub fn push_constant(&mut self, bit_size: u32)
        requires
            old(self).total_bits() + bit_size <= u32::MAX,
        ensures
            final(self).id() == old(self).id(),
            final(self).vars() == old(self).vars(),
            final(self).total_bits() == old(self).total_bits() + bit_size,
    {
        self.bit_size = self.bit_size + bit_size;
    }

    /// Lay out the given items after the current bits: a field for each variable item, bits
    /// only for each constant one. Fails when `layout` does.
    pub fn copy_from_iter(self, items: Vec<ReportItem>) -> (r: Result<Self, TooLargeError>)
        ensures
            match layout(self.total_bits(), items@) {
                None => r is Err,
                Some((shapes, total)) => r matches Ok(f) && {
                    &&& f.id() == self.id()
                    &&& f.total_bits() == total
                    &&& f.vars().subrange(0, self.vars().len() as int) == self.vars()
                    &&& f.vars().map_values(|v: ReportVariable| var_shape(v)) == self.vars().map_values(
                        |v: ReportVariable| var_shape(v),
                    ) + shapes
                    &&& forall|k: int|
                        self.vars().len() <= k < f.vars().len() ==> #[trigger] f.vars()[k].value()
                            == 0
                },
            },
    {
        let ghost start = self;
        let mut fmt = self;
        let mut i: usize = 0;
        assert(items@.subrange(0, 0) =~= Seq::<ReportItem>::empty());
        assert(fmt.vars().map_values(|v: ReportVariable| var_shape(v)) =~= start.vars().map_values(
            |v: ReportVariable| var_shape(v),
        ) + Seq::<(u32, u32)>::empty());
        while i < items.len()
            invariant
                0 <= i <= items@.len(),
                start == self,
                fmt.id() == start.id(),
                fmt.vars().subrange(0, start.vars().len() as int) == start.vars(),
                start.vars().len() <= fmt.vars().len(),
                forall|k: int|
                    start.vars().len() <= k < fmt.vars().len() ==> #[trigger] fmt.vars()[k].value()
                        == 0,
                layout(start.total_bits(), items@.subrange(0, i as int)) matches Some((shapes, t))
                    && t == fmt.total_bits() && fmt.vars().map_values(|v: ReportVariable| var_shape(v))
                    == start.vars().map_values(|v: ReportVariable| var_shape(v)) + shapes,
            decreases items@.len() - i,
        {
            let item = items[i];
            let ghost prev = fmt.vars();
            assert(items@.subrange(0, i + 1).subrange(0, i as int) =~= items@.subrange(0, i as int));
            assert(items@.subrange(0, i + 1)[i as int] == item);
            match item.item_type {
                ItemType::Constant => {
                    if (fmt.bit_size as u64) + (item.bit_size as u64) > u32::MAX as u64 {
                        proof {
                            assert(layout(start.total_bits(), items@.subrange(0, i + 1)) is None);
                            lemma_layout_fails_on(start.total_bits(), items@, (i + 1) as int);
                        }
                        return Err(TooLargeError {});
                    }
                    fmt.push_constant(item.bit_size);
                },
                ItemType::Variable => {
                    match fmt.push_empty(item.bit_size) {
                        Ok(()) => {
                            proof {
                                assert(fmt.vars() =~= prev.push(fmt.vars().last()));
                                assert(fmt.vars().map_values(|v: ReportVariable| var_shape(v))
                                    =~= prev.map_values(|v: ReportVariable| var_shape(v)).push(
                                    var_shape(fmt.vars().last()),
                                ));
                                assert(fmt.vars().subrange(0, start.vars().len() as int)
                                    =~= prev.subrange(0, start.vars().len() as int));
                            }
                        },
                        Err(e) => {
                            proof {
                                assert(layout(start.total_bits(), items@.subrange(0, i + 1)) is None);
                                lemma_layout_fails_on(start.total_bits(), items@, (i + 1) as int);
                            }
                            return Err(e);
                        },
                    }
                },
            }
            i = i + 1;
        }
        assert(items@.subrange(0, items@.len() as int) =~= items@);
        Ok(fmt)
    }

    /// The fields, in order.
    pub fn iter(&self) -> (r: &[ReportVariable])
        ensures
            r@ == self.vars(),
    {
        self.reports.as_slice()
    }

    /// The field at `index`, to be filled in.
    pub fn get_mut(&mut self, index: usize) -> (r: &mut ReportVariable)
        requires
            index < old(self).vars().len(),
        ensures
            *r == old(self).vars()[index as int],
            final(self).vars() == old(self).vars().update(index as int, *final(r)),
            final(self).id() == old(self).id(),
            final(self).total_bits() == old(self).total_bits(),
    {
        &mut self.reports[index]
    }

    /// The number of fields.
    pub fn count(&self) -> (r: u32)
        requires
            self.vars().len() <= u32::MAX,
        ensures
            r == self.vars().len(),
    {
        self.reports.len() as u32
    }

    /// Clear every field's value, keeping the layout.
    pub fn clear(&mut self)
        ensures
            final(self).id() == old(self).id(),
            final(self).total_bits() == old(self).total_bits(),
            final(self).vars().len() == old(self).vars().len(),
            forall|k: int|
                0 <= k < old(self).vars().len() ==> var_shape(#[trigger] final(self).vars()[k])
                    == var_shape(old(self).vars()[k]) && final(self).vars()[k].value() == 0,
    {
        let mut i: usize = 0;
        let n = self.reports.len();
        while i < n
            invariant
                n == self.vars().len(),
                n == old(self).vars().len(),
                i <= n,
                self.id() == old(self).id(),
                self.total_bits() == old(self).total_bits(),
                forall|k: int|
                    0 <= k < n ==> var_shape(#[trigger] self.vars()[k]) == var_shape(
                        old(self).vars()[k],
                    ),
                forall|k: int| 0 <= k < i ==> #[trigger] self.vars()[k].value() == 0,
            decreases n - i,
        {
            self.reports[i].clear();
            i = i + 1;
        }
    }

    /// The bytes of the report: the ID byte if there is one, then the bits of the fields, each
    /// field's value ORed in at the byte of its offset so that fields sharing a byte keep each
    /// other's bits. Unfilled fields read as zero.
    pub fn into_bytes(self) -> (r: Vec<u8>)
        ensures
            r@ == self.spec_bytes(),
    {
        let id_size: usize = if self.report_id.is_some() {
            1
        } else {
            0
        };
        let size_in_bytes: usize = id_size + ((self.bit_size as u64 + 7) / 8) as usize;
        let mut storage: Vec<u8> = Vec::new();
        let mut j: usize = 0;
        while j < size_in_bytes
            invariant
                j <= size_in_bytes,
                storage@.len() == j,
                forall|k: int| 0 <= k < j ==> #[trigger] storage@[k] == 0,
            decreases size_in_bytes - j,
        {
            storage.push(0);
            j = j + 1;
        }
        if let Some(report_id) = self.report_id {
            storage.set(0, report_id);
        }
        let ghost skip: int = id_size as int;
        assert(storage@ =~= Seq::new(
            self.byte_len(),
            |j: int|
                if j == 0 && self.id() is Some {
                    self.id()->0
                } else {
                    0u8
                },
        ));
        let ghost blank = storage@;
        let mut i: usize = 0;
        assert(self.vars().subrange(0, 0) =~= Seq::<ReportVariable>::empty());
        while i < self.reports.len()
            invariant
                i <= self.vars().len(),
                storage@.len() == size_in_bytes,
                id_size == skip,
                id_size <= 1,
                storage@ == or_fields(blank, self.vars().subrange(0, i as int), skip),
            decreases self.vars().len() - i,
        {
            let report_data = self.reports[i].data();
            let start: u64 = id_size as u64 + (self.reports[i].bit_offset() / 8) as u64;
            let end: u64 = if start + 4 < size_in_bytes as u64 {
                start + 4
            } else {
                size_in_bytes as u64
            };
            let ghost before = storage@;
            let mut j: u64 = start;
            while j < end
                invariant
                    start <= j,
                    j <= end || j == start,
                    end <= size_in_bytes,
                    storage@.len() == size_in_bytes,
                    end <= start + 4 || end == size_in_bytes,
                    forall|k: int|
                        0 <= k < size_in_bytes ==> #[trigger] storage@[k] == if start <= k < j {
                            before[k] | le_byte(report_data, k - start)
                        } else {
                            before[k]
                        },
                decreases end - j,
            {
                let b = storage[j as usize] | byte_of(report_data, (j - start) as usize);
                storage.set(j as usize, b);
                j = j + 1;
            }
            proof {
                let vs = self.vars().subrange(0, i + 1);
                assert(vs.subrange(0, i as int) =~= self.vars().subrange(0, i as int));
                assert(vs[i as int] == self.vars()[i as int]);
                assert(storage@ =~= or_data(before, start as int, report_data));
            }
            i = i + 1;
        }
        assert(self.vars().subrange(0, self.vars().len() as int) =~= self.vars());
        storage
    }
}

/// Once a prefix of the items cannot be laid out, neither can the whole.
proof fn lemma_layout_fails_on(total: u32, items: Seq<ReportItem>, n: int)
    requires
        0 <= n <= items.len(),
        layout(total, items.subrange(0, n)) is None,
    ensures
        layout(total, items) is None,
    decreases items.len() - n,
{
    if n < items.len() {
        assert(items.subrange(0, n + 1).subrange(0, n) =~= items.subrange(0, n));
        lemma_layout_fails_on(total, items, n + 1);
    } else {
        assert(items.subrange(0, n) =~= items);
    }
}

/// The low `n` bits of `x` read as `n`-bit two's complement.
pub open spec fn sign_extend(x: int, n: nat) -> int {
    let m = x % (pow2(n) as int);
    if m >= pow2(n) / 2 {
        m - pow2(n)
    } else {
        m
    }
}

/// Signed round trip: every `v` of `n`-bit two's complement (`n` from 1 to 32) is accepted by
/// `set_signed`, and the staged value, shifted back down and read as `n`-bit two's
/// complement, is `v` again, whatever the offset within the byte.
pub proof fn lemma_set_signed_round_trip(v: int, n: nat, shift: nat)
    requires
        1 <= n <= 32,
        -(pow2(n) as int / 2) <= v < pow2(n) as int / 2,
    ensures
        signed_fits(v, n),
        sign_extend((signed_field_bits(v, n) * pow2(shift)) / (pow2(shift) as int), n) == v,
{
    lemma_pow2_pos(n);
    lemma_pow2_pos(shift);
    let x = signed_field_bits(v, n);
    assert(0 <= x < pow2(n));
    lemma_div_by_multiple(x, pow2(shift) as int);
    lemma_small_mod(x as nat, pow2(n));
}

/// A value one bit too wide is refused: from `2^n / 2` up to `2^n - 1`, or from `-2^n` up to
/// `-2^n / 2 - 1`.
pub proof fn lemma_set_signed_rejects_wider(v: int, n: nat)
    requires
        1 <= n <= 32,
        (pow2(n) as int / 2 <= v < pow2(n)) || (-(pow2(n) as int) <= v < -(pow2(n) as int / 2)),
    ensures
        !signed_fits(v, n),
{
}

} // verus!
