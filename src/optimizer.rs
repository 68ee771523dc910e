//! Removal of global items that repeat the value already in force.
use vstd::prelude::*;
use vstd::std_specs::cmp::PartialEqSpec;
use crate::field_types::{
    LogicalValue, PhysicalValue, ReportCount, ReportId, ReportSize, Unit, UnitExponent,
};
use crate::tag::{Tag, TagType};
use crate::usage::UsagePage;

verus! {

/// Store `value` in `opt`; report whether it differs from what was there.
fn replace_option_bool<T: PartialEq + PartialEqSpec>(opt: &mut Option<T>, value: T) -> (r: bool)
    requires
        T::obeys_eq_spec(),
    ensures
        *final(opt) == Some(value),
        r == match *old(opt) {
            Some(t) => !t.eq_spec(&value),
            None => true,
        },
{
    let item_is_new = match opt.as_ref() {
        Some(t) => !t.eq(&value),
        None => true,
    };
    *opt = Some(value);
    item_is_new
}

/// The state of every global item that has been seen, one slot per kind.
#[derive(Copy, Clone, Debug, PartialEq, Eq)]
pub struct GlobalTable {
    pub usage_page: Option<UsagePage>,
    pub logical_minimum: Option<LogicalValue>,
    pub logical_maximum: Option<LogicalValue>,
    pub physical_minimum: Option<PhysicalValue>,
    pub physical_maximum: Option<PhysicalValue>,
    pub unit_exponent: Option<UnitExponent>,
    pub unit: Option<Unit>,
    pub report_size: Option<ReportSize>,
    pub report_id: Option<ReportId>,
    pub report_count: Option<ReportCount>,
}

/// A global tag that has a slot in the table: every global kind but Push and Pop.
pub open spec fn is_table_tag(t: Tag) -> bool {
    t.spec_tag_type() == TagType::Global && !(t is Push) && !(t is Pop)
}

/// Whether a tag's value differs from its slot in the table (always, for a tag without one).
pub open spec fn tag_is_new(tbl: GlobalTable, t: Tag) -> bool {
    match t {
        Tag::UsagePage(v) => tbl.usage_page != Some(v),
        Tag::LogicalMinimum(v) => tbl.logical_minimum != Some(v),
        Tag::LogicalMaximum(v) => tbl.logical_maximum != Some(v),
        Tag::PhysicalMinimum(v) => tbl.physical_minimum != Some(v),
        Tag::PhysicalMaximum(v) => tbl.physical_maximum != Some(v),
        Tag::UnitExponent(v) => tbl.unit_exponent != Some(v),
        Tag::Unit(v) => tbl.unit != Some(v),
        Tag::ReportSize(v) => tbl.report_size != Some(v),
        Tag::ReportId(v) => tbl.report_id != Some(v),
        Tag::ReportCount(v) => tbl.report_count != Some(v),
        _ => true,
    }
}

/// The table after a tag: its slot holds the tag's value (unchanged, for a tag without one).
pub open spec fn table_set(tbl: GlobalTable, t: Tag) -> GlobalTable {
    match t {
        Tag::UsagePage(v) => GlobalTable { usage_page: Some(v), ..tbl },
        Tag::LogicalMinimum(v) => GlobalTable { logical_minimum: Some(v), ..tbl },
        Tag::LogicalMaximum(v) => GlobalTable { logical_maximum: Some(v), ..tbl },
        Tag::PhysicalMinimum(v) => GlobalTable { physical_minimum: Some(v), ..tbl },
        Tag::PhysicalMaximum(v) => GlobalTable { physical_maximum: Some(v), ..tbl },
        Tag::UnitExponent(v) => GlobalTable { unit_exponent: Some(v), ..tbl },
        Tag::Unit(v) => GlobalTable { unit: Some(v), ..tbl },
        Tag::ReportSize(v) => GlobalTable { report_size: Some(v), ..tbl },
        Tag::ReportId(v) => GlobalTable { report_id: Some(v), ..tbl },
        Tag::ReportCount(v) => GlobalTable { report_count: Some(v), ..tbl },
        _ => tbl,
    }
}

/// A table in which no global item has been seen.
pub open spec fn empty_table() -> GlobalTable {
    GlobalTable {
        usage_page: None,
        logical_minimum: None,
        logical_maximum: None,
        physical_minimum: None,
        physical_maximum: None,
        unit_exponent: None,
        unit: None,
        report_size: None,
        report_id: None,
        report_count: None,
    }
}

/// The tags that survive, scanning from a table: a global tag equal to its slot is dropped;
/// every other tag is kept and updates the table. Push and Pop are kept and change nothing.
pub open spec fn dedup_from(tbl: GlobalTable, s: Seq<Tag>) -> Seq<Tag>
    decreases s.len(),
{
    if s.len() == 0 {
        Seq::empty()
    } else {
        let t = s[0];
        let rest = s.subrange(1, s.len() as int);
        if is_table_tag(t) && !tag_is_new(tbl, t) {
            dedup_from(tbl, rest)
        } else {
            seq![t] + dedup_from(table_set(tbl, t), rest)
        }
    }
}

/// The tags that survive redundant-global elimination from an empty table.
pub open spec fn remove_redundant_globals(s: Seq<Tag>) -> Seq<Tag> {
    dedup_from(empty_table(), s)
}

impl GlobalTable {
    /// A table in which no global item has been seen.
    pub fn new() -> (r: Self)
        ensures
            r == empty_table(),
    {
        GlobalTable {
            usage_page: None,
            logical_minimum: None,
            logical_maximum: None,
            physical_minimum: None,
            physical_maximum: None,
            unit_exponent: None,
            unit: None,
            report_size: None,
            report_id: None,
            report_count: None,
        }
    }

    /// Record a global tag in its slot; returns whether its value differed from the slot.
    pub fn set_tag(&mut self, tag: Tag) -> (r: bool)
        requires
            is_table_tag(tag),
        ensures
            r == tag_is_new(*old(self), tag),
            *final(self) == table_set(*old(self), tag),
    {
        match tag {
            Tag::UsagePage(v) => replace_option_bool(&mut self.usage_page, v),
            Tag::LogicalMinimum(v) => replace_option_bool(&mut self.logical_minimum, v),
            Tag::LogicalMaximum(v) => replace_option_bool(&mut self.logical_maximum, v),
            Tag::PhysicalMinimum(v) => replace_option_bool(&mut self.physical_minimum, v),
            Tag::PhysicalMaximum(v) => replace_option_bool(&mut self.physical_maximum, v),
            Tag::UnitExponent(v) => replace_option_bool(&mut self.unit_exponent, v),
            Tag::Unit(v) => replace_option_bool(&mut self.unit, v),
            Tag::ReportSize(v) => replace_option_bool(&mut self.report_size, v),
            Tag::ReportId(v) => replace_option_bool(&mut self.report_id, v),
            Tag::ReportCount(v) => replace_option_bool(&mut self.report_count, v),
            _ => false,
        }
    }
}

/// Eliminating redundant globals a second time, from the same table, changes nothing.
pub proof fn lemma_dedup_from_idempotent(tbl: GlobalTable, s: Seq<Tag>)
    ensures
        dedup_from(tbl, dedup_from(tbl, s)) == dedup_from(tbl, s),
    decreases s.len(),
{
    if s.len() > 0 {
        let t = s[0];
        let rest = s.subrange(1, s.len() as int);
        if is_table_tag(t) && !tag_is_new(tbl, t) {
            lemma_dedup_from_idempotent(tbl, rest);
        } else {
            let t1 = table_set(tbl, t);
            lemma_dedup_from_idempotent(t1, rest);
            let o = seq![t] + dedup_from(t1, rest);
            assert(o[0] == t);
            assert(o.subrange(1, o.len() as int) =~= dedup_from(t1, rest));
        }
    }
}

/// Redundant-global elimination is idempotent: running it on its own output gives that
/// output back, since no redundant global is left.
pub proof fn lemma_remove_duplicates_idempotent(tags: Seq<Tag>)
    ensures
        remove_redundant_globals(remove_redundant_globals(tags)) == remove_redundant_globals(tags),
{
    lemma_dedup_from_idempotent(empty_table(), tags);
}

/// Whether a tag has no slot in the table: a Main or Local item, Push or Pop.
pub open spec fn is_kept_kind(t: Tag) -> bool {
    !is_table_tag(t)
}

proof fn lemma_dedup_from_keeps_others(tbl: GlobalTable, s: Seq<Tag>)
    ensures
        dedup_from(tbl, s).filter(|t: Tag| is_kept_kind(t)) == s.filter(|t: Tag| is_kept_kind(t)),
    decreases s.len(),
{
    let p = |t: Tag| is_kept_kind(t);
    if s.len() > 0 {
        let t = s[0];
        let rest = s.subrange(1, s.len() as int);
        assert(s =~= seq![t] + rest);
        Seq::filter_distributes_over_add(seq![t], rest, p);
        reveal_with_fuel(Seq::filter, 2);
        assert(seq![t].drop_last() =~= Seq::<Tag>::empty());
        if is_table_tag(t) && !tag_is_new(tbl, t) {
            lemma_dedup_from_keeps_others(tbl, rest);
            assert(seq![t].filter(p) =~= Seq::<Tag>::empty());
            assert(s.filter(p) =~= rest.filter(p));
        } else {
            let t1 = table_set(tbl, t);
            lemma_dedup_from_keeps_others(t1, rest);
            Seq::filter_distributes_over_add(seq![t], dedup_from(t1, rest), p);
        }
    } else {
        reveal_with_fuel(Seq::filter, 1);
    }
}

/// Main and Local items, Push and Pop are all kept, in their order: only global items with a
/// slot in the table are ever removed.
pub proof fn lemma_remove_duplicates_keeps_others(tags: Seq<Tag>)
    ensures
        remove_redundant_globals(tags).filter(|t: Tag| is_kept_kind(t)) == tags.filter(
            |t: Tag| is_kept_kind(t),
        ),
{
    lemma_dedup_from_keeps_others(empty_table(), tags);
}

/// A list of tags from which redundant global items can be removed.
#[derive(Clone, Debug)]
pub struct TagOptimizer(Vec<Tag>);

impl View for TagOptimizer {
    type V = Seq<Tag>;

    closed spec fn view(&self) -> Seq<Tag> {
        self.0@
    }
}

impl TagOptimizer {
    /// An optimizer over the given tags.
    pub fn from_iter(tags: Vec<Tag>) -> (r: Self)
        ensures
            r@ == tags@,
    {
        TagOptimizer(tags)
    }

    /// The tags, in order.
    pub fn into_iter(self) -> (r: Vec<Tag>)
        ensures
            r@ == self@,
    {
        self.0
    }

    /// Remove every global item whose value repeats the one in force. Push and Pop are kept
    /// and do not save or restore the table.
    pub fn remove_duplicates(self) -> (r: Self)
        ensures
            r@ == remove_redundant_globals(self@),
    {
        let tags = self.0;
        let mut global_table = GlobalTable::new();
        let mut kept: Vec<Tag> = Vec::new();
        let mut i: usize = 0;
        assert(tags@.subrange(0, tags@.len() as int) =~= tags@);
        while i < tags.len()
            invariant
                0 <= i <= tags@.len(),
                kept@ + dedup_from(global_table, tags@.subrange(i as int, tags@.len() as int))
                    == remove_redundant_globals(tags@),
            decreases tags@.len() - i,
        {
            let tag = tags[i];
            let ghost tbl = global_table;
            let ghost s = tags@.subrange(i as int, tags@.len() as int);
            let keep = match tag.tag_type() {
                TagType::Global => match tag {
                    Tag::Push | Tag::Pop => true,
                    _ => global_table.set_tag(tag),
                },
                _ => true,
            };
            proof {
                assert(s[0] == tag);
                assert(s.subrange(1, s.len() as int) =~= tags@.subrange(i + 1, tags@.len() as int));
                if !is_table_tag(tag) {
                    assert(global_table == tbl);
                    assert(table_set(tbl, tag) == tbl);
                }
            }
            if keep {
                kept.push(tag);
                assert(kept@ + dedup_from(global_table, tags@.subrange(i + 1, tags@.len() as int))
                    =~= remove_redundant_globals(tags@));
            }
            i = i + 1;
        }
        assert(tags@.subrange(i as int, tags@.len() as int) =~= Seq::<Tag>::empty());
        assert(kept@ =~= remove_redundant_globals(tags@));
        TagOptimizer(kept)
    }
}

} // verus!
