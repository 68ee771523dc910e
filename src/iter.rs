//! Walking the reports of collections, and the report formats and IDs derived from them.
use vstd::prelude::*;
use crate::collection::{Collection, CollectionItem};
use crate::error::MissingIdError;
use crate::field_types::ReportId;
use crate::format::{layout, var_shape, ReportFormat, ReportItem, ReportVariable, TooLargeError};
use crate::report::{Report, ReportType};

verus! {

/// The reports of a collection item, depth first and in order.
pub open spec fn item_reports(item: CollectionItem) -> Seq<Report>
    decreases item,
{
    match item {
        CollectionItem::Report(r) => seq![r],
        CollectionItem::Collection(c) => reports_in(c.items@),
    }
}

/// The reports of a sequence of collection items, one item after the other.
pub open spec fn reports_in(s: Seq<CollectionItem>) -> Seq<Report>
    decreases s,
{
    if s.len() == 0 {
        Seq::empty()
    } else {
        item_reports(s[0]) + reports_in(s.subrange(1, s.len() as int))
    }
}

/// The reports of a sequence of collections, one collection after the other.
pub open spec fn collections_reports(cs: Seq<Collection>) -> Seq<Report>
    decreases cs.len(),
{
    if cs.len() == 0 {
        Seq::empty()
    } else {
        reports_in(cs[0].items@) + collections_reports(cs.subrange(1, cs.len() as int))
    }
}

/// The number of nodes of an item tree.
pub open spec fn item_size(item: CollectionItem) -> nat
    decreases item,
{
    match item {
        CollectionItem::Report(_) => 1,
        CollectionItem::Collection(c) => 1 + items_size(c.items@),
    }
}

/// The number of nodes of a sequence of item trees.
pub open spec fn items_size(s: Seq<CollectionItem>) -> nat
    decreases s,
{
    if s.len() == 0 {
        0
    } else {
        item_size(s[0]) + items_size(s.subrange(1, s.len() as int))
    }
}

/// One level of a depth-first walk: a list of items and the position of the next one.
#[derive(Copy, Clone)]
pub struct ReportFrame<'a> {
    pub items: &'a [CollectionItem],
    pub next: usize,
}

/// The items a frame has still to visit.
pub open spec fn frame_rest<'a>(f: ReportFrame<'a>) -> Seq<CollectionItem> {
    f.items@.subrange(f.next as int, f.items@.len() as int)
}

/// The reports that a stack of frames has still to produce, top of the stack (last) first.
pub open spec fn frames_reports<'a>(fs: Seq<ReportFrame<'a>>) -> Seq<Report>
    decreases fs.len(),
{
    if fs.len() == 0 {
        Seq::empty()
    } else {
        reports_in(frame_rest(fs[fs.len() - 1])) + frames_reports(fs.subrange(0, fs.len() - 1))
    }
}

/// The number of nodes that a stack of frames has still to visit.
pub open spec fn frames_size<'a>(fs: Seq<ReportFrame<'a>>) -> nat
    decreases fs.len(),
{
    if fs.len() == 0 {
        0
    } else {
        items_size(frame_rest(fs[fs.len() - 1])) + frames_size(fs.subrange(0, fs.len() - 1))
    }
}

proof fn lemma_frames_push<'a>(fs: Seq<ReportFrame<'a>>, f: ReportFrame<'a>)
    ensures
        frames_reports(fs.push(f)) == reports_in(frame_rest(f)) + frames_reports(fs),
        frames_size(fs.push(f)) == items_size(frame_rest(f)) + frames_size(fs),
{
    assert(fs.push(f).subrange(0, fs.len() as int) =~= fs);
}

/// A depth-first walk over the reports of collections, with an explicit stack of frames in
/// place of recursion, so that deep nesting does not grow the call stack.
pub struct ReportIter<'a> {
    frames: Vec<ReportFrame<'a>>,
}

impl<'a> ReportIter<'a> {
    /// Every frame's position lies within its list.
    pub closed spec fn wf(&self) -> bool {
        forall|i: int|
            0 <= i < self.frames@.len() ==> #[trigger] self.frames@[i].next
                <= self.frames@[i].items@.len()
    }

    /// The reports still to come, in order.
    pub closed spec fn remaining(&self) -> Seq<Report> {
        frames_reports(self.frames@)
    }

    /// A walk over the reports of a collection.
    pub fn over(collection: &'a Collection) -> (r: Self)
        ensures
            r.wf(),
            r.remaining() == reports_in(collection.items@),
    {
        let mut frames: Vec<ReportFrame<'a>> = Vec::new();
        let f = ReportFrame { items: collection.items.as_slice(), next: 0 };
        frames.push(f);
        proof {
            lemma_frames_push(Seq::<ReportFrame<'a>>::empty(), f);
            assert(frames@ =~= Seq::<ReportFrame<'a>>::empty().push(f));
            assert(frame_rest(f) =~= collection.items@);
        }
        ReportIter { frames }
    }

    /// A walk over the reports of several collections, one after the other.
    pub fn over_all(collections: &'a [Collection]) -> (r: Self)
        ensures
            r.wf(),
            r.remaining() == collections_reports(collections@),
    {
        let mut frames: Vec<ReportFrame<'a>> = Vec::new();
        let mut k: usize = collections.len();
        let ghost n = collections@.len() as int;
        assert(collections@.subrange(n, n) =~= Seq::<Collection>::empty());
        while k > 0
            invariant
                k <= n,
                n == collections@.len(),
                forall|i: int|
                    0 <= i < frames@.len() ==> #[trigger] frames@[i].next
                        <= frames@[i].items@.len(),
                frames_reports(frames@) == collections_reports(collections@.subrange(k as int, n)),
            decreases k,
        {
            let c = &collections[k - 1];
            let f = ReportFrame { items: c.items.as_slice(), next: 0 };
            let ghost fs = frames@;
            frames.push(f);
            proof {
                lemma_frames_push(fs, f);
                assert(frame_rest(f) =~= c.items@);
                let cs = collections@.subrange(k - 1, n);
                assert(cs[0] == *c);
                assert(cs.subrange(1, cs.len() as int) =~= collections@.subrange(k as int, n));
            }
            k = k - 1;
        }
        assert(collections@.subrange(0, n) =~= collections@);
        ReportIter { frames }
    }

    /// The next report, or `None` once every report has been produced.
    pub fn next(&mut self) -> (r: Option<&'a Report>)
        requires
            old(self).wf(),
        ensures
            final(self).wf(),
            match r {
                None => old(self).remaining().len() == 0 && final(self).remaining().len() == 0,
                Some(rep) => old(self).remaining() == seq![*rep] + final(self).remaining(),
            },
    {
        loop
            invariant
                self.wf(),
                self.remaining() == old(self).remaining(),
            decreases 2 * frames_size(self.frames@) + self.frames@.len(),
        {
            let n = self.frames.len();
            if n == 0 {
                return None;
            }
            let f = self.frames[n - 1];
            let ghost fs = self.frames@;
            let ghost rest = fs.subrange(0, n - 1);
            proof {
                assert(fs =~= rest.push(f));
                lemma_frames_push(rest, f);
            }
            if f.next >= f.items.len() {
                self.frames.pop();
                proof {
                    assert(frame_rest(f) =~= Seq::<CollectionItem>::empty());
                    assert(self.frames@ =~= rest);
                    assert(reports_in(Seq::<CollectionItem>::empty()) == Seq::<Report>::empty());
                    assert(items_size(Seq::<CollectionItem>::empty()) == 0);
                }
            } else {
                let item = &f.items[f.next];
                let f1 = ReportFrame { items: f.items, next: f.next + 1 };
                self.frames.set(n - 1, f1);
                let ghost s = frame_rest(f);
                proof {
                    assert(s[0] == *item);
                    assert(s.subrange(1, s.len() as int) =~= frame_rest(f1));
                    assert(self.frames@ =~= rest.push(f1));
                    lemma_frames_push(rest, f1);
                    assert(reports_in(s) == item_reports(*item) + reports_in(frame_rest(f1)));
                    assert(items_size(s) == item_size(*item) + items_size(frame_rest(f1)));
                }
                match item {
                    CollectionItem::Report(report) => {
                        proof {
                            assert(old(self).remaining() =~= seq![*report] + self.remaining());
                        }
                        return Some(report);
                    },
                    CollectionItem::Collection(collection) => {
                        let ghost fs1 = self.frames@;
                        let child = ReportFrame { items: collection.items.as_slice(), next: 0 };
                        self.frames.push(child);
                        proof {
                            assert(self.frames@ =~= fs1.push(child));
                            lemma_frames_push(fs1, child);
                            assert(frame_rest(child) =~= collection.items@);
                            assert(self.remaining() =~= old(self).remaining());
                        }
                    },
                }
            }
        }
    }
}

/// `count` copies of the field of a report.
pub open spec fn report_fields(r: Report, count: nat) -> Seq<ReportItem> {
    Seq::new(count, |k: int| ReportItem::spec_from_report(r))
}

/// Whether a report has the given type and exactly the given ID (or, with `None`, none).
pub open spec fn report_matches(r: Report, ty: ReportType, id: Option<ReportId>) -> bool {
    r.main.report_type == ty && r.report_id == id
}

/// The fields of the reports of a type and ID: each matching report's field, as many times
/// as its report count, in order.
pub open spec fn format_items(reports: Seq<Report>, ty: ReportType, id: Option<ReportId>) -> Seq<
    ReportItem,
>
    decreases reports.len(),
{
    if reports.len() == 0 {
        Seq::empty()
    } else {
        let r = reports[reports.len() - 1];
        format_items(reports.subrange(0, reports.len() - 1), ty, id) + if report_matches(r, ty, id) {
            report_fields(r, r.report_count as nat)
        } else {
            Seq::empty()
        }
    }
}

/// The outcome of building the format of the reports of a type and ID: the fields that
/// `layout` gives from bit zero, every value zero, and the ID; an error when `layout` fails.
pub open spec fn format_result(
    reports: Seq<Report>,
    ty: ReportType,
    id: Option<ReportId>,
    r: Result<ReportFormat, TooLargeError>,
) -> bool {
    match layout(0, format_items(reports, ty, id)) {
        None => r is Err,
        Some((shapes, total)) => r matches Ok(f) && {
            &&& f.id() == id
            &&& f.total_bits() == total
            &&& f.vars().map_values(|v: ReportVariable| var_shape(v)) == shapes
            &&& forall|k: int| 0 <= k < f.vars().len() ==> #[trigger] f.vars()[k].value() == 0
        },
    }
}

proof fn lemma_format_items_concat(
    a: Seq<Report>,
    b: Seq<Report>,
    ty: ReportType,
    id: Option<ReportId>,
)
    ensures
        format_items(a + b, ty, id) == format_items(a, ty, id) + format_items(b, ty, id),
    decreases b.len(),
{
    if b.len() == 0 {
        assert(a + b =~= a);
        assert(format_items(a, ty, id) + format_items(b, ty, id) =~= format_items(a, ty, id));
    } else {
        let b0 = b.subrange(0, b.len() - 1);
        lemma_format_items_concat(a, b0, ty, id);
        assert((a + b).subrange(0, (a + b).len() - 1) =~= a + b0);
        assert((a + b)[(a + b).len() - 1] == b[b.len() - 1]);
        let r = b[b.len() - 1];
        let tail = if report_matches(r, ty, id) {
            report_fields(r, r.report_count as nat)
        } else {
            Seq::<ReportItem>::empty()
        };
        assert(format_items(a + b, ty, id) =~= format_items(a, ty, id) + format_items(b0, ty, id)
            + tail);
    }
}

proof fn lemma_format_items_push(done: Seq<Report>, r: Report, ty: ReportType, id: Option<ReportId>)
    ensures
        format_items(done.push(r), ty, id) == format_items(done, ty, id) + if report_matches(
            r,
            ty,
            id,
        ) {
            report_fields(r, r.report_count as nat)
        } else {
            Seq::empty()
        },
{
    let d1 = done.push(r);
    assert(d1.subrange(0, d1.len() - 1) =~= done);
}

/// Once the first items cannot be laid out, no extension of them can.
proof fn lemma_layout_none_extends(total: u32, a: Seq<ReportItem>, b: Seq<ReportItem>)
    requires
        layout(total, a) is None,
    ensures
        layout(total, a + b) is None,
    decreases b.len(),
{
    if b.len() == 0 {
        assert(a + b =~= a);
    } else {
        let b0 = b.subrange(0, b.len() - 1);
        lemma_layout_none_extends(total, a, b0);
        assert((a + b).subrange(0, (a + b).len() - 1) =~= a + b0);
    }
}

/// Build the format of the reports of a walk that have the given type and ID.
fn report_format_from<'a>(walk: ReportIter<'a>, ty: ReportType, report_id: Option<ReportId>) -> (r:
    Result<ReportFormat, TooLargeError>)
    requires
        walk.wf(),
    ensures
        format_result(walk.remaining(), ty, report_id, r),
{
    let ghost all = walk.remaining();
    let mut it = walk;
    let mut fmt = ReportFormat::new_with_opt_id(report_id);
    let ghost mut done: Seq<Report> = Seq::empty();
    assert(fmt.vars().map_values(|v: ReportVariable| var_shape(v)) =~= Seq::<(u32, u32)>::empty());
    loop
        invariant
            it.wf(),
            all == walk.remaining(),
            done + it.remaining() == all,
            fmt.id() == report_id,
            forall|k: int| 0 <= k < fmt.vars().len() ==> #[trigger] fmt.vars()[k].value() == 0,
            layout(0, format_items(done, ty, report_id)) matches Some((shapes, t)) && t
                == fmt.total_bits() && fmt.vars().map_values(|v: ReportVariable| var_shape(v))
                == shapes,
        decreases it.remaining().len(),
    {
        let ghost before = it.remaining();
        match it.next() {
            None => {
                assert(done =~= all);
                return Ok(fmt);
            },
            Some(report) => {
                let ghost prefix = format_items(done, ty, report_id);
                proof {
                    let d1 = done.push(*report);
                    assert(d1.subrange(0, d1.len() - 1) =~= done);
                    assert(d1 + it.remaining() =~= all);
                    lemma_format_items_push(done, *report, ty, report_id);
                }
                if report.report_type() == ty && report.report_id == report_id {
                    let item = ReportItem::from_report(report);
                    let count = report.report_count;
                    let mut j: u32 = 0;
                    assert(prefix + report_fields(*report, 0) =~= prefix);
                    while j < count
                        invariant
                            j <= count,
                            count == report.report_count,
                            report_matches(*report, ty, report_id),
                            prefix == format_items(done, ty, report_id),
                            done.push(*report) + it.remaining() == all,
                            all == walk.remaining(),
                            item == ReportItem::spec_from_report(*report),
                            fmt.id() == report_id,
                            forall|k: int|
                                0 <= k < fmt.vars().len() ==> #[trigger] fmt.vars()[k].value() == 0,
                            layout(0, prefix + report_fields(*report, j as nat)) matches Some(
                                (shapes, t),
                            ) && t == fmt.total_bits() && fmt.vars().map_values(
                                |v: ReportVariable| var_shape(v),
                            ) == shapes,
                        decreases count - j,
                    {
                        let ghost cur = prefix + report_fields(*report, j as nat);
                        let ghost next_items = prefix + report_fields(*report, (j + 1) as nat);
                        let ghost prev = fmt.vars();
                        proof {
                            assert(next_items.subrange(0, next_items.len() - 1) =~= cur);
                            assert(next_items[next_items.len() - 1] == item);
                        }
                        let failed = match item.item_type {
                            crate::format::ItemType::Constant => {
                                if (fmt.total_bits_u32() as u64) + (item.bit_size as u64)
                                    > u32::MAX as u64 {
                                    true
                                } else {
                                    fmt.push_constant(item.bit_size);
                                    false
                                }
                            },
                            crate::format::ItemType::Variable => {
                                match fmt.push_empty(item.bit_size) {
                                    Ok(()) => {
                                        proof {
                                            assert(fmt.vars() =~= prev.push(fmt.vars().last()));
                                            assert(fmt.vars().map_values(
                                                |v: ReportVariable| var_shape(v),
                                            ) =~= prev.map_values(
                                                |v: ReportVariable| var_shape(v),
                                            ).push(var_shape(fmt.vars().last())));
                                        }
                                        false
                                    },
                                    Err(_) => true,
                                }
                            },
                        };
                        if failed {
                            proof {
                                assert(layout(0, next_items) is None);
                                let rest_items = report_fields(*report, (count - j - 1) as nat)
                                    + format_items(it.remaining(), ty, report_id);
                                lemma_layout_none_extends(0, next_items, rest_items);
                                lemma_format_items_concat(done.push(*report), it.remaining(), ty, report_id);
                                lemma_format_items_push(done, *report, ty, report_id);
                                assert(report_fields(*report, (j + 1) as nat) + report_fields(
                                    *report,
                                    (count - j - 1) as nat,
                                ) =~= report_fields(*report, count as nat));
                                assert(format_items(done.push(*report), ty, report_id) == prefix
                                    + report_fields(*report, count as nat));
                                assert(next_items + rest_items =~= format_items(all, ty, report_id));
                            }
                            return Err(TooLargeError {});
                        }
                        j = j + 1;
                    }
                    proof {
                        assert(format_items(done.push(*report), ty, report_id) == prefix
                            + report_fields(*report, count as nat));
                    }
                } else {
                    proof {
                        assert(format_items(done.push(*report), ty, report_id) =~= prefix);
                    }
                }
                proof {
                    done = done.push(*report);
                }
            },
        }
    }
}

/// Add `item` to `vec` unless it is there already.
fn fold_unique(seen: Vec<Option<ReportId>>, item: Option<ReportId>) -> (r: Vec<
    Option<ReportId>,
>)
    ensures
        r@ == if seen@.contains(item) {
            seen@
        } else {
            seen@.push(item)
        },
{
    let mut vec = seen;
    let mut i: usize = 0;
    while i < vec.len()
        invariant
            i <= vec@.len(),
            vec@ == seen@,
            forall|k: int| 0 <= k < i ==> vec@[k] != item,
        decreases vec@.len() - i,
    {
        let same = match (vec[i], item) {
            (Some(a), Some(b)) => a == b,
            (None, None) => true,
            _ => false,
        };
        if same {
            assert(vec@[i as int] == item);
            assert(vec@.contains(item));
            return vec;
        }
        i = i + 1;
    }
    vec.push(item);
    vec
}

/// The distinct IDs of the input reports, in the order first seen (`None` for no ID).
pub open spec fn input_id_options(reports: Seq<Report>) -> Seq<Option<ReportId>>
    decreases reports.len(),
{
    if reports.len() == 0 {
        Seq::empty()
    } else {
        let acc = input_id_options(reports.subrange(0, reports.len() - 1));
        let r = reports[reports.len() - 1];
        if r.main.report_type == ReportType::Input && !acc.contains(r.report_id) {
            acc.push(r.report_id)
        } else {
            acc
        }
    }
}

/// The IDs of the input reports: none when no input report has one, the distinct IDs in the
/// order first seen when all of them have one, and an error when some have one and some not.
pub open spec fn spec_input_ids(reports: Seq<Report>) -> Result<Seq<ReportId>, MissingIdError> {
    let u = input_id_options(reports);
    if u.len() == 1 && u[0] is None {
        Ok(Seq::empty())
    } else if forall|k: int| 0 <= k < u.len() ==> #[trigger] u[k] is Some {
        Ok(u.map_values(|o: Option<ReportId>| o->0))
    } else {
        Err(MissingIdError {})
    }
}

/// Whether a report is an input report with the given ID option.
pub open spec fn input_with_id(r: Report, id: Option<ReportId>) -> bool {
    r.main.report_type == ReportType::Input && r.report_id == id
}

/// The ID options collected from the input reports are distinct, and are exactly those that
/// some input report has.
pub proof fn lemma_input_id_options(reports: Seq<Report>)
    ensures
        input_id_options(reports).no_duplicates(),
        forall|o: Option<ReportId>|
            #[trigger] input_id_options(reports).contains(o) <==> exists|i: int|
                0 <= i < reports.len() && #[trigger] input_with_id(reports[i], o),
    decreases reports.len(),
{
    if reports.len() > 0 {
        let n = reports.len() - 1;
        let init = reports.subrange(0, n);
        let acc = input_id_options(init);
        let r = reports[n];
        lemma_input_id_options(init);
        let res = input_id_options(reports);
        let added = r.main.report_type == ReportType::Input && !acc.contains(r.report_id);
        assert(res == if added {
            acc.push(r.report_id)
        } else {
            acc
        });
        assert forall|o: Option<ReportId>|
            #[trigger] input_id_options(reports).contains(o) <==> exists|i: int|
                0 <= i < reports.len() && #[trigger] input_with_id(reports[i], o) by {
            if res.contains(o) {
                let k = choose|k: int| 0 <= k < res.len() && res[k] == o;
                if k < acc.len() {
                    assert(res[k] == acc[k]);
                    assert(acc.contains(o));
                    let i = choose|i: int| 0 <= i < init.len() && #[trigger] input_with_id(init[i], o);
                    assert(reports[i] == init[i]);
                } else {
                    assert(added && o == r.report_id);
                    assert(input_with_id(reports[n], o));
                }
            }
            if exists|i: int| 0 <= i < reports.len() && #[trigger] input_with_id(reports[i], o) {
                let i = choose|i: int| 0 <= i < reports.len() && #[trigger] input_with_id(reports[i], o);
                if i < n {
                    assert(init[i] == reports[i]);
                    assert(input_with_id(init[i], o));
                    assert(acc.contains(o));
                    let k = choose|k: int| 0 <= k < acc.len() && acc[k] == o;
                    assert(res[k] == o);
                } else {
                    assert(input_with_id(r, o));
                    if acc.contains(o) {
                        let k = choose|k: int| 0 <= k < acc.len() && acc[k] == o;
                        assert(res[k] == o);
                    } else {
                        assert(res[acc.len() as int] == o);
                    }
                }
            }
        }
    }
}

/// The IDs of the input reports fail exactly when some input report has an ID and another
/// has none; when no input report has an ID there are no IDs.
pub proof fn lemma_input_ids_missing(reports: Seq<Report>)
    ensures
        spec_input_ids(reports) is Err <==> (exists|i: int|
            0 <= i < reports.len() && reports[i].main.report_type == ReportType::Input
                && #[trigger] reports[i].report_id is Some) && (exists|j: int|
            0 <= j < reports.len() && #[trigger] input_with_id(reports[j], None)),
        (forall|i: int|
            0 <= i < reports.len() && reports[i].main.report_type == ReportType::Input
                ==> #[trigger] reports[i].report_id is None) ==> spec_input_ids(reports) == Ok::<
            Seq<ReportId>,
            MissingIdError,
        >(Seq::empty()),
{
    let u = input_id_options(reports);
    lemma_input_id_options(reports);
    let some_id = exists|i: int|
        0 <= i < reports.len() && reports[i].main.report_type == ReportType::Input
            && #[trigger] reports[i].report_id is Some;
    let no_id = exists|j: int| 0 <= j < reports.len() && #[trigger] input_with_id(reports[j], None);
    if some_id && no_id {
        let i = choose|i: int|
            0 <= i < reports.len() && reports[i].main.report_type == ReportType::Input
                && #[trigger] reports[i].report_id is Some;
        assert(input_with_id(reports[i], reports[i].report_id));
        assert(u.contains(reports[i].report_id));
        assert(u.contains(None));
        let k = choose|k: int| 0 <= k < u.len() && u[k] == None::<ReportId>;
        assert(!(u[k] is Some));
        if u.len() == 1 {
            let m = choose|m: int| 0 <= m < u.len() && u[m] == reports[i].report_id;
            assert(m == 0 && k == 0);
        }
    }
    if !no_id {
        assert forall|k: int| 0 <= k < u.len() implies #[trigger] u[k] is Some by {
            assert(u.contains(u[k]));
            if u[k] is None {
                let j = choose|j: int| 0 <= j < reports.len() && #[trigger] input_with_id(reports[j], u[k]);
            }
        }
    }
    if !some_id {
        assert forall|k: int| 0 <= k < u.len() implies #[trigger] u[k] is None by {
            assert(u.contains(u[k]));
            let j = choose|j: int| 0 <= j < reports.len() && #[trigger] input_with_id(reports[j], u[k]);
            assert(reports[j].main.report_type == ReportType::Input);
        }
        if u.len() > 1 {
            assert(u[0] == u[1]);
        }
        if u.len() == 0 {
            assert(u.map_values(|o: Option<ReportId>| o->0) =~= Seq::<ReportId>::empty());
        }
    }
}

/// Collect the IDs of the input reports of a walk.
fn input_ids_from<'a>(walk: ReportIter<'a>) -> (r: Result<Vec<ReportId>, MissingIdError>)
    requires
        walk.wf(),
    ensures
        match spec_input_ids(walk.remaining()) {
            Ok(ids) => r matches Ok(v) && v@ == ids,
            Err(e) => r == Err::<Vec<ReportId>, MissingIdError>(e),
        },
{
    let ghost all = walk.remaining();
    let mut it = walk;
    let mut opts: Vec<Option<ReportId>> = Vec::new();
    let ghost mut done: Seq<Report> = Seq::empty();
    loop
        invariant
            it.wf(),
            all == walk.remaining(),
            done + it.remaining() == all,
            opts@ == input_id_options(done),
        ensures
            opts@ == input_id_options(all),
            all == walk.remaining(),
        decreases it.remaining().len(),
    {
        match it.next() {
            None => {
                assert(done =~= all);
                break;
            },
            Some(report) => {
                proof {
                    let d1 = done.push(*report);
                    assert(d1.subrange(0, d1.len() - 1) =~= done);
                    assert(d1 + it.remaining() =~= all);
                }
                if report.is_input() {
                    opts = fold_unique(opts, report.report_id);
                }
                proof {
                    done = done.push(*report);
                }
            },
        }
    }
    if opts.len() == 1 && opts[0].is_none() {
        return Ok(Vec::new());
    }
    let mut ids: Vec<ReportId> = Vec::new();
    let mut i: usize = 0;
    while i < opts.len()
        invariant
            i <= opts@.len(),
            opts@ == input_id_options(all),
            all == walk.remaining(),
            !(opts@.len() == 1 && opts@[0] is None),
            forall|k: int| 0 <= k < i ==> #[trigger] opts@[k] is Some,
            ids@ == opts@.subrange(0, i as int).map_values(|o: Option<ReportId>| o->0),
        decreases opts@.len() - i,
    {
        match opts[i] {
            Some(id) => {
                ids.push(id);
                assert(ids@ =~= opts@.subrange(0, i + 1).map_values(|o: Option<ReportId>| o->0));
            },
            None => {
                assert(!(opts@[i as int] is Some));
                return Err(MissingIdError {});
            },
        }
        i = i + 1;
    }
    assert(opts@.subrange(0, opts@.len() as int) =~= opts@);
    Ok(ids)
}

/// Reports of a collection, or of several, by type and ID.
pub trait ToReportIterator<'a>: Sized {
    /// The reports, depth first and in order.
    spec fn spec_reports(self) -> Seq<Report>;

    /// A walk over the reports.
    fn to_report_iter(self) -> (r: ReportIter<'a>)
        ensures
            r.wf(),
            r.remaining() == self.spec_reports(),
    ;

    /// An unfilled format for the input reports with the given ID.
    fn input_report_format(self, report_id: Option<ReportId>) -> (r: Result<
        ReportFormat,
        TooLargeError,
    >)
        ensures
            format_result(self.spec_reports(), ReportType::Input, report_id, r),
    ;

    /// An unfilled format for the output reports with the given ID.
    fn output_report_format(self, report_id: Option<ReportId>) -> (r: Result<
        ReportFormat,
        TooLargeError,
    >)
        ensures
            format_result(self.spec_reports(), ReportType::Output, report_id, r),
    ;

    /// An unfilled format for the feature reports with the given ID.
    fn feature_report_format(self, report_id: Option<ReportId>) -> (r: Result<
        ReportFormat,
        TooLargeError,
    >)
        ensures
            format_result(self.spec_reports(), ReportType::Feature, report_id, r),
    ;

    /// The IDs of the input reports; an error when some have an ID and others do not.
    fn input_ids(self) -> (r: Result<Vec<ReportId>, MissingIdError>)
        ensures
            match spec_input_ids(self.spec_reports()) {
                Ok(ids) => r matches Ok(v) && v@ == ids,
                Err(e) => r == Err::<Vec<ReportId>, MissingIdError>(e),
            },
    ;
}

impl<'a> ToReportIterator<'a> for &'a Collection {
    open spec fn spec_reports(self) -> Seq<Report> {
        reports_in(self.items@)
    }

    fn to_report_iter(self) -> (r: ReportIter<'a>) {
        ReportIter::over(self)
    }

    fn input_report_format(self, report_id: Option<ReportId>) -> (r: Result<
        ReportFormat,
        TooLargeError,
    >) {
        report_format_from(ReportIter::over(self), ReportType::Input, report_id)
    }

    fn output_report_format(self, report_id: Option<ReportId>) -> (r: Result<
        ReportFormat,
        TooLargeError,
    >) {
        report_format_from(ReportIter::over(self), ReportType::Output, report_id)
    }

    fn feature_report_format(self, report_id: Option<ReportId>) -> (r: Result<
        ReportFormat,
        TooLargeError,
    >) {
        report_format_from(ReportIter::over(self), ReportType::Feature, report_id)
    }

    fn input_ids(self) -> (r: Result<Vec<ReportId>, MissingIdError>) {
        input_ids_from(ReportIter::over(self))
    }
}

impl<'a> ToReportIterator<'a> for &'a [Collection] {
    open spec fn spec_reports(self) -> Seq<Report> {
        collections_reports(self@)
    }

    fn to_report_iter(self) -> (r: ReportIter<'a>) {
        ReportIter::over_all(self)
    }

    fn input_report_format(self, report_id: Option<ReportId>) -> (r: Result<
        ReportFormat,
        TooLargeError,
    >) {
        report_format_from(ReportIter::over_all(self), ReportType::Input, report_id)
    }

    fn output_report_format(self, report_id: Option<ReportId>) -> (r: Result<
        ReportFormat,
        TooLargeError,
    >) {
        report_format_from(ReportIter::over_all(self), ReportType::Output, report_id)
    }

    fn feature_report_format(self, report_id: Option<ReportId>) -> (r: Result<
        ReportFormat,
        TooLargeError,
    >) {
        report_format_from(ReportIter::over_all(self), ReportType::Feature, report_id)
    }

    fn input_ids(self) -> (r: Result<Vec<ReportId>, MissingIdError>) {
        input_ids_from(ReportIter::over_all(self))
    }
}

} // verus!
