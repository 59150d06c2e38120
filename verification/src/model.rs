//! The mathematical model of the gauge state: an ordered list of series, and
//! what it means to write to it.

use crate::family::{Family, Labels};
use crate::sample::Sample;
use vstd::prelude::*;

verus! {

/// One series as a mathematical value: a family, one value per label of the
/// family, and the sample it holds.
pub struct SeriesView {
    pub family: Family,
    pub labels: Seq<Seq<char>>,
    pub value: Sample,
}

impl SeriesView {
    /// The series carries exactly as many label values as its family declares.
    pub open spec fn fits(self) -> bool {
        self.labels.len() == self.family.arity()
    }

    /// The series is the one of `family` with the label values `labels`.
    pub open spec fn keyed(self, family: Family, labels: Seq<Seq<char>>) -> bool {
        self.family == family && self.labels == labels
    }
}

/// The series of `family` with the label values `labels`, holding `value`.
pub open spec fn series(family: Family, labels: Seq<Seq<char>>, value: Sample) -> SeriesView {
    SeriesView { family, labels, value }
}

/// The series of a scalar family, holding `value`.
pub open spec fn scalar(family: Family, value: Sample) -> SeriesView {
    series(family, Seq::empty(), value)
}

/// The series of a family with one label, for the label value `label`,
/// holding `value`.
pub open spec fn labelled(family: Family, label: Seq<char>, value: Sample) -> SeriesView {
    series(family, seq![label], value)
}

/// The state has a series of `family` with the label values `labels`.
pub open spec fn holds(s: Seq<SeriesView>, family: Family, labels: Seq<Seq<char>>) -> bool {
    exists|i: int| 0 <= i < s.len() && (#[trigger] s[i]).keyed(family, labels)
}

/// The position of the series of `family` with `labels`, where the state has
/// one.
pub open spec fn slot(s: Seq<SeriesView>, family: Family, labels: Seq<Seq<char>>) -> int {
    choose|i: int| 0 <= i < s.len() && (#[trigger] s[i]).keyed(family, labels)
}

/// What the gauge of `family` with `labels` reads: its value, or nothing if it
/// was never written.
pub open spec fn read(s: Seq<SeriesView>, family: Family, labels: Seq<Seq<char>>) -> Option<
    Sample,
> {
    if holds(s, family, labels) {
        Some(s[slot(s, family, labels)].value)
    } else {
        None
    }
}

/// The state after one write. A write with the wrong number of label values
/// is rejected and changes nothing; a write to an existing series replaces its
/// value in place; a write to a new label tuple appends a new series.
pub open spec fn store(s: Seq<SeriesView>, w: SeriesView) -> Seq<SeriesView> {
    if !w.fits() {
        s
    } else if holds(s, w.family, w.labels) {
        s.update(slot(s, w.family, w.labels), w)
    } else {
        s.push(w)
    }
}

/// The state after a list of writes, applied first to last.
pub open spec fn apply(s: Seq<SeriesView>, ws: Seq<SeriesView>) -> Seq<SeriesView>
    decreases ws.len(),
{
    if ws.len() == 0 {
        s
    } else {
        store(apply(s, ws.drop_last()), ws.last())
    }
}

/// The value that the last accepted write of the list gives to the gauge of
/// `family` with `labels`, if the list writes to it at all.
pub open spec fn last_write(ws: Seq<SeriesView>, family: Family, labels: Seq<Seq<char>>) -> Option<
    Sample,
>
    decreases ws.len(),
{
    if ws.len() == 0 {
        None
    } else if ws.last().fits() && ws.last().keyed(family, labels) {
        Some(ws.last().value)
    } else {
        last_write(ws.drop_last(), family, labels)
    }
}

/// No label tuple occurs twice within a family.
pub open spec fn distinct(s: Seq<SeriesView>) -> bool {
    forall|i: int, j: int|
        0 <= i < j < s.len() ==> !(#[trigger] s[i]).keyed((#[trigger] s[j]).family, s[j].labels)
}

/// Every series has exactly the labels declared for its family.
pub open spec fn fitting(s: Seq<SeriesView>) -> bool {
    forall|i: int| 0 <= i < s.len() ==> (#[trigger] s[i]).fits()
}

/// The invariant of the gauge state.
pub open spec fn well_formed(s: Seq<SeriesView>) -> bool {
    distinct(s) && fitting(s)
}

/// Two states have the same series in the same order, whatever their values.
pub open spec fn same_keys(a: Seq<SeriesView>, b: Seq<SeriesView>) -> bool {
    &&& a.len() == b.len()
    &&& forall|i: int|
        0 <= i < a.len() ==> (#[trigger] a[i]).family == b[i].family && a[i].labels == b[i].labels
}

/// In a state without duplicates a series is found at its own position.
pub proof fn lemma_slot(s: Seq<SeriesView>, i: int)
    requires
        distinct(s),
        0 <= i < s.len(),
    ensures
        holds(s, s[i].family, s[i].labels),
        slot(s, s[i].family, s[i].labels) == i,
        read(s, s[i].family, s[i].labels) == Some(s[i].value),
{
    assert(s[i].keyed(s[i].family, s[i].labels));
    let j = slot(s, s[i].family, s[i].labels);
    assert(0 <= j < s.len() && s[j].keyed(s[i].family, s[i].labels));
    if j < i {
        assert(!s[j].keyed(s[i].family, s[i].labels));
    } else if i < j {
        assert(!s[i].keyed(s[j].family, s[j].labels));
    }
}

/// A write keeps the invariant.
pub proof fn lemma_store_well_formed(s: Seq<SeriesView>, w: SeriesView)
    requires
        well_formed(s),
    ensures
        well_formed(store(s, w)),
{
    let t = store(s, w);
    if w.fits() {
        if holds(s, w.family, w.labels) {
            let k = slot(s, w.family, w.labels);
            assert(s[k].keyed(w.family, w.labels));
            assert forall|i: int, j: int| 0 <= i < j < t.len() implies !(#[trigger] t[i]).keyed(
                (#[trigger] t[j]).family,
                t[j].labels,
            ) by {
                assert(!s[i].keyed(s[j].family, s[j].labels));
            }
            assert forall|i: int| 0 <= i < t.len() implies (#[trigger] t[i]).fits() by {
                assert(s[i].fits());
            }
        } else {
            assert forall|i: int, j: int| 0 <= i < j < t.len() implies !(#[trigger] t[i]).keyed(
                (#[trigger] t[j]).family,
                t[j].labels,
            ) by {
                if j < s.len() {
                    assert(!s[i].keyed(s[j].family, s[j].labels));
                } else {
                    assert(!s[i].keyed(w.family, w.labels));
                }
            }
            assert forall|i: int| 0 <= i < t.len() implies (#[trigger] t[i]).fits() by {
                if i < s.len() {
                    assert(s[i].fits());
                }
            }
        }
    }
}

/// What a write does to one gauge: the written gauge reads the written value,
/// every other gauge reads what it read before, and no gauge disappears.
pub proof fn lemma_store(s: Seq<SeriesView>, w: SeriesView, family: Family, labels: Seq<Seq<char>>)
    requires
        well_formed(s),
    ensures
        holds(store(s, w), family, labels) == (holds(s, family, labels) || (w.fits() && w.keyed(
            family,
            labels,
        ))),
        read(store(s, w), family, labels) == if w.fits() && w.keyed(family, labels) {
            Some(w.value)
        } else {
            read(s, family, labels)
        },
{
    let t = store(s, w);
    lemma_store_well_formed(s, w);
    if w.fits() {
        if holds(s, w.family, w.labels) {
            let k = slot(s, w.family, w.labels);
            assert(s[k].keyed(w.family, w.labels));
            assert(t[k] == w);
            if w.keyed(family, labels) {
                lemma_slot(t, k);
            } else if holds(s, family, labels) {
                let i = slot(s, family, labels);
                assert(s[i].keyed(family, labels));
                assert(i != k);
                assert(t[i] == s[i]);
                lemma_slot(t, i);
                lemma_slot(s, i);
            } else {
                if holds(t, family, labels) {
                    let i = slot(t, family, labels);
                    assert(t[i].keyed(family, labels));
                    assert(i != k);
                    assert(s[i].keyed(family, labels));
                }
            }
        } else {
            let k = s.len() as int;
            assert(t[k] == w);
            if w.keyed(family, labels) {
                lemma_slot(t, k);
            } else if holds(s, family, labels) {
                let i = slot(s, family, labels);
                assert(s[i].keyed(family, labels));
                assert(t[i] == s[i]);
                lemma_slot(t, i);
                lemma_slot(s, i);
            } else {
                if holds(t, family, labels) {
                    let i = slot(t, family, labels);
                    assert(t[i].keyed(family, labels));
                    assert(i != k);
                    assert(s[i].keyed(family, labels));
                }
            }
        }
    }
}

/// A write to a series that the state already has changes no key and no
/// position; a rejected write changes nothing at all.
pub proof fn lemma_store_same_keys(s: Seq<SeriesView>, w: SeriesView)
    requires
        !w.fits() || holds(s, w.family, w.labels),
    ensures
        same_keys(store(s, w), s),
{
    if w.fits() {
        let k = slot(s, w.family, w.labels);
        assert(s[k].keyed(w.family, w.labels));
    }
}

/// A list of writes keeps the invariant.
pub proof fn lemma_apply_well_formed(s: Seq<SeriesView>, ws: Seq<SeriesView>)
    requires
        well_formed(s),
    ensures
        well_formed(apply(s, ws)),
    decreases ws.len(),
{
    if ws.len() > 0 {
        lemma_apply_well_formed(s, ws.drop_last());
        lemma_store_well_formed(apply(s, ws.drop_last()), ws.last());
    }
}

/// What a list of writes does to one gauge: a gauge that the list writes to
/// reads what the last such write gave it; every other gauge reads what it
/// read before. No gauge disappears.
pub proof fn lemma_apply(s: Seq<SeriesView>, ws: Seq<SeriesView>, family: Family, labels: Seq<
    Seq<char>,
>)
    requires
        well_formed(s),
    ensures
        holds(apply(s, ws), family, labels) == (holds(s, family, labels) || last_write(
            ws,
            family,
            labels,
        ) is Some),
        read(apply(s, ws), family, labels) == match last_write(ws, family, labels) {
            Some(v) => Some(v),
            None => read(s, family, labels),
        },
    decreases ws.len(),
{
    if ws.len() > 0 {
        lemma_apply(s, ws.drop_last(), family, labels);
        lemma_apply_well_formed(s, ws.drop_last());
        lemma_store(apply(s, ws.drop_last()), ws.last(), family, labels);
    }
}

/// Applying two lists one after the other is applying their concatenation.
pub proof fn lemma_apply_concat(s: Seq<SeriesView>, a: Seq<SeriesView>, b: Seq<SeriesView>)
    ensures
        apply(s, a + b) == apply(apply(s, a), b),
    decreases b.len(),
{
    if b.len() == 0 {
        assert(a + b =~= a);
    } else {
        assert((a + b).drop_last() =~= a + b.drop_last());
        assert((a + b).last() == b.last());
        lemma_apply_concat(s, a, b.drop_last());
    }
}

/// Writes to series that the state already has change no key and no position.
pub proof fn lemma_apply_same_keys(s: Seq<SeriesView>, ws: Seq<SeriesView>)
    requires
        well_formed(s),
        forall|k: int|
            0 <= k < ws.len() && (#[trigger] ws[k]).fits() ==> holds(s, ws[k].family, ws[k].labels),
    ensures
        same_keys(apply(s, ws), s),
    decreases ws.len(),
{
    if ws.len() > 0 {
        let head = ws.drop_last();
        let w = ws.last();
        assert forall|k: int| 0 <= k < head.len() && (#[trigger] head[k]).fits() implies holds(
            s,
            head[k].family,
            head[k].labels,
        ) by {
            assert(head[k] == ws[k]);
        }
        lemma_apply_same_keys(s, head);
        let mid = apply(s, head);
        if w.fits() {
            assert(w == ws[ws.len() - 1]);
            lemma_apply(s, head, w.family, w.labels);
        }
        lemma_store_same_keys(mid, w);
    }
}

/// Two states with the same series in the same order, in which every gauge
/// reads the same, are the same state.
pub proof fn lemma_same_reads(a: Seq<SeriesView>, b: Seq<SeriesView>)
    requires
        distinct(a),
        distinct(b),
        same_keys(a, b),
        forall|i: int|
            0 <= i < a.len() ==> read(a, (#[trigger] a[i]).family, a[i].labels) == read(
                b,
                a[i].family,
                a[i].labels,
            ),
    ensures
        a == b,
{
    assert forall|i: int| 0 <= i < a.len() implies a[i] == b[i] by {
        lemma_slot(a, i);
        lemma_slot(b, i);
        assert(a[i].family == b[i].family && a[i].labels == b[i].labels);
    }
    assert(a =~= b);
}

/// Every accepted write of a list is to a gauge that the list's last write to
/// it gives a value.
pub proof fn lemma_last_write_some(ws: Seq<SeriesView>, k: int)
    requires
        0 <= k < ws.len(),
        ws[k].fits(),
    ensures
        last_write(ws, ws[k].family, ws[k].labels) is Some,
    decreases ws.len(),
{
    if k < ws.len() - 1 {
        if !(ws.last().fits() && ws.last().keyed(ws[k].family, ws[k].labels)) {
            assert(ws.drop_last()[k] == ws[k]);
            lemma_last_write_some(ws.drop_last(), k);
        }
    } else {
        assert(ws.last() == ws[k]);
    }
}

/// The last write of a concatenation is the last write of its second part,
/// or else that of its first.
pub proof fn lemma_last_write_concat(
    a: Seq<SeriesView>,
    b: Seq<SeriesView>,
    family: Family,
    labels: Seq<Seq<char>>,
)
    ensures
        last_write(a + b, family, labels) == match last_write(b, family, labels) {
            Some(v) => Some(v),
            None => last_write(a, family, labels),
        },
    decreases b.len(),
{
    if b.len() == 0 {
        assert(a + b =~= a);
    } else {
        assert((a + b).drop_last() =~= a + b.drop_last());
        assert((a + b).last() == b.last());
        lemma_last_write_concat(a, b.drop_last(), family, labels);
    }
}

/// A list that holds no accepted write to a gauge gives it no value.
pub proof fn lemma_last_write_none(ws: Seq<SeriesView>, family: Family, labels: Seq<Seq<char>>)
    requires
        forall|k: int| 0 <= k < ws.len() ==> !((#[trigger] ws[k]).fits() && ws[k].keyed(family, labels)),
    ensures
        last_write(ws, family, labels) is None,
    decreases ws.len(),
{
    if ws.len() > 0 {
        assert(ws[ws.len() - 1] == ws.last());
        assert forall|k: int| 0 <= k < ws.drop_last().len() implies !((
        #[trigger] ws.drop_last()[k]).fits() && ws.drop_last()[k].keyed(family, labels)) by {
            assert(ws.drop_last()[k] == ws[k]);
        }
        lemma_last_write_none(ws.drop_last(), family, labels);
    }
}

/// An accepted write that no later write of the list overrides gives its
/// gauge its value.
pub proof fn lemma_last_write_at(ws: Seq<SeriesView>, k: int)
    requires
        0 <= k < ws.len(),
        ws[k].fits(),
        forall|j: int|
            k < j < ws.len() ==> !((#[trigger] ws[j]).fits() && ws[j].keyed(
                ws[k].family,
                ws[k].labels,
            )),
    ensures
        last_write(ws, ws[k].family, ws[k].labels) == Some(ws[k].value),
    decreases ws.len(),
{
    if k < ws.len() - 1 {
        assert(ws[ws.len() - 1] == ws.last());
        assert(ws.drop_last()[k] == ws[k]);
        assert forall|j: int| k < j < ws.drop_last().len() implies !((
        #[trigger] ws.drop_last()[j]).fits() && ws.drop_last()[j].keyed(
            ws[k].family,
            ws[k].labels,
        )) by {
            assert(ws.drop_last()[j] == ws[j]);
        }
        lemma_last_write_at(ws.drop_last(), k);
    } else {
        assert(ws.last() == ws[k]);
    }
}

/// Every write of the list is to a family with the label set `labels`.
pub open spec fn all_labelled(ws: Seq<SeriesView>, labels: Labels) -> bool {
    forall|k: int| 0 <= k < ws.len() ==> (#[trigger] ws[k]).family.labels() == labels
}

/// A list of writes to families of one label set gives no value to a gauge of
/// a family with another.
pub proof fn lemma_last_write_other_labels(
    ws: Seq<SeriesView>,
    labels: Labels,
    family: Family,
    values: Seq<Seq<char>>,
)
    requires
        all_labelled(ws, labels),
        family.labels() != labels,
    ensures
        last_write(ws, family, values) is None,
{
    assert forall|k: int| 0 <= k < ws.len() implies !((#[trigger] ws[k]).fits() && ws[k].keyed(
        family,
        values,
    )) by {
        assert(ws[k].family.labels() == labels);
    }
    lemma_last_write_none(ws, family, values);
}

/// A write never removes a series, and neither does a list of writes: a label
/// tuple that has appeared stays.
pub proof fn lemma_apply_keeps(
    s: Seq<SeriesView>,
    ws: Seq<SeriesView>,
    family: Family,
    labels: Seq<Seq<char>>,
)
    requires
        well_formed(s),
        holds(s, family, labels),
    ensures
        holds(apply(s, ws), family, labels),
{
    lemma_apply(s, ws, family, labels);
}

/// Applying the same list of writes a second time changes nothing.
pub proof fn lemma_apply_idempotent(s: Seq<SeriesView>, ws: Seq<SeriesView>)
    requires
        well_formed(s),
    ensures
        apply(apply(s, ws), ws) == apply(s, ws),
{
    let a = apply(s, ws);
    let b = apply(a, ws);
    lemma_apply_well_formed(s, ws);
    lemma_apply_well_formed(a, ws);
    assert forall|k: int| 0 <= k < ws.len() && (#[trigger] ws[k]).fits() implies holds(
        a,
        ws[k].family,
        ws[k].labels,
    ) by {
        lemma_last_write_some(ws, k);
        lemma_apply(s, ws, ws[k].family, ws[k].labels);
    }
    lemma_apply_same_keys(a, ws);
    assert forall|i: int| 0 <= i < b.len() implies read(b, (#[trigger] b[i]).family, b[i].labels)
        == read(a, b[i].family, b[i].labels) by {
        lemma_apply(s, ws, b[i].family, b[i].labels);
        lemma_apply(a, ws, b[i].family, b[i].labels);
    }
    lemma_same_reads(b, a);
}

} // verus!
