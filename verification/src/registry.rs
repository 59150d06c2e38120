//! The metric registry: the one mutable store behind every exposed gauge.

use crate::family::Family;
use crate::model::{
    apply, holds, labelled, lemma_slot, lemma_store_well_formed, read, scalar, series, slot,
    store, well_formed, SeriesView,
};
use crate::sample::Sample;
use vstd::prelude::*;
use vstd::string::*;

verus! {

/// One series: a family, one value per label of the family, and the sample it
/// holds. A series is also the unit of writing: collectors describe what they
/// want written as a list of series.
#[derive(Debug, PartialEq, Eq)]
pub struct Series {
    pub family: Family,
    pub labels: Vec<String>,
    pub value: Sample,
}

impl View for Series {
    type V = SeriesView;

    open spec fn view(&self) -> SeriesView {
        series(self.family, self.labels.deep_view(), self.value)
    }
}

impl DeepView for Series {
    type V = SeriesView;

    open spec fn deep_view(&self) -> SeriesView {
        self@
    }
}

impl Series {
    /// The series of a scalar family, holding `value`.
    pub fn scalar(family: Family, value: Sample) -> (s: Series)
        ensures
            s@ == scalar(family, value),
    {
        let labels: Vec<String> = Vec::new();
        assert(labels.deep_view() =~= Seq::<Seq<char>>::empty());
        Series { family, labels, value }
    }

    /// The series of a family with one label, for the label value `label`,
    /// holding `value`.
    pub fn labelled(family: Family, label: &str, value: Sample) -> (s: Series)
        ensures
            s@ == labelled(family, label@, value),
    {
        let mut labels: Vec<String> = Vec::new();
        labels.push(String::from_str(label));
        assert(labels.deep_view() =~= seq![label@]);
        Series { family, labels, value }
    }
}

/// The rejection of a write whose number of label values is not the one that
/// the family declares.
#[derive(Clone, Copy, Debug, PartialEq, Eq, Structural)]
pub struct WrongArity {
    /// How many label values the family declares.
    pub expected: usize,
    /// How many label values the write carried.
    pub given: usize,
}

/// Compares two lists of label values.
pub fn labels_equal(a: &Vec<String>, b: &Vec<String>) -> (r: bool)
    ensures
        r == (a.deep_view() == b.deep_view()),
{
    if a.len() != b.len() {
        assert(a.deep_view().len() != b.deep_view().len());
        return false;
    }
    let mut i: usize = 0;
    while i < a.len()
        invariant
            i <= a.len(),
            a.len() == b.len(),
            forall|j: int| 0 <= j < i ==> a[j]@ == b[j]@,
        decreases a.len() - i,
    {
        if a[i] != b[i] {
            assert(a.deep_view()[i as int] != b.deep_view()[i as int]);
            return false;
        }
        i += 1;
    }
    assert(a.deep_view() =~= b.deep_view());
    true
}

/// Copies a list of label values.
pub fn clone_labels(labels: &Vec<String>) -> (out: Vec<String>)
    ensures
        out.deep_view() == labels.deep_view(),
{
    let mut out: Vec<String> = Vec::new();
    let mut i: usize = 0;
    while i < labels.len()
        invariant
            i <= labels.len(),
            out.len() == i,
            forall|j: int| 0 <= j < i ==> out[j]@ == labels[j]@,
        decreases labels.len() - i,
    {
        out.push(labels[i].clone());
        i += 1;
    }
    assert(out.deep_view() =~= labels.deep_view());
    out
}

/// The store of every gauge: an ordered list of series in which no label
/// tuple occurs twice within a family, and every series has exactly the
/// labels that its family declares. Series are kept in the order in which they
/// were first written, and are never removed.
#[derive(Debug)]
pub struct MetricRegistry {
    entries: Vec<Series>,
}

impl View for MetricRegistry {
    type V = Seq<SeriesView>;

    closed spec fn view(&self) -> Seq<SeriesView> {
        self.entries.deep_view()
    }
}

impl MetricRegistry {
    /// The invariant of the registry.
    pub open spec fn wf(&self) -> bool {
        well_formed(self@)
    }

    /// An empty registry: no gauge has a value yet.
    pub fn new() -> (r: MetricRegistry)
        ensures
            r.wf(),
            r@ == Seq::<SeriesView>::empty(),
    {
        let r = MetricRegistry { entries: Vec::new() };
        assert(r@ =~= Seq::<SeriesView>::empty());
        r
    }

    /// The number of series.
    pub fn len(&self) -> (n: usize)
        ensures
            n == self@.len(),
    {
        self.entries.len()
    }

    /// The position of the series of `family` with `labels`, if there is one.
    fn find(&self, family: Family, labels: &Vec<String>) -> (r: Option<usize>)
        requires
            self.wf(),
        ensures
            match r {
                Some(i) => i < self@.len() && holds(self@, family, labels.deep_view()) && slot(
                    self@,
                    family,
                    labels.deep_view(),
                ) == i,
                None => !holds(self@, family, labels.deep_view()),
            },
    {
        let mut i: usize = 0;
        while i < self.entries.len()
            invariant
                i <= self.entries.len(),
                self.wf(),
                forall|j: int| 0 <= j < i ==> !(#[trigger] self@[j]).keyed(family, labels.deep_view()),
            decreases self.entries.len() - i,
        {
            let entry = &self.entries[i];
            if entry.family == family && labels_equal(&entry.labels, labels) {
                proof {
                    assert(self@[i as int].keyed(family, labels.deep_view()));
                    lemma_slot(self@, i as int);
                }
                return Some(i);
            }
            i += 1;
        }
        None
    }

    /// Reads a gauge: the value of the series of `family` with `labels`, or
    /// nothing if it was never written.
    pub fn get(&self, family: Family, labels: &Vec<String>) -> (r: Option<Sample>)
        requires
            self.wf(),
        ensures
            r == read(self@, family, labels.deep_view()),
    {
        match self.find(family, labels) {
            Some(i) => Some(self.entries[i].value),
            None => None,
        }
    }

    /// Writes a gauge. A write to a label tuple that was never seen creates a
    /// new series; a write to an existing one overwrites it. The only
    /// validation is the number of label values: a write with the wrong number
    /// is rejected and changes nothing.
    pub fn set(&mut self, family: Family, labels: Vec<String>, value: Sample) -> (r: Result<
        (),
        WrongArity,
    >)
        requires
            old(self).wf(),
        ensures
            final(self).wf(),
            final(self)@ == store(old(self)@, series(family, labels.deep_view(), value)),
            r is Ok <==> labels.len() == family.arity(),
            r is Err ==> final(self)@ == old(self)@ && r->Err_0.expected == family.arity()
                && r->Err_0.given == labels.len(),
    {
        let ghost w = series(family, labels.deep_view(), value);
        let expected = family.label_set().count();
        let given = labels.len();
        if given != expected {
            return Err(WrongArity { expected, given });
        }
        proof {
            lemma_store_well_formed(self@, w);
        }
        match self.find(family, &labels) {
            Some(i) => {
                self.entries.set(i, Series { family, labels, value });
                assert(self@ =~= store(old(self)@, w));
            },
            None => {
                self.entries.push(Series { family, labels, value });
                assert(self@ =~= store(old(self)@, w));
            },
        }
        Ok(())
    }

    /// Applies a list of writes, first to last. Writes with the wrong number
    /// of label values are skipped.
    pub fn apply(&mut self, writes: &Vec<Series>)
        requires
            old(self).wf(),
        ensures
            final(self).wf(),
            final(self)@ == apply(old(self)@, writes.deep_view()),
    {
        let mut i: usize = 0;
        while i < writes.len()
            invariant
                i <= writes.len(),
                self.wf(),
                self@ == apply(old(self)@, writes.deep_view().take(i as int)),
            decreases writes.len() - i,
        {
            let w = &writes[i];
            let _ = self.set(w.family, clone_labels(&w.labels), w.value);
            proof {
                let done = writes.deep_view().take(i as int + 1);
                assert(done.drop_last() =~= writes.deep_view().take(i as int));
                assert(done.last() == writes.deep_view()[i as int]);
            }
            i += 1;
        }
        assert(writes.deep_view().take(i as int) =~= writes.deep_view());
    }

    /// The complete current gauge set, in the order in which the series were
    /// first written.
    pub fn snapshot(&self) -> (out: Vec<Series>)
        ensures
            out.deep_view() == self@,
    {
        let mut out: Vec<Series> = Vec::new();
        let mut i: usize = 0;
        while i < self.entries.len()
            invariant
                i <= self.entries.len(),
                out.len() == i,
                forall|j: int| 0 <= j < i ==> out[j]@ == self.entries[j]@,
            decreases self.entries.len() - i,
        {
            let e = &self.entries[i];
            out.push(Series { family: e.family, labels: clone_labels(&e.labels), value: e.value });
            i += 1;
        }
        assert(out.deep_view() =~= self@);
        out
    }
}

} // verus!
