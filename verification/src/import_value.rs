//! Plain values of imported and exported calendar data: values without
//! blame, and records as name-ordered maps.
use vstd::prelude::*;

use crate::desugar::owned;
use crate::keyed::{key_insert, key_lookup, keys_sorted, lemma_insert_sorted, lemma_lower_bound};
use crate::text::{chars_eq, chars_lt, seq_lt, to_chars};

verus! {


/// A value without blame, as foreign formats are read into and written from.
#[derive(Debug, PartialEq, Eq)]
pub enum ImportValue {
    String(String),
    Integer(u64),
    SignedInteger(i64),
    Bool(bool),
    Undefined,
    Record(ImportRecord),
    List(Vec<ImportValue>),
}

/// A record of plain values, as entries kept in name order.
#[derive(Debug, PartialEq, Eq)]
pub struct ImportRecord(pub(crate) Vec<(String, ImportValue)>);

/// The mathematical form of a plain value.
pub enum ImportView {
    String(Seq<char>),
    Integer(u64),
    SignedInteger(i64),
    Bool(bool),
    Undefined,
    Record(Seq<(Seq<char>, ImportView)>),
    List(Seq<ImportView>),
}

/// The mathematical form of a plain record: its entries in order.
pub type ImportRecordView = Seq<(Seq<char>, ImportView)>;

pub closed spec fn import_view(v: ImportValue) -> ImportView
    decreases v,
{
    match v {
        ImportValue::String(s) => ImportView::String(s@),
        ImportValue::Integer(n) => ImportView::Integer(n),
        ImportValue::SignedInteger(n) => ImportView::SignedInteger(n),
        ImportValue::Bool(b) => ImportView::Bool(b),
        ImportValue::Undefined => ImportView::Undefined,
        ImportValue::Record(r) => ImportView::Record(
            Seq::new(
                r.0@.len(),
                |i: int|
                    {
                        if 0 <= i < r.0@.len() {
                            proof {
                                broadcast use vstd::std_specs::vec::axiom_vec_decreases_to_view;
                                broadcast use vstd::seq::axiom_seq_index_decreases;

                                assert(decreases_to!(r.0 => r.0@));
                                assert(decreases_to!(r.0@ => r.0@[i]));
                            }
                            (r.0@[i].0@, import_view(r.0@[i].1))
                        } else {
                            (Seq::empty(), ImportView::Undefined)
                        }
                    },
            ),
        ),
        ImportValue::List(items) => ImportView::List(
            Seq::new(
                items@.len(),
                |i: int|
                    {
                        if 0 <= i < items@.len() {
                            proof {
                                broadcast use vstd::std_specs::vec::axiom_vec_decreases_to_view;
                                broadcast use vstd::seq::axiom_seq_index_decreases;

                                assert(decreases_to!(items => items@));
                                assert(decreases_to!(items@ => items@[i]));
                            }
                            import_view(items@[i])
                        } else {
                            ImportView::Undefined
                        }
                    },
            ),
        ),
    }
}

/// The view of a plain value, one level unfolded.
pub(crate) broadcast proof fn lemma_import_view_unfold(v: ImportValue)
    ensures
        #[trigger] import_view(v) == match v {
            ImportValue::String(s) => ImportView::String(s@),
            ImportValue::Integer(n) => ImportView::Integer(n),
            ImportValue::SignedInteger(n) => ImportView::SignedInteger(n),
            ImportValue::Bool(b) => ImportView::Bool(b),
            ImportValue::Undefined => ImportView::Undefined,
            ImportValue::Record(r) => ImportView::Record(
                Seq::new(
                    r.0@.len(),
                    |i: int|
                        if 0 <= i < r.0@.len() {
                            (r.0@[i].0@, import_view(r.0@[i].1))
                        } else {
                            (Seq::empty(), ImportView::Undefined)
                        },
                ),
            ),
            ImportValue::List(items) => ImportView::List(
                Seq::new(
                    items@.len(),
                    |i: int|
                        if 0 <= i < items@.len() {
                            import_view(items@[i])
                        } else {
                            ImportView::Undefined
                        },
                ),
            ),
        },
{
    match v {
        ImportValue::Record(r) => {
            assert(import_view(v)->Record_0 =~= Seq::new(
                r.0@.len(),
                |i: int|
                    if 0 <= i < r.0@.len() {
                        (r.0@[i].0@, import_view(r.0@[i].1))
                    } else {
                        (Seq::empty(), ImportView::Undefined)
                    },
            ));
        },
        ImportValue::List(items) => {
            assert(import_view(v)->List_0 =~= Seq::new(
                items@.len(),
                |i: int|
                    if 0 <= i < items@.len() {
                        import_view(items@[i])
                    } else {
                        ImportView::Undefined
                    },
            ));
        },
        _ => {},
    }
}

impl View for ImportValue {
    type V = ImportView;

    open spec fn view(&self) -> ImportView {
        import_view(*self)
    }
}

impl View for ImportRecord {
    type V = ImportRecordView;

    open spec fn view(&self) -> ImportRecordView {
        import_view(ImportValue::Record(*self))->Record_0
    }
}

pub(crate) proof fn lemma_import_record_view(r: ImportRecord)
    ensures
        r@.len() == r.0@.len(),
        forall|i: int|
            0 <= i < r.0@.len() ==> #[trigger] r@[i] == (r.0@[i].0@, r.0@[i].1@),
{
}

pub proof fn lemma_import_list_view(items: Vec<ImportValue>)
    ensures
        (ImportValue::List(items))@->List_0.len() == items@.len(),
        forall|i: int|
            0 <= i < items@.len() ==> #[trigger] (ImportValue::List(items))@->List_0[i]
                == items@[i]@,
{
}

/// A copy of a plain value with the same view.
pub fn copy_import_value(v: &ImportValue) -> (r: ImportValue)
    ensures
        r@ == v@,
    decreases v,
{
    match v {
        ImportValue::String(s) => ImportValue::String(s.clone()),
        ImportValue::Integer(n) => ImportValue::Integer(*n),
        ImportValue::SignedInteger(n) => ImportValue::SignedInteger(*n),
        ImportValue::Bool(b) => ImportValue::Bool(*b),
        ImportValue::Undefined => ImportValue::Undefined,
        ImportValue::Record(r) => ImportValue::Record(copy_import_record(r)),
        ImportValue::List(items) => {
            let mut out: Vec<ImportValue> = Vec::new();
            #[verifier::loop_isolation(false)]
            for i in 0..items.len()
                invariant
                    out@.len() == i,
                    forall|j: int| 0 <= j < i ==> (#[trigger] out@[j])@ == items@[j]@,
            {
                proof {
                    broadcast use vstd::std_specs::vec::axiom_vec_decreases_to_view;
                    broadcast use vstd::seq::axiom_seq_index_decreases;

                    assert(decreases_to!(*items => items@));
                    assert(decreases_to!(items@ => items@[i as int]));
                }
                out.push(copy_import_value(&items[i]));
            }
            let res = ImportValue::List(out);
            assert(res@->List_0 =~= v@->List_0);
            res
        },
    }
}

/// A copy of a plain record with the same view.
pub fn copy_import_record(r: &ImportRecord) -> (c: ImportRecord)
    ensures
        c@ == r@,
    decreases r,
{
    let mut out: Vec<(String, ImportValue)> = Vec::new();
    #[verifier::loop_isolation(false)]
    for i in 0..r.0.len()
        invariant
            out@.len() == i,
            forall|j: int|
                0 <= j < i ==> (#[trigger] out@[j]).0@ == r.0@[j].0@ && out@[j].1@ == r.0@[j].1@,
    {
        proof {
            broadcast use vstd::std_specs::vec::axiom_vec_decreases_to_view;
            broadcast use vstd::seq::axiom_seq_index_decreases;

            assert(decreases_to!(r.0 => r.0@));
            assert(decreases_to!(r.0@ => r.0@[i as int]));
        }
        let e = &r.0[i];
        out.push((e.0.clone(), copy_import_value(&e.1)));
    }
    proof {
        use_type_invariant(r);
        assert(ImportRecord(out)@ =~= r@);
    }
    let res = ImportRecord(out);
    res
}

impl ImportRecord {
    /// Entries are kept in strictly increasing name order.
    #[verifier::type_invariant]
    pub open spec fn names_in_order(self) -> bool {
        keys_sorted(self@)
    }

    /// The entries, in name order.
    pub fn entries(&self) -> (r: &Vec<(String, ImportValue)>)
        ensures
            r@.len() == self@.len(),
            forall|i: int| 0 <= i < r@.len() ==> (#[trigger] r@[i]).0@ == self@[i].0 && r@[i].1@ == self@[i].1,
    {
        proof {
            lemma_import_record_view(*self);
        }
        &self.0
    }

    /// The empty record.
    pub fn new() -> (r: ImportRecord)
        ensures
            r@ == Seq::<(Seq<char>, ImportView)>::empty(),
    {
        let v: Vec<(String, ImportValue)> = Vec::new();
        assert(ImportRecord(v)@ =~= Seq::<(Seq<char>, ImportView)>::empty());
        let r = ImportRecord(v);
        r
    }

    /// The position at which `key` belongs.
    fn position(&self, key: &Vec<char>) -> (p: usize)
        ensures
            p == crate::keyed::lower_bound(self@, key@),
            p <= self.0@.len(),
            self@.len() == self.0@.len(),
    {
        let mut i: usize = 0;
        proof {
            lemma_lower_bound(self@, key@);
        }
        while i < self.0.len()
            invariant
                i <= self.0@.len(),
                self@.len() == self.0@.len(),
                crate::keyed::lower_bound(self@, key@) >= i,
                forall|j: int| 0 <= j < i ==> seq_lt(#[trigger] self@[j].0, key@),
                0 <= crate::keyed::lower_bound(self@, key@) <= self@.len(),
                forall|j: int|
                    0 <= j < crate::keyed::lower_bound(self@, key@) ==> seq_lt(
                        #[trigger] self@[j].0,
                        key@,
                    ),
                crate::keyed::lower_bound(self@, key@) < self@.len() ==> !seq_lt(
                    self@[crate::keyed::lower_bound(self@, key@)].0,
                    key@,
                ),
            decreases self.0@.len() - i,
        {
            let k = to_chars(self.0[i].0.as_str());
            assert(k@ == self@[i as int].0);
            if !chars_lt(&k, key) {
                return i;
            }
            i = i + 1;
        }
        i
    }

    /// Inserts or replaces an entry, keeping entries in name order.
    pub fn insert(&mut self, key: String, value: ImportValue)
        ensures
            final(self)@ == key_insert(old(self)@, key@, value@),
            keys_sorted(old(self)@) ==> keys_sorted(final(self)@),
    {
        proof {
            use_type_invariant(&*self);
        }
        let ghost old_view = self@;
        let k = to_chars(key.as_str());
        let p = self.position(&k);
        proof {
            lemma_lower_bound(old_view, k@);
        }
        let ghost entry = (key@, value@);
        let mut replace = false;
        if p < self.0.len() {
            let kp = to_chars(self.0[p].0.as_str());
            replace = chars_eq(&kp, &k);
        }
        let mut v: Vec<(String, ImportValue)> = Vec::new();
        std::mem::swap(&mut v, &mut self.0);
        assert(ImportRecord(v)@ =~= old_view);
        if replace {
            v.set(p, (key, value));
            assert(ImportRecord(v)@ =~= old_view.update(p as int, entry));
        } else {
            v.insert(p, (key, value));
            assert(ImportRecord(v)@ =~= old_view.insert(p as int, entry));
        }
        proof {
            lemma_insert_sorted(old_view, entry.0, entry.1);
        }
        self.0 = v;
    }

    /// Looks up an entry by name.
    pub fn get(&self, key: &str) -> (r: Option<&ImportValue>)
        ensures
            match r {
                Some(v) => key_lookup(self@, key@) == Some(v@),
                None => key_lookup(self@, key@) is None,
            },
    {
        let k = to_chars(key);
        let p = self.position(&k);
        if p < self.0.len() {
            let kp = to_chars(self.0[p].0.as_str());
            if chars_eq(&kp, &k) {
                return Some(&self.0[p].1);
            }
        }
        None
    }

    /// Whether an entry has this name.
    pub fn contains_key(&self, key: &str) -> (b: bool)
        ensures
            b == key_lookup(self@, key@) is Some,
    {
        self.get(key).is_some()
    }

    /// Number of entries.
    pub fn len(&self) -> (n: usize)
        ensures
            n == self@.len(),
    {
        self.0.len()
    }

    /// Whether the record has no entries.
    pub fn is_empty(&self) -> (b: bool)
        ensures
            b == (self@.len() == 0),
    {
        self.0.len() == 0
    }
}

/// The record built by inserting each `(name, value)` in turn.
pub open spec fn import_record_of(fields: Seq<(Seq<char>, ImportView)>) -> ImportRecordView
    decreases fields.len(),
{
    if fields.len() == 0 {
        Seq::empty()
    } else {
        key_insert(import_record_of(fields.drop_last()), fields.last().0, fields.last().1)
    }
}

pub proof fn lemma_import_record_of_sorted(fields: Seq<(Seq<char>, ImportView)>)
    ensures
        keys_sorted(import_record_of(fields)),
    decreases fields.len(),
{
    if fields.len() > 0 {
        lemma_import_record_of_sorted(fields.drop_last());
        lemma_insert_sorted(import_record_of(fields.drop_last()), fields.last().0, fields.last().1);
    }
}

pub open spec fn import_fields_view(fields: Seq<(&str, ImportValue)>) -> Seq<(Seq<char>, ImportView)> {
    Seq::new(fields.len(), |i: int| (fields[i].0@, fields[i].1@))
}

/// Builds a record from `(name, value)` pairs; a later pair replaces an
/// earlier one of the same name.
pub fn make_import_record(fields: Vec<(&str, ImportValue)>) -> (r: ImportRecord)
    ensures
        r@ == import_record_of(import_fields_view(fields@)),
        keys_sorted(r@),
{
    let ghost fv = import_fields_view(fields@);
    let mut record = ImportRecord::new();
    assert(fv.take(0) =~= Seq::<(Seq<char>, ImportView)>::empty());
    for f in it: fields.into_iter()
        invariant
            it.seq() == fields@,
            fv == import_fields_view(fields@),
            record@ == import_record_of(fv.take(it.index() as int)),
    {
        let ghost k = it.index() as int;
        assert(fv.take(k + 1).drop_last() =~= fv.take(k));
        let (name, value) = f;
        record.insert(owned(name), value);
    }
    assert(fv.take(fv.len() as int) =~= fv);
    proof {
        lemma_import_record_of_sorted(fv);
    }
    record
}

} // verus!
