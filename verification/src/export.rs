//! Validated calendars as plain values, for the foreign-format writers.
use vstd::prelude::*;

use crate::import_value::{ImportRecord, ImportRecordView, ImportValue, ImportView};
use crate::shape::entries_view;
use crate::types::{BlameView, Calendar, Record, RecordView, Value, ValueView};

verus! {

broadcast use {crate::types::lemma_value_view_unfold, crate::import_value::lemma_import_view_unfold};

/// A value with its blame stripped; names and paths become strings.
pub open spec fn export_value(v: ValueView) -> ImportView
    decreases v,
{
    match v {
        ValueView::String(s) => ImportView::String(s),
        ValueView::Integer(n) => ImportView::Integer(n),
        ValueView::SignedInteger(n) => ImportView::SignedInteger(n),
        ValueView::Bool(b) => ImportView::Bool(b),
        ValueView::Undefined => ImportView::Undefined,
        ValueView::Name(s) => ImportView::String(s),
        ValueView::Record(r) => ImportView::Record(
            Seq::new(
                r.len(),
                |i: int|
                    {
                        if 0 <= i < r.len() {
                            proof {
                                broadcast use vstd::seq::axiom_seq_index_decreases;

                                assert(decreases_to!(r => r[i]));
                            }
                            (r[i].0, export_value(r[i].1.0))
                        } else {
                            (Seq::empty(), ImportView::Undefined)
                        }
                    },
            ),
        ),
        ValueView::List(items) => ImportView::List(
            Seq::new(
                items.len(),
                |i: int|
                    {
                        if 0 <= i < items.len() {
                            proof {
                                broadcast use vstd::seq::axiom_seq_index_decreases;

                                assert(decreases_to!(items => items[i]));
                            }
                            export_value(items[i].0)
                        } else {
                            ImportView::Undefined
                        }
                    },
            ),
        ),
        ValueView::Path(s) => ImportView::String(s),
    }
}

/// A record with its values stripped of blame: the same names in the same
/// order.
pub open spec fn export_record(r: RecordView) -> ImportRecordView {
    export_value(ValueView::Record(r))->Record_0
}

/// Stripping blame keeps the names, so a record in name order gives a map
/// in name order.
pub proof fn lemma_export_record_names(r: RecordView)
    ensures
        export_record(r).len() == r.len(),
        forall|i: int| 0 <= i < r.len() ==> #[trigger] export_record(r)[i] == (r[i].0, export_value(r[i].1.0)),
        crate::keyed::keys_sorted(r) ==> crate::keyed::keys_sorted(export_record(r)),
{
}

/// Converts a value to a plain value, stripping blame.
pub fn value_to_import_value(value: &Value) -> (r: ImportValue)
    ensures
        r@ == export_value(value@),
    decreases value,
{
    match value {
        Value::String(s) => ImportValue::String(s.clone()),
        Value::Integer(n) => ImportValue::Integer(*n),
        Value::SignedInteger(n) => ImportValue::SignedInteger(*n),
        Value::Bool(b) => ImportValue::Bool(*b),
        Value::Undefined => ImportValue::Undefined,
        Value::Name(s) => ImportValue::String(s.clone()),
        Value::Record(r) => {
            ImportValue::Record(record_to_import_record(r))
        },
        Value::List(items) => {
            proof {
                crate::types::lemma_list_view(*items);
            }
            let mut out: Vec<ImportValue> = Vec::new();
            #[verifier::loop_isolation(false)]
            for i in 0..items.len()
                invariant
                    out@.len() == i,
                    forall|j: int| 0 <= j < i ==> (#[trigger] out@[j])@ == export_value(items@[j].value@),
            {
                proof {
                    broadcast use vstd::std_specs::vec::axiom_vec_decreases_to_view;
                    broadcast use vstd::seq::axiom_seq_index_decreases;

                    assert(decreases_to!(*items => items@));
                    assert(decreases_to!(items@ => items@[i as int]));
                }
                out.push(value_to_import_value(&items[i].value));
            }
            let res = ImportValue::List(out);
            assert(res@->List_0 =~= export_value(value@)->List_0);
            res
        },
        Value::Path(s) => ImportValue::String(s.clone()),
    }
}

/// Converts a record to a plain record, stripping blame.
pub fn record_to_import_record(record: &Record) -> (r: ImportRecord)
    ensures
        r@ == export_record(record@),
    decreases record,
{
    proof {
        crate::types::lemma_record_view(*record);
        lemma_export_record_names(record@);
    }
    let mut out: Vec<(String, ImportValue)> = Vec::new();
    #[verifier::loop_isolation(false)]
    for i in 0..record.0.len()
        invariant
            out@.len() == i,
            forall|j: int|
                0 <= j < i ==> (#[trigger] out@[j]).0@ == export_record(record@)[j].0
                    && out@[j].1@ == export_record(record@)[j].1,
    {
        proof {
            broadcast use vstd::std_specs::vec::axiom_vec_decreases_to_view;
            broadcast use vstd::seq::axiom_seq_index_decreases;

            assert(decreases_to!(record.0 => record.0@));
            assert(decreases_to!(record.0@ => record.0@[i as int]));
        }
        let e = &record.0[i];
        out.push((e.0.text.clone(), value_to_import_value(&e.1.value)));
    }
    proof {
        use_type_invariant(record);
        assert(ImportRecord(out)@ =~= export_record(record@));
    }
    let res = ImportRecord(out);
    res
}

/// Converts a validated calendar into its plain properties and its entries,
/// each entry a plain record.
pub fn calendar_to_import_values(calendar: &Calendar) -> (r: (ImportRecord, Vec<ImportValue>))
    ensures
        r.0@ == export_record(calendar.properties@),
        r.1@.len() == calendar.entries@.len(),
        forall|i: int|
            0 <= i < r.1@.len() ==> (#[trigger] r.1@[i])@ == ImportView::Record(
                export_record(calendar.entries@[i].value@),
            ),
{
    let cal_record = record_to_import_record(&calendar.properties);
    let mut entries: Vec<ImportValue> = Vec::new();
    for i in 0..calendar.entries.len()
        invariant
            entries@.len() == i,
            forall|j: int|
                0 <= j < i ==> (#[trigger] entries@[j])@ == ImportView::Record(
                    export_record(calendar.entries@[j].value@),
                ),
    {
        entries.push(ImportValue::Record(record_to_import_record(&calendar.entries[i].value)));
    }
    (cal_record, entries)
}

} // verus!
