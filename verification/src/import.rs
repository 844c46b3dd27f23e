//! Plain values read from foreign formats, as values of the language, every
//! part blamed on the import that produced it.
use vstd::prelude::*;

use crate::desugar::record_of;
use crate::import_value::{ImportRecord, ImportRecordView, ImportValue, ImportView};
use crate::interned::FieldName;
use crate::ical_entries::{icalendar_value, IcalCalendarData, IcalEntry};
use crate::ical_import::values_view;
use crate::ical_source::{calendars_read, ical_parse, ical_parse_failure};
use crate::jscal_import::jscal_result;
use crate::jscal_source::{first_top_error, js_tops, json_parse, json_parse_failure, json_top_of, tops_parse, tops_records, JsonTop};
use crate::types::{Blame, BlameView, Blamed, Record, Value, ValueView};

verus! {

broadcast use {crate::types::lemma_value_view_unfold, crate::import_value::lemma_import_view_unfold};

/// A plain value as a value of the language, every part blamed on `b`.
pub open spec fn import_to_value(iv: ImportView, b: BlameView) -> ValueView
    decreases iv, 1nat,
{
    match iv {
        ImportView::String(s) => ValueView::String(s),
        ImportView::Integer(n) => ValueView::Integer(n),
        ImportView::SignedInteger(n) => ValueView::SignedInteger(n),
        ImportView::Bool(x) => ValueView::Bool(x),
        ImportView::Undefined => ValueView::Undefined,
        ImportView::Record(m) => ValueView::Record(record_of(imported_fields(m, b), b)),
        ImportView::List(items) => ValueView::List(
            Seq::new(
                items.len(),
                |i: int|
                    {
                        if 0 <= i < items.len() {
                            proof {
                                broadcast use vstd::seq::axiom_seq_index_decreases;

                                assert(decreases_to!(items => items[i]));
                            }
                            (import_to_value(items[i], b), b)
                        } else {
                            (ValueView::Undefined, b)
                        }
                    },
            ),
        ),
    }
}

/// The entries of a plain record as fields of the language, in order.
pub open spec fn imported_fields(m: ImportRecordView, b: BlameView) -> Seq<(Seq<char>, ValueView)>
    decreases m, 0nat,
{
    Seq::new(
        m.len(),
        |i: int|
            {
                if 0 <= i < m.len() {
                    proof {
                        broadcast use vstd::seq::axiom_seq_index_decreases;

                        assert(decreases_to!(m => m[i]));
                    }
                    (m[i].0, import_to_value(m[i].1, b))
                } else {
                    (Seq::empty(), ValueView::Undefined)
                }
            },
    )
}

/// Converts a plain value into a value of the language blamed on `blame`.
pub fn import_value_to_value(iv: ImportValue, blame: &Blame) -> (r: Value)
    ensures
        r@ == import_to_value(iv@, blame@),
        crate::export::export_value(r@) == iv@,
    decreases iv,
{
    let ghost v = iv@;
    let ghost giv = iv;
    match iv {
        ImportValue::String(s) => Value::String(s),
        ImportValue::Integer(n) => Value::Integer(n),
        ImportValue::SignedInteger(n) => Value::SignedInteger(n),
        ImportValue::Bool(x) => Value::Bool(x),
        ImportValue::Undefined => Value::Undefined,
        ImportValue::Record(map) => Value::Record(import_record_to_record(map, blame)),
        ImportValue::List(items) => {
            proof {
                crate::import_value::lemma_import_list_view(items);
            }
            let ghost orig = items;
            let mut out: Vec<Blamed<Value>> = Vec::new();
            #[verifier::loop_isolation(false)]
            for item in it: items.into_iter()
                invariant
                    it.seq() == orig@,
                    v == ImportValue::List(orig)@,
                    out@.len() == it.index(),
                    forall|j: int|
                        0 <= j < it.index() ==> (#[trigger] out@[j]).value@ == import_to_value(
                            orig@[j]@,
                            blame@,
                        ) && out@[j].blame@ == blame@,
                    forall|j: int|
                        0 <= j < it.index() ==> crate::export::export_value(
                            #[trigger] import_to_value(orig@[j]@, blame@),
                        ) == orig@[j]@,
            {
                proof {
                    broadcast use vstd::std_specs::vec::axiom_vec_decreases_to_view;
                    broadcast use vstd::seq::axiom_seq_index_decreases;

                    assert(decreases_to!(orig => orig@));
                    assert(decreases_to!(orig@ => orig@[it.index() as int]));
                    assert(item == orig@[it.index() as int]);
                    assert(decreases_to!(giv => item));
                }
                let value = import_value_to_value(item, blame);
                out.push(Blamed { value, blame: blame.clone() });
            }
            let res = Value::List(out);
            proof {
                crate::types::lemma_list_view(out);
            }
            assert(res@->List_0 =~= import_to_value(v, blame@)->List_0);
            proof {
                let items = v->List_0;
                assert forall|i: int| 0 <= i < items.len() implies crate::export::export_value(
                    import_to_value(#[trigger] items[i], blame@),
                ) == items[i] by {
                    assert(items[i] == orig@[i]@);
                    assert(crate::export::export_value(import_to_value(orig@[i]@, blame@)) == orig@[i]@);
                }
                lemma_list_round_trip_step(items, blame@);
            }
            res
        },
    }
}

/// Converts a plain record into a record of the language, inserting its
/// entries in turn, every field blamed on `blame`.
pub fn import_record_to_record(map: ImportRecord, blame: &Blame) -> (r: Record)
    ensures
        r@ == record_of(imported_fields(map@, blame@), blame@),
        crate::export::export_value(import_to_value(ImportView::Record(map@), blame@))
            == ImportView::Record(map@),
    decreases map,
{
    proof {
        crate::import_value::lemma_import_record_view(map);
        use_type_invariant(&map);
    }
    let ghost orig = map;
    let ghost fv = imported_fields(map@, blame@);
    let mut record = Record::new();
    assert(fv.take(0) =~= Seq::<(Seq<char>, ValueView)>::empty());
    let ImportRecord(entries) = map;
    #[verifier::loop_isolation(false)]
    for e in it: entries.into_iter()
        invariant
            it.seq() == orig.0@,
            fv == imported_fields(orig@, blame@),
            fv.len() == orig.0@.len(),
            forall|j: int| 0 <= j < fv.len() ==> #[trigger] fv[j] == (orig.0@[j].0@, import_to_value(orig.0@[j].1@, blame@)),
            record@ == record_of(fv.take(it.index() as int), blame@),
            forall|j: int| 0 <= j < it.index() ==> crate::export::export_value(
                import_to_value(#[trigger] orig.0@[j].1@, blame@),
            ) == orig.0@[j].1@,
    {
        let ghost k = it.index() as int;
        proof {
            broadcast use vstd::std_specs::vec::axiom_vec_decreases_to_view;
            broadcast use vstd::seq::axiom_seq_index_decreases;

            assert(decreases_to!(orig.0 => orig.0@));
            assert(decreases_to!(orig.0@ => orig.0@[k]));
            assert(e == orig.0@[k]);
            assert(decreases_to!(orig => e.1));
        }
        assert(fv.take(k + 1).drop_last() =~= fv.take(k));
        let (key, val) = e;
        let value = import_value_to_value(val, blame);
        record.insert(FieldName::new(key), Blamed { value, blame: blame.clone() });
    }
    assert(fv.take(fv.len() as int) =~= fv);
    proof {
        let m = orig@;
        assert forall|i: int| 0 <= i < m.len() implies crate::export::export_value(
            import_to_value(#[trigger] m[i].1, blame@),
        ) == m[i].1 by {
            assert(m[i] == (orig.0@[i].0@, orig.0@[i].1@));
        }
        lemma_record_round_trip_step(m, blame@);
    }
    record
}

/// Every element is true.
pub open spec fn all_true(s: Seq<bool>) -> bool {
    forall|i: int| 0 <= i < s.len() ==> #[trigger] s[i]
}

/// Every record inside a plain value has its entries in name order, as a
/// map keyed by name keeps them.
pub open spec fn import_sorted(iv: ImportView) -> bool
    decreases iv, 1nat,
{
    match iv {
        ImportView::Record(m) => crate::keyed::keys_sorted(m) && all_true(entry_flags(m)),
        ImportView::List(items) => all_true(item_flags(items)),
        _ => true,
    }
}

/// Whether each entry's value has its records in name order.
pub open spec fn entry_flags(m: ImportRecordView) -> Seq<bool>
    decreases m, 0nat,
{
    Seq::new(
        m.len(),
        |i: int|
            {
                if 0 <= i < m.len() {
                    proof {
                        broadcast use vstd::seq::axiom_seq_index_decreases;

                        assert(decreases_to!(m => m[i]));
                    }
                    import_sorted(m[i].1)
                } else {
                    true
                }
            },
    )
}

/// Whether each item has its records in name order.
pub open spec fn item_flags(items: Seq<ImportView>) -> Seq<bool>
    decreases items, 0nat,
{
    Seq::new(
        items.len(),
        |i: int|
            {
                if 0 <= i < items.len() {
                    proof {
                        broadcast use vstd::seq::axiom_seq_index_decreases;

                        assert(decreases_to!(items => items[i]));
                    }
                    import_sorted(items[i])
                } else {
                    true
                }
            },
    )
}

proof fn lemma_lower_bound_past_all<A>(s: Seq<(Seq<char>, A)>, k: Seq<char>)
    requires
        forall|i: int| 0 <= i < s.len() ==> crate::text::seq_lt(#[trigger] s[i].0, k),
    ensures
        crate::keyed::lower_bound(s, k) == s.len(),
{
    crate::keyed::lemma_lower_bound(s, k);
}

/// Inserting fields whose names increase builds the record of exactly those
/// fields, in that order.
proof fn lemma_record_of_increasing(fields: Seq<(Seq<char>, ValueView)>, b: BlameView)
    requires
        crate::keyed::keys_sorted(fields),
    ensures
        record_of(fields, b) == Seq::new(fields.len(), |i: int| (fields[i].0, (fields[i].1, b))),
    decreases fields.len(),
{
    if fields.len() > 0 {
        let p = fields.drop_last();
        assert(crate::keyed::keys_sorted(p));
        lemma_record_of_increasing(p, b);
        let prev = record_of(p, b);
        let k = fields.last().0;
        assert forall|i: int| 0 <= i < prev.len() implies crate::text::seq_lt(#[trigger] prev[i].0, k) by {
            assert(prev[i].0 == fields[i].0);
        }
        lemma_lower_bound_past_all(prev, k);
        assert(record_of(fields, b) =~= Seq::new(fields.len(), |i: int| (fields[i].0, (fields[i].1, b))));
    }
}

proof fn lemma_record_round_trip_step(m: ImportRecordView, b: BlameView)
    requires
        crate::keyed::keys_sorted(m),
        forall|i: int| 0 <= i < m.len() ==> crate::export::export_value(import_to_value(#[trigger] m[i].1, b)) == m[i].1,
    ensures
        crate::export::export_value(import_to_value(ImportView::Record(m), b)) == ImportView::Record(m),
{
    let f = imported_fields(m, b);
    assert(crate::keyed::keys_sorted(f)) by {
        assert forall|i: int, j: int| 0 <= i < j < f.len() implies crate::text::seq_lt(#[trigger] f[i].0, #[trigger] f[j].0) by {
            assert(f[i].0 == m[i].0);
            assert(f[j].0 == m[j].0);
        }
    }
    lemma_record_of_increasing(f, b);
    let r = record_of(f, b);
    crate::export::lemma_export_record_names(r);
    let e = crate::export::export_record(r);
    assert forall|i: int| 0 <= i < m.len() implies #[trigger] e[i] == m[i] by {
        assert(r[i] == (f[i].0, (f[i].1, b)));
        assert(f[i] == (m[i].0, import_to_value(m[i].1, b)));
    }
    assert(e =~= m);
}

proof fn lemma_list_round_trip_step(items: Seq<ImportView>, b: BlameView)
    requires
        forall|i: int| 0 <= i < items.len() ==> crate::export::export_value(import_to_value(#[trigger] items[i], b)) == items[i],
    ensures
        crate::export::export_value(import_to_value(ImportView::List(items), b)) == ImportView::List(items),
{
    let l = import_to_value(ImportView::List(items), b)->List_0;
    let e = crate::export::export_value(ValueView::List(l))->List_0;
    assert forall|i: int| 0 <= i < items.len() implies #[trigger] e[i] == items[i] by {
        assert(l[i] == (import_to_value(items[i], b), b));
        assert(e[i] == crate::export::export_value(l[i].0));
    }
    assert(e =~= items);
}

/// Reading a plain value into the language and writing it back out gives
/// the same plain value, when its records are in name order.
pub proof fn lemma_import_export_round_trip(iv: ImportView, b: BlameView)
    requires
        import_sorted(iv),
    ensures
        crate::export::export_value(import_to_value(iv, b)) == iv,
    decreases iv,
{
    match iv {
        ImportView::Record(m) => {
            assert(crate::keyed::keys_sorted(m));
            let f = imported_fields(m, b);
            assert(crate::keyed::keys_sorted(f)) by {
                assert forall|i: int, j: int| 0 <= i < j < f.len() implies crate::text::seq_lt(#[trigger] f[i].0, #[trigger] f[j].0) by {
                    assert(f[i].0 == m[i].0);
                    assert(f[j].0 == m[j].0);
                }
            }
            lemma_record_of_increasing(f, b);
            let r = record_of(f, b);
            assert(import_to_value(iv, b) == ValueView::Record(r));
            crate::export::lemma_export_record_names(r);
            let e = crate::export::export_record(r);
            assert(e.len() == m.len());
            assert forall|i: int| 0 <= i < m.len() implies #[trigger] e[i] == m[i] by {
                broadcast use vstd::seq::axiom_seq_index_decreases;

                assert(decreases_to!(m => m[i]));
                assert(entry_flags(m)[i]);
                lemma_import_export_round_trip(m[i].1, b);
                assert(r[i] == (f[i].0, (f[i].1, b)));
                assert(f[i] == (m[i].0, import_to_value(m[i].1, b)));
            }
            assert(e =~= m);
        },
        ImportView::List(items) => {
            let l = import_to_value(iv, b)->List_0;
            let e = crate::export::export_value(ValueView::List(l))->List_0;
            assert(l.len() == items.len());
            assert(e.len() == items.len());
            assert forall|i: int| 0 <= i < items.len() implies #[trigger] e[i] == items[i] by {
                broadcast use vstd::seq::axiom_seq_index_decreases;

                assert(decreases_to!(items => items[i]));
                assert(item_flags(items)[i]);
                lemma_import_export_round_trip(items[i], b);
                assert(l[i] == (import_to_value(items[i], b), b));
                assert(e[i] == crate::export::export_value(l[i].0));
            }
            assert(e =~= items);
        },
        _ => {},
    }
}


/// Translates an iCalendar document into a value of the language: the list
/// of its calendars' records, each with its entries, every part blamed on
/// `blame`.
///
/// Fails exactly when the text is not iCalendar, with
/// `iCalendar parse error: ` and the parser's message.
pub fn translate_icalendar(content: &str, blame: &Blame) -> (r: Result<Value, String>)
    ensures
        r is Err <==> ical_parse_failure(content@) is Some,
        r matches Err(e) ==> e@ == "iCalendar parse error: "@ + ical_parse_failure(content@)->Some_0,
        r matches Ok(v) ==> exists|parts: Seq<(IcalCalendarData, Vec<IcalEntry>)>|
            #[trigger] calendars_read(parts, ical_parse(content@)->Ok_0) && v@ == import_to_value(
                icalendar_value(parts),
                blame@,
            ),
{
    match crate::ical_source::translate_icalendar(content) {
        Ok(iv) => {
            let ghost ivv = iv@;
            let ghost parts = choose|parts: Seq<(IcalCalendarData, Vec<IcalEntry>)>|
                #[trigger] calendars_read(parts, ical_parse(content@)->Ok_0) && ivv == icalendar_value(parts);
            let v = import_value_to_value(iv, blame);
            assert(calendars_read(parts, ical_parse(content@)->Ok_0) && v@ == import_to_value(
                icalendar_value(parts),
                blame@,
            ));
            Ok(v)
        },
        Err(e) => Err(e),
    }
}

/// Translates a JSCalendar document into a value of the language: one
/// record for a single object, a list of records for an array, every part
/// blamed on `blame`; a group gives the records of its entries.
///
/// Fails with `JSCalendar JSON parse error: ` and the parser's message when
/// the text is not JSON; with the top-level message when it is neither an
/// object nor an array; and with the error of the first top-level value
/// that is not a valid group, event or task.
pub fn translate_jscalendar(content: &str, blame: &Blame) -> (r: Result<Value, String>)
    ensures
        json_parse_failure(content@) is Some ==> (r matches Err(e) && e@
            == "JSCalendar JSON parse error: "@ + json_parse_failure(content@)->Some_0),
        r matches Ok(v) ==> exists|iv: ImportView|
            ((iv is List || iv is Record) && v@ == import_to_value(iv, blame@)),
        json_parse(content@) matches Ok(j) ==> {
            let tops = js_tops(j);
            &&& json_top_of(j) == JsonTop::Other ==> (r matches Err(e)
                && e@ == "JSCalendar: expected a JSON object or array at top level"@)
            &&& json_top_of(j) != JsonTop::Other ==> (r is Ok <==> tops_parse(tops))
            &&& json_top_of(j) != JsonTop::Other ==> (r matches Err(e) ==> first_top_error(tops, e@))
            &&& r matches Ok(v) ==> exists|items: Seq<ImportValue>| #[trigger] tops_records(tops, items)
                && v@ == import_to_value(
                jscal_result(json_top_of(j) == JsonTop::Array, values_view(items)),
                blame@,
            )
        },
{
    match crate::jscal_source::translate_jscalendar(content) {
        Ok(iv) => {
            let ghost ivv = iv@;
            let v = import_value_to_value(iv, blame);
            assert((ivv is List || ivv is Record) && v@ == import_to_value(ivv, blame@));
            proof {
                if json_parse(content@) is Ok {
                    let j = json_parse(content@)->Ok_0;
                    let tops = js_tops(j);
                    let items = choose|items: Seq<ImportValue>| #[trigger] tops_records(tops, items)
                        && ivv == jscal_result(json_top_of(j) == JsonTop::Array, values_view(items));
                    assert(tops_records(tops, items) && v@ == import_to_value(
                        jscal_result(json_top_of(j) == JsonTop::Array, values_view(items)),
                        blame@,
                    ));
                }
            }
            Ok(v)
        },
        Err(e) => Err(e),
    }
}

} // verus!
