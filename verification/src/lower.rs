//! What lowering does with values once the syntax tree has been read: the
//! operators `==`, `!=`, `++` and `//`, field and index access, looking a
//! name up among the `let` bindings in scope, and choosing the format in
//! which an imported document is read.
use vstd::prelude::*;

use crate::keyed::{
    has_key, key_insert, key_lookup, keys_sorted, lemma_insert_lookup_other,
    lemma_insert_lookup_same, lemma_insert_sorted, lemma_lookup_sorted,
};
use crate::text::{from_chars, push_str, spec_starts_with, starts_with, ends_with, spec_ends_with, str_eq, to_chars};
use crate::types::{
    copy_value, lemma_list_view, lemma_record_view, spec_type_name, BlameView, Blamed, Record,
    RecordView, Value, ValueView,
};

verus! {

broadcast use {crate::types::lemma_value_view_unfold, crate::import_value::lemma_import_view_unfold};

// ── Structural equality ────────────────────────────────────────

/// Structural equality of values: blames are ignored, so that two lists
/// (or records) are equal when their items (or names and values) are.
pub open spec fn value_eq(a: ValueView, b: ValueView) -> bool
    decreases a, 1nat,
{
    match a {
        ValueView::List(xs) => match b {
            ValueView::List(ys) => items_eq(xs, ys),
            _ => false,
        },
        ValueView::Record(xs) => match b {
            ValueView::Record(ys) => fields_eq(xs, ys),
            _ => false,
        },
        _ => a == b,
    }
}

/// Two lists of blamed values of equal length whose values are pairwise equal.
pub open spec fn items_eq(xs: Seq<(ValueView, BlameView)>, ys: Seq<(ValueView, BlameView)>) -> bool
    decreases xs, 0nat,
{
    if xs.len() != ys.len() {
        false
    } else if xs.len() == 0 {
        true
    } else {
        proof {
            broadcast use vstd::seq::axiom_seq_index_decreases;

            assert(decreases_to!(xs => xs[0]));
        }
        value_eq(xs[0].0, ys[0].0) && items_eq(xs.skip(1), ys.skip(1))
    }
}

/// Two records with the same names in the same order and pairwise equal values.
pub open spec fn fields_eq(xs: RecordView, ys: RecordView) -> bool
    decreases xs, 0nat,
{
    if xs.len() != ys.len() {
        false
    } else if xs.len() == 0 {
        true
    } else {
        proof {
            broadcast use vstd::seq::axiom_seq_index_decreases;

            assert(decreases_to!(xs => xs[0]));
        }
        xs[0].0 == ys[0].0 && value_eq(xs[0].1.0, ys[0].1.0) && fields_eq(xs.skip(1), ys.skip(1))
    }
}

proof fn lemma_items_eq(xs: Seq<(ValueView, BlameView)>, ys: Seq<(ValueView, BlameView)>)
    ensures
        items_eq(xs, ys) <==> (xs.len() == ys.len() && forall|k: int|
            0 <= k < xs.len() ==> value_eq(#[trigger] xs[k].0, ys[k].0)),
    decreases xs.len(),
{
    if xs.len() == ys.len() && xs.len() > 0 {
        lemma_items_eq(xs.skip(1), ys.skip(1));
        if forall|k: int| 0 <= k < xs.len() ==> value_eq(#[trigger] xs[k].0, ys[k].0) {
            assert forall|k: int| 0 <= k < xs.skip(1).len() implies value_eq(
                #[trigger] xs.skip(1)[k].0,
                ys.skip(1)[k].0,
            ) by {
                assert(xs.skip(1)[k] == xs[k + 1]);
            }
        }
        if items_eq(xs, ys) {
            assert forall|k: int| 0 <= k < xs.len() implies value_eq(#[trigger] xs[k].0, ys[k].0) by {
                if k > 0 {
                    assert(xs.skip(1)[k - 1] == xs[k]);
                }
            }
        }
    }
}

proof fn lemma_fields_eq(xs: RecordView, ys: RecordView)
    ensures
        fields_eq(xs, ys) <==> (xs.len() == ys.len() && forall|k: int|
            0 <= k < xs.len() ==> (#[trigger] xs[k]).0 == ys[k].0 && value_eq(xs[k].1.0, ys[k].1.0)),
    decreases xs.len(),
{
    if xs.len() == ys.len() && xs.len() > 0 {
        lemma_fields_eq(xs.skip(1), ys.skip(1));
        if forall|k: int|
            0 <= k < xs.len() ==> (#[trigger] xs[k]).0 == ys[k].0 && value_eq(xs[k].1.0, ys[k].1.0) {
            assert forall|k: int| 0 <= k < xs.skip(1).len() implies (#[trigger] xs.skip(1)[k]).0
                == ys.skip(1)[k].0 && value_eq(xs.skip(1)[k].1.0, ys.skip(1)[k].1.0) by {
                assert(xs.skip(1)[k] == xs[k + 1]);
            }
        }
        if fields_eq(xs, ys) {
            assert forall|k: int| 0 <= k < xs.len() implies (#[trigger] xs[k]).0 == ys[k].0
                && value_eq(xs[k].1.0, ys[k].1.0) by {
                if k > 0 {
                    assert(xs.skip(1)[k - 1] == xs[k]);
                }
            }
        }
    }
}

/// A value with its blames left out: variants, field names, order and
/// values kept.
pub enum Erased {
    String(Seq<char>),
    Integer(u64),
    SignedInteger(i64),
    Bool(bool),
    Undefined,
    Name(Seq<char>),
    Record(Seq<(Seq<char>, Erased)>),
    List(Seq<Erased>),
    Path(Seq<char>),
}

/// A value with every blame inside it dropped.
pub open spec fn erase(v: ValueView) -> Erased
    decreases v, 1nat,
{
    match v {
        ValueView::String(s) => Erased::String(s),
        ValueView::Integer(n) => Erased::Integer(n),
        ValueView::SignedInteger(n) => Erased::SignedInteger(n),
        ValueView::Bool(b) => Erased::Bool(b),
        ValueView::Undefined => Erased::Undefined,
        ValueView::Name(s) => Erased::Name(s),
        ValueView::Path(s) => Erased::Path(s),
        ValueView::Record(fs) => Erased::Record(erase_fields(fs)),
        ValueView::List(xs) => Erased::List(erase_items(xs)),
    }
}

pub open spec fn erase_items(xs: Seq<(ValueView, BlameView)>) -> Seq<Erased>
    decreases xs, 0nat,
{
    Seq::new(
        xs.len(),
        |i: int|
            {
                if 0 <= i < xs.len() {
                    proof {
                        broadcast use vstd::seq::axiom_seq_index_decreases;

                        assert(decreases_to!(xs => xs[i]));
                    }
                    erase(xs[i].0)
                } else {
                    Erased::Undefined
                }
            },
    )
}

pub open spec fn erase_fields(fs: RecordView) -> Seq<(Seq<char>, Erased)>
    decreases fs, 0nat,
{
    Seq::new(
        fs.len(),
        |i: int|
            {
                if 0 <= i < fs.len() {
                    proof {
                        broadcast use vstd::seq::axiom_seq_index_decreases;

                        assert(decreases_to!(fs => fs[i]));
                    }
                    (fs[i].0, erase(fs[i].1.0))
                } else {
                    (Seq::empty(), Erased::Undefined)
                }
            },
    )
}

/// Two values are equal as `values_equal` computes it exactly when they
/// are the same once every blame inside them is dropped.
pub proof fn lemma_value_eq_is_erased_eq(a: ValueView, b: ValueView)
    ensures
        value_eq(a, b) == (erase(a) == erase(b)),
    decreases a,
{
    broadcast use vstd::seq::axiom_seq_index_decreases;

    match a {
        ValueView::List(xs) => match b {
            ValueView::List(ys) => {
                lemma_items_eq(xs, ys);
                assert forall|k: int| 0 <= k < xs.len() && k < ys.len() implies value_eq(
                    #[trigger] xs[k].0,
                    ys[k].0,
                ) == (erase(xs[k].0) == erase(ys[k].0)) by {
                    assert(decreases_to!(xs => xs[k]));
                    lemma_value_eq_is_erased_eq(xs[k].0, ys[k].0);
                }
                let ex = erase_items(xs);
                let ey = erase_items(ys);
                if value_eq(a, b) {
                    assert(ex =~= ey);
                }
                if erase(a) == erase(b) {
                    assert(ex == ey);
                    assert forall|k: int| 0 <= k < xs.len() implies value_eq(#[trigger] xs[k].0, ys[k].0) by {
                        assert(ex[k] == ey[k]);
                    }
                }
            },
            _ => {},
        },
        ValueView::Record(xs) => match b {
            ValueView::Record(ys) => {
                lemma_fields_eq(xs, ys);
                assert forall|k: int| 0 <= k < xs.len() && k < ys.len() implies value_eq(
                    (#[trigger] xs[k]).1.0,
                    ys[k].1.0,
                ) == (erase(xs[k].1.0) == erase(ys[k].1.0)) by {
                    assert(decreases_to!(xs => xs[k]));
                    lemma_value_eq_is_erased_eq(xs[k].1.0, ys[k].1.0);
                }
                let ex = erase_fields(xs);
                let ey = erase_fields(ys);
                if value_eq(a, b) {
                    assert(ex =~= ey);
                }
                if erase(a) == erase(b) {
                    assert(ex == ey);
                    assert forall|k: int| 0 <= k < xs.len() implies (#[trigger] xs[k]).0 == ys[k].0
                        && value_eq(xs[k].1.0, ys[k].1.0) by {
                        assert(ex[k] == ey[k]);
                    }
                }
            },
            _ => {},
        },
        _ => {},
    }
}

/// Structural equality of two values, as `==` computes it.
pub fn values_equal(a: &Value, b: &Value) -> (r: bool)
    ensures
        r == value_eq(a@, b@),
    decreases a,
{
    match a {
        Value::String(x) => match b {
            Value::String(y) => str_eq(x.as_str(), y.as_str()),
            _ => false,
        },
        Value::Integer(x) => match b {
            Value::Integer(y) => *x == *y,
            _ => false,
        },
        Value::SignedInteger(x) => match b {
            Value::SignedInteger(y) => *x == *y,
            _ => false,
        },
        Value::Bool(x) => match b {
            Value::Bool(y) => *x == *y,
            _ => false,
        },
        Value::Undefined => match b {
            Value::Undefined => true,
            _ => false,
        },
        Value::Name(x) => match b {
            Value::Name(y) => str_eq(x.as_str(), y.as_str()),
            _ => false,
        },
        Value::Path(x) => match b {
            Value::Path(y) => str_eq(x.as_str(), y.as_str()),
            _ => false,
        },
        Value::List(xs) => match b {
            Value::List(ys) => {
                proof {
                    lemma_list_view(*xs);
                    lemma_list_view(*ys);
                    lemma_items_eq(a@->List_0, b@->List_0);
                }
                if xs.len() != ys.len() {
                    return false;
                }
                let mut i: usize = 0;
                #[verifier::loop_isolation(false)]
                while i < xs.len()
                    invariant
                        i <= xs@.len(),
                        xs@.len() == ys@.len(),
                        a@ == Value::List(*xs)@,
                        b@ == Value::List(*ys)@,
                        forall|k: int| 0 <= k < i ==> value_eq(#[trigger] xs@[k].value@, ys@[k].value@),
                    decreases xs@.len() - i,
                {
                    proof {
                        broadcast use vstd::std_specs::vec::axiom_vec_decreases_to_view;
                        broadcast use vstd::seq::axiom_seq_index_decreases;

                        assert(decreases_to!(*xs => xs@));
                        assert(decreases_to!(xs@ => xs@[i as int]));
                    }
                    if !values_equal(&xs[i].value, &ys[i].value) {
                        assert(!value_eq(a@->List_0[i as int].0, b@->List_0[i as int].0));
                        return false;
                    }
                    i = i + 1;
                }
                assert forall|k: int| 0 <= k < a@->List_0.len() implies value_eq(
                    #[trigger] a@->List_0[k].0,
                    b@->List_0[k].0,
                ) by {
                    assert(value_eq(xs@[k].value@, ys@[k].value@));
                }
                true
            },
            _ => false,
        },
        Value::Record(xs) => match b {
            Value::Record(ys) => {
                proof {
                    lemma_record_view(*xs);
                    lemma_record_view(*ys);
                    lemma_fields_eq(xs@, ys@);
                }
                if xs.0.len() != ys.0.len() {
                    return false;
                }
                let mut i: usize = 0;
                #[verifier::loop_isolation(false)]
                while i < xs.0.len()
                    invariant
                        i <= xs.0@.len(),
                        xs.0@.len() == ys.0@.len(),
                        a@ == Value::Record(*xs)@,
                        b@ == Value::Record(*ys)@,
                        forall|k: int|
                            0 <= k < i ==> (#[trigger] xs.0@[k]).0.text@ == ys.0@[k].0.text@
                                && value_eq(xs.0@[k].1.value@, ys.0@[k].1.value@),
                    decreases xs.0@.len() - i,
                {
                    proof {
                        broadcast use vstd::std_specs::vec::axiom_vec_decreases_to_view;
                        broadcast use vstd::seq::axiom_seq_index_decreases;

                        assert(decreases_to!(*xs => xs.0));
                        assert(decreases_to!(xs.0 => xs.0@));
                        assert(decreases_to!(xs.0@ => xs.0@[i as int]));
                    }
                    if !str_eq(xs.0[i].0.text.as_str(), ys.0[i].0.text.as_str()) {
                        assert(xs@[i as int].0 != ys@[i as int].0);
                        return false;
                    }
                    if !values_equal(&xs.0[i].1.value, &ys.0[i].1.value) {
                        assert(!value_eq(xs@[i as int].1.0, ys@[i as int].1.0));
                        return false;
                    }
                    i = i + 1;
                }
                assert forall|k: int| 0 <= k < xs@.len() implies (#[trigger] xs@[k]).0 == ys@[k].0
                    && value_eq(xs@[k].1.0, ys@[k].1.0) by {
                    assert(xs.0@[k].0.text@ == ys.0@[k].0.text@);
                }
                true
            },
            _ => false,
        },
    }
}

/// Every value equals itself.
pub proof fn lemma_value_eq_reflexive(a: ValueView)
    ensures
        value_eq(a, a),
    decreases a,
{
    match a {
        ValueView::List(xs) => {
            assert forall|k: int| 0 <= k < xs.len() implies value_eq(#[trigger] xs[k].0, xs[k].0) by {
                broadcast use vstd::seq::axiom_seq_index_decreases;

                assert(decreases_to!(xs => xs[k]));
                lemma_value_eq_reflexive(xs[k].0);
            }
            lemma_items_eq(xs, xs);
        },
        ValueView::Record(xs) => {
            assert forall|k: int| 0 <= k < xs.len() implies (#[trigger] xs[k]).0 == xs[k].0
                && value_eq(xs[k].1.0, xs[k].1.0) by {
                broadcast use vstd::seq::axiom_seq_index_decreases;

                assert(decreases_to!(xs => xs[k]));
                lemma_value_eq_reflexive(xs[k].1.0);
            }
            lemma_fields_eq(xs, xs);
        },
        _ => {},
    }
}

/// Equality does not depend on the order of its operands.
pub proof fn lemma_value_eq_symmetric(a: ValueView, b: ValueView)
    ensures
        value_eq(a, b) == value_eq(b, a),
    decreases a,
{
    match a {
        ValueView::List(xs) => {
            if let ValueView::List(ys) = b {
                lemma_items_eq(xs, ys);
                lemma_items_eq(ys, xs);
                assert forall|k: int| 0 <= k < xs.len() implies value_eq(#[trigger] xs[k].0, ys[k].0)
                    == value_eq(ys[k].0, xs[k].0) by {
                    broadcast use vstd::seq::axiom_seq_index_decreases;

                    assert(decreases_to!(xs => xs[k]));
                    lemma_value_eq_symmetric(xs[k].0, ys[k].0);
                }
                if xs.len() == ys.len() {
                    if value_eq(a, b) {
                        assert forall|k: int| 0 <= k < ys.len() implies value_eq(#[trigger] ys[k].0, xs[k].0) by {
                            assert(value_eq(xs[k].0, ys[k].0));
                        }
                    }
                    if value_eq(b, a) {
                        assert forall|k: int| 0 <= k < xs.len() implies value_eq(#[trigger] xs[k].0, ys[k].0) by {
                            assert(value_eq(ys[k].0, xs[k].0));
                        }
                    }
                }
            }
        },
        ValueView::Record(xs) => {
            if let ValueView::Record(ys) = b {
                lemma_fields_eq(xs, ys);
                lemma_fields_eq(ys, xs);
                assert forall|k: int| 0 <= k < xs.len() implies value_eq(#[trigger] xs[k].1.0, ys[k].1.0)
                    == value_eq(ys[k].1.0, xs[k].1.0) by {
                    broadcast use vstd::seq::axiom_seq_index_decreases;

                    assert(decreases_to!(xs => xs[k]));
                    lemma_value_eq_symmetric(xs[k].1.0, ys[k].1.0);
                }
                if xs.len() == ys.len() {
                    if value_eq(a, b) {
                        assert forall|k: int| 0 <= k < ys.len() implies (#[trigger] ys[k]).0 == xs[k].0
                            && value_eq(ys[k].1.0, xs[k].1.0) by {
                            assert(value_eq(xs[k].1.0, ys[k].1.0));
                        }
                    }
                    if value_eq(b, a) {
                        assert forall|k: int| 0 <= k < xs.len() implies (#[trigger] xs[k]).0 == ys[k].0
                            && value_eq(xs[k].1.0, ys[k].1.0) by {
                            assert(value_eq(ys[k].1.0, xs[k].1.0));
                        }
                    }
                }
            }
        },
        _ => {},
    }
}


// ── Operators ──────────────────────────────────────────────────

/// The message when `++` is applied to something other than two lists.
pub open spec fn concat_error(lhs: Value, rhs: Value) -> Seq<char> {
    "++ requires two lists, got "@ + spec_type_name(lhs) + " and "@ + spec_type_name(rhs)
}

/// The message when `//` is applied to something other than two records.
pub open spec fn merge_error(lhs: Value, rhs: Value) -> Seq<char> {
    "// requires two records, got "@ + spec_type_name(lhs) + " and "@ + spec_type_name(rhs)
}

fn operand_error(op: &str, what: &str, lhs: &Value, rhs: &Value) -> (e: String)
    ensures
        e@ == op@ + " requires two "@ + what@ + ", got "@ + spec_type_name(*lhs) + " and "@
            + spec_type_name(*rhs),
{
    let mut m = to_chars(op);
    push_str(&mut m, " requires two ");
    push_str(&mut m, what);
    push_str(&mut m, ", got ");
    push_str(&mut m, lhs.value_type_name());
    push_str(&mut m, " and ");
    push_str(&mut m, rhs.value_type_name());
    from_chars(m.as_slice())
}

/// `lhs ++ rhs`: the items of two lists, those of `lhs` first.
pub fn concat_lists(lhs: Value, rhs: Value) -> (r: Result<Value, String>)
    ensures
        lhs@ is List && rhs@ is List ==> (r matches Ok(v) && v@ == ValueView::List(
            lhs@->List_0 + rhs@->List_0,
        )),
        !(lhs@ is List && rhs@ is List) ==> (r matches Err(e) && e@ == concat_error(lhs, rhs)),
{
    match lhs {
        Value::List(mut a) => match rhs {
            Value::List(mut b) => {
                let ghost av = Value::List(a)@->List_0;
                let ghost bv = Value::List(b)@->List_0;
                proof {
                    lemma_list_view(a);
                    lemma_list_view(b);
                }
                let ghost a0 = a@;
                let ghost b0 = b@;
                a.append(&mut b);
                let v = Value::List(a);
                proof {
                    lemma_list_view(a);
                    assert(v@->List_0 =~= av + bv) by {
                        assert forall|i: int| 0 <= i < av.len() + bv.len() implies #[trigger] v@->List_0[i]
                            == (av + bv)[i] by {
                            if i < av.len() {
                                assert(a@[i] == a0[i]);
                            } else {
                                assert(a@[i] == b0[i - av.len()]);
                            }
                        }
                    }
                }
                Ok(v)
            },
            _ => {
                let l = Value::List(a);
                let e = operand_error("++", "lists", &l, &rhs);
                proof {
                    reveal_strlit("++");
                    reveal_strlit("lists");
                    reveal_strlit("++ requires two lists, got ");
                    reveal_strlit(" requires two ");
                    reveal_strlit(", got ");
                    assert(e@ =~= concat_error(l, rhs));
                }
                Err(e)
            },
        },
        _ => {
            let e = operand_error("++", "lists", &lhs, &rhs);
            proof {
                reveal_strlit("++");
                reveal_strlit("lists");
                reveal_strlit("++ requires two lists, got ");
                reveal_strlit(" requires two ");
                reveal_strlit(", got ");
                assert(e@ =~= concat_error(lhs, rhs));
            }
            Err(e)
        },
    }
}

/// The fields of `a` after inserting each field of `b` in turn.
pub open spec fn merge_fields(a: RecordView, b: RecordView) -> RecordView
    decreases b.len(),
{
    if b.len() == 0 {
        a
    } else {
        key_insert(merge_fields(a, b.drop_last()), b.last().0, b.last().1)
    }
}

/// `lhs // rhs`: the fields of both records, those of `rhs` winning where
/// both have a name.
pub fn merge_records(lhs: Value, rhs: Value) -> (r: Result<Value, String>)
    ensures
        lhs@ is Record && rhs@ is Record ==> (r matches Ok(v) && v@ == ValueView::Record(
            merge_fields(lhs@->Record_0, rhs@->Record_0),
        )),
        !(lhs@ is Record && rhs@ is Record) ==> (r matches Err(e) && e@ == merge_error(lhs, rhs)),
{
    match lhs {
        Value::Record(mut a) => match rhs {
            Value::Record(b) => {
                let ghost a0 = a@;
                let ghost bv = b@;
                let ghost bs = b.0@;
                proof {
                    lemma_record_view(b);
                    assert(bv.take(0) =~= Seq::<(Seq<char>, (ValueView, BlameView))>::empty());
                }
                for e in it: b.0.into_iter()
                    invariant
                        it.seq() == bs,
                        bv.len() == bs.len(),
                        forall|j: int|
                            0 <= j < bs.len() ==> #[trigger] bv[j] == (
                                bs[j].0.text@,
                                (bs[j].1.value@, bs[j].1.blame@),
                            ),
                        a@ == merge_fields(a0, bv.take(it.index() as int)),
                {
                    let ghost i = it.index() as int;
                    proof {
                        assert(bv.take(i + 1).drop_last() =~= bv.take(i));
                        assert(bv.take(i + 1).last() == bv[i]);
                    }
                    a.insert(e.0, e.1);
                }
                assert(bv.take(bv.len() as int) =~= bv);
                Ok(Value::Record(a))
            },
            _ => {
                let l = Value::Record(a);
                let e = operand_error("//", "records", &l, &rhs);
                proof {
                    reveal_strlit("//");
                    reveal_strlit("records");
                    reveal_strlit("// requires two records, got ");
                    reveal_strlit(" requires two ");
                    reveal_strlit(", got ");
                    assert(e@ =~= merge_error(l, rhs));
                }
                Err(e)
            },
        },
        _ => {
            let e = operand_error("//", "records", &lhs, &rhs);
            proof {
                reveal_strlit("//");
                reveal_strlit("records");
                reveal_strlit("// requires two records, got ");
                reveal_strlit(" requires two ");
                reveal_strlit(", got ");
                assert(e@ =~= merge_error(lhs, rhs));
            }
            Err(e)
        },
    }
}

/// A merge keeps the fields of the right-hand record and, for every other
/// name, the field of the left-hand one: looking a name up in `a // b`
/// finds it in `b` when `b` has it, else in `a`.
pub proof fn lemma_merge_right_wins(a: RecordView, b: RecordView, k: Seq<char>)
    requires
        keys_sorted(a),
        keys_sorted(b),
    ensures
        keys_sorted(merge_fields(a, b)),
        key_lookup(merge_fields(a, b), k) == if has_key(b, k) {
            key_lookup(b, k)
        } else {
            key_lookup(a, k)
        },
    decreases b.len(),
{
    if b.len() > 0 {
        let c = b.drop_last();
        assert(keys_sorted(c)) by {
            assert forall|i: int, j: int| 0 <= i < j < c.len() implies crate::text::seq_lt(
                #[trigger] c[i].0,
                #[trigger] c[j].0,
            ) by {
                assert(c[i] == b[i] && c[j] == b[j]);
            }
        }
        lemma_merge_right_wins(a, c, k);
        let m = merge_fields(a, c);
        let (kl, vl) = b.last();
        lemma_insert_sorted(m, kl, vl);
        lemma_lookup_sorted(b, k);
        lemma_lookup_sorted(c, k);
        if k == kl {
            lemma_insert_lookup_same(m, kl, vl);
            assert(b[b.len() - 1].0 == k);
        } else {
            lemma_insert_lookup_other(m, kl, vl, k);
            if has_key(b, k) {
                let i = choose|i: int| 0 <= i < b.len() && (#[trigger] b[i]).0 == k;
                assert(c[i] == b[i]);
            }
            if has_key(c, k) {
                let i = choose|i: int| 0 <= i < c.len() && (#[trigger] c[i]).0 == k;
                assert(b[i] == c[i]);
            }
        }
    }
}

/// `target.name`: the named field of a record, undefined when it has none;
/// an error for anything but a record.
pub fn access_field(target: &Value, name: &str) -> (r: Result<Value, String>)
    ensures
        target@ is Record ==> (r matches Ok(v) && v@ == match key_lookup(target@->Record_0, name@) {
            Some(b) => b.0,
            None => ValueView::Undefined,
        }),
        !(target@ is Record) ==> (r matches Err(e) && e@ == "cannot access field `"@ + name@
            + "` on non-record"@),
{
    match target {
        Value::Record(rec) => match rec.get_str(name) {
            Some(b) => Ok(copy_value(&b.value)),
            None => Ok(Value::Undefined),
        },
        _ => {
            let mut m = to_chars("cannot access field `");
            push_str(&mut m, name);
            push_str(&mut m, "` on non-record");
            proof {
                reveal_strlit("cannot access field `");
                reveal_strlit("` on non-record");
            }
            Err(from_chars(m.as_slice()))
        },
    }
}

/// `target[index]`: the item of a list at an unsigned index, undefined
/// past its end or for anything but a list and an unsigned integer.
pub fn access_index(target: &Value, index: &Value) -> (r: Value)
    ensures
        (target@ is List && index@ is Integer && index@->Integer_0 < target@->List_0.len()) ==> r@
            == target@->List_0[index@->Integer_0 as int].0,
        !(target@ is List && index@ is Integer && index@->Integer_0 < target@->List_0.len())
            ==> r@ is Undefined,
{
    match target {
        Value::List(items) => match index {
            Value::Integer(i) => {
                proof {
                    lemma_list_view(*items);
                }
                if (*i as u128) < (items.len() as u128) {
                    let k = *i as usize;
                    copy_value(&items[k].value)
                } else {
                    Value::Undefined
                }
            },
            _ => Value::Undefined,
        },
        _ => Value::Undefined,
    }
}

// ── Bindings ───────────────────────────────────────────────────

/// The value bound to `name` by the innermost binding that names it.
pub open spec fn env_lookup(env: Seq<(String, Value)>, name: Seq<char>) -> Option<ValueView>
    decreases env.len(),
{
    if env.len() == 0 {
        None
    } else if env.last().0@ == name {
        Some(env.last().1@)
    } else {
        env_lookup(env.drop_last(), name)
    }
}

/// The value of the identifier `name` among the bindings in scope, the
/// innermost first; an error naming it when none binds it.
pub fn lookup_binding(env: &Vec<(String, Value)>, name: &str) -> (r: Result<Value, String>)
    ensures
        match env_lookup(env@, name@) {
            Some(v) => r matches Ok(x) && x@ == v,
            None => r matches Err(e) && e@ == "undefined variable `"@ + name@ + "`"@,
        },
{
    let mut i: usize = env.len();
    assert(env@.take(i as int) =~= env@);
    while i > 0
        invariant
            i <= env@.len(),
            env_lookup(env@.take(i as int), name@) == env_lookup(env@, name@),
        decreases i,
    {
        let ghost t = env@.take(i as int);
        assert(t.drop_last() =~= env@.take(i - 1));
        assert(t.last() == env@[i - 1]);
        if str_eq(env[i - 1].0.as_str(), name) {
            return Ok(copy_value(&env[i - 1].1));
        }
        i = i - 1;
    }
    proof {
        assert(env@.take(0) =~= Seq::<(String, Value)>::empty());
        reveal_strlit("undefined variable `");
        reveal_strlit("`");
    }
    let mut m = to_chars("undefined variable `");
    push_str(&mut m, name);
    push_str(&mut m, "`");
    Err(from_chars(m.as_slice()))
}

/// A binding shadows the bindings before it: after binding `name` to `v`,
/// `name` looks up `v`, and every other name what it looked up before.
pub proof fn lemma_binding_shadows(env: Seq<(String, Value)>, name: String, v: Value, other: Seq<char>)
    requires
        other != name@,
    ensures
        env_lookup(env.push((name, v)), name@) == Some(v@),
        env_lookup(env.push((name, v)), other) == env_lookup(env, other),
{
    assert(env.push((name, v)).drop_last() =~= env);
}

// ── Import formats ─────────────────────────────────────────────

/// How an imported document is read; `Infer` until something decides.
#[derive(Debug, Clone, Copy, PartialEq, Eq, Structural)]
pub enum ImportFormat {
    Gnomon,
    ICalendar,
    JSCalendar,
    Infer,
}

/// The format a `Content-Type` names: iCalendar for `text/calendar`,
/// JSCalendar for `application/json` and `application/jscalendar+json`,
/// Gnomon for anything else.
pub open spec fn format_of_content_type(ct: Seq<char>) -> ImportFormat {
    if spec_starts_with(ct, "text/calendar"@) {
        ImportFormat::ICalendar
    } else if spec_starts_with(ct, "application/json"@) || spec_starts_with(
        ct,
        "application/jscalendar+json"@,
    ) {
        ImportFormat::JSCalendar
    } else {
        ImportFormat::Gnomon
    }
}

/// The format a `Content-Type` header names.
pub fn infer_format_from_content_type(ct: &str) -> (r: ImportFormat)
    ensures
        r == format_of_content_type(ct@),
{
    if starts_with(ct, "text/calendar") {
        ImportFormat::ICalendar
    } else if starts_with(ct, "application/json") || starts_with(ct, "application/jscalendar+json") {
        ImportFormat::JSCalendar
    } else {
        ImportFormat::Gnomon
    }
}

/// The format of an import whose keyword gave `format`: when none was
/// given, iCalendar for a `.ics` source, JSCalendar for a `.json` one, and
/// still undecided otherwise.
pub open spec fn format_of_source(format: ImportFormat, source: Seq<char>) -> ImportFormat {
    if format != ImportFormat::Infer {
        format
    } else if spec_ends_with(source, ".ics"@) {
        ImportFormat::ICalendar
    } else if spec_ends_with(source, ".json"@) {
        ImportFormat::JSCalendar
    } else {
        ImportFormat::Infer
    }
}

/// Decides an undecided format by the extension of the import's source.
pub fn infer_format_from_source(format: ImportFormat, source: &str) -> (r: ImportFormat)
    ensures
        r == format_of_source(format, source@),
{
    match format {
        ImportFormat::Infer => {
            if ends_with(source, ".ics") {
                ImportFormat::ICalendar
            } else if ends_with(source, ".json") {
                ImportFormat::JSCalendar
            } else {
                ImportFormat::Infer
            }
        },
        f => f,
    }
}

/// The format in which a document fetched from a URI is read: a still
/// undecided one by the `Content-Type` it came with.
pub fn format_for_fetched(format: ImportFormat, content_type: &str) -> (r: ImportFormat)
    ensures
        format == ImportFormat::Infer ==> r == format_of_content_type(content_type@),
        format != ImportFormat::Infer ==> r == format,
{
    match format {
        ImportFormat::Infer => infer_format_from_content_type(content_type),
        f => f,
    }
}

/// The format in which a local file is read: Gnomon when still undecided.
pub fn format_for_local(format: ImportFormat) -> (r: ImportFormat)
    ensures
        format == ImportFormat::Infer ==> r == ImportFormat::Gnomon,
        format != ImportFormat::Infer ==> r == format,
{
    match format {
        ImportFormat::Infer => ImportFormat::Gnomon,
        f => f,
    }
}

/// The format recorded with fetched content in the cache.
pub fn cache_format_hint(format: ImportFormat) -> (r: &'static str)
    ensures
        r@ == match format {
            ImportFormat::ICalendar => "icalendar"@,
            ImportFormat::JSCalendar => "jscalendar"@,
            _ => "gnomon"@,
        },
{
    match format {
        ImportFormat::ICalendar => "icalendar",
        ImportFormat::JSCalendar => "jscalendar",
        _ => "gnomon",
    }
}

/// Whether a file is already being imported along the chain that leads to
/// it: the message to report for importing it again, or `None`.
pub fn circular_import(stack: &Vec<String>, target: &str) -> (r: Option<String>)
    ensures
        match r {
            Some(m) => (exists|i: int| 0 <= i < stack@.len() && (#[trigger] stack@[i])@ == target@) && m@
                == "circular import detected: "@ + target@,
            None => forall|i: int| 0 <= i < stack@.len() ==> (#[trigger] stack@[i])@ != target@,
        },
{
    let mut i: usize = 0;
    while i < stack.len()
        invariant
            i <= stack@.len(),
            forall|j: int| 0 <= j < i ==> (#[trigger] stack@[j])@ != target@,
        decreases stack@.len() - i,
    {
        if str_eq(stack[i].as_str(), target) {
            let mut m: Vec<char> = Vec::new();
            push_str(&mut m, "circular import detected: ");
            push_str(&mut m, target);
            assert(stack@[i as int]@ == target@);
            return Some(from_chars(m.as_slice()));
        }
        i = i + 1;
    }
    None
}

/// Options controlling evaluation.
#[derive(Debug, Clone)]
pub struct EvalOptions {
    /// Bypass the URI import cache and always fetch again.
    pub force_refresh: bool,
}

impl Default for EvalOptions {
    fn default() -> (r: Self)
        ensures
            !r.force_refresh,
    {
        EvalOptions { force_refresh: false }
    }
}
} // verus!
