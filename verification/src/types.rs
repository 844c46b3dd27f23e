//! Values of the language: blamed values, records kept in name order,
//! lists, and calendars, with their mathematical views.
use vstd::prelude::*;

use crate::interned::{DeclId, FieldName, FieldPath, SegView};
use crate::keyed::{key_insert, key_lookup, keys_sorted, lower_bound, lemma_lower_bound};
use crate::text::{chars_eq, chars_lt, seq_lt, to_chars, copy_string};

verus! {


/// Where a value came from: its declaration and the path inside it.
#[derive(Debug, PartialEq, Eq)]
pub struct Blame {
    pub decl: DeclId,
    pub path: FieldPath,
}

/// The mathematical form of a blame.
pub struct BlameView {
    pub decl: DeclId,
    pub path: Seq<SegView>,
}

impl View for Blame {
    type V = BlameView;

    open spec fn view(&self) -> BlameView {
        BlameView { decl: self.decl, path: self.path@ }
    }
}

impl Clone for Blame {
    fn clone(&self) -> (r: Self)
        ensures
            r@ == self@,
    {
        Blame { decl: self.decl, path: self.path.clone() }
    }
}

/// A value paired with its blame.
#[derive(Debug, PartialEq, Eq)]
pub struct Blamed<T> {
    pub value: T,
    pub blame: Blame,
}

impl<T: View> View for Blamed<T> {
    type V = (T::V, BlameView);

    open spec fn view(&self) -> (T::V, BlameView) {
        (self.value@, self.blame@)
    }
}

/// A record mapping field names to blamed values.
///
/// Fields are kept sorted by field-name text, so that iteration order does
/// not depend on insertion order.
#[derive(Debug, PartialEq, Eq)]
pub struct Record(pub(crate) Vec<(FieldName, Blamed<Value>)>);

/// A value of the language.
#[derive(Debug, PartialEq, Eq)]
pub enum Value {
    String(String),
    Integer(u64),
    SignedInteger(i64),
    Bool(bool),
    Undefined,
    Name(String),
    Record(Record),
    List(Vec<Blamed<Value>>),
    Path(String),
}

/// The mathematical form of a value.
pub enum ValueView {
    String(Seq<char>),
    Integer(u64),
    SignedInteger(i64),
    Bool(bool),
    Undefined,
    Name(Seq<char>),
    Record(Seq<(Seq<char>, (ValueView, BlameView))>),
    List(Seq<(ValueView, BlameView)>),
    Path(Seq<char>),
}

/// The mathematical form of a record: its entries in order.
pub type RecordView = Seq<(Seq<char>, (ValueView, BlameView))>;

pub closed spec fn value_view(v: Value) -> ValueView
    decreases v,
{
    match v {
        Value::String(s) => ValueView::String(s@),
        Value::Integer(n) => ValueView::Integer(n),
        Value::SignedInteger(n) => ValueView::SignedInteger(n),
        Value::Bool(b) => ValueView::Bool(b),
        Value::Undefined => ValueView::Undefined,
        Value::Name(s) => ValueView::Name(s@),
        Value::Record(r) => ValueView::Record(
            Seq::new(
                r.0@.len(),
                |i: int|
                    {
                        if 0 <= i < r.0@.len() {
                            proof {
                                broadcast use vstd::std_specs::vec::axiom_vec_decreases_to_view;
                                broadcast use vstd::seq::axiom_seq_index_decreases;

                                assert(decreases_to!(r.0 => r.0@));
                                assert(decreases_to!(r.0@ => r.0@[i]));
                            }
                            (r.0@[i].0.text@, (value_view(r.0@[i].1.value), r.0@[i].1.blame@))
                        } else {
                            (Seq::empty(), (ValueView::Undefined, r.0@[i].1.blame@))
                        }
                    },
            ),
        ),
        Value::List(items) => ValueView::List(
            Seq::new(
                items@.len(),
                |i: int|
                    {
                        if 0 <= i < items@.len() {
                            proof {
                                broadcast use vstd::std_specs::vec::axiom_vec_decreases_to_view;
                                broadcast use vstd::seq::axiom_seq_index_decreases;

                                assert(decreases_to!(items => items@));
                                assert(decreases_to!(items@ => items@[i]));
                            }
                            (value_view(items@[i].value), items@[i].blame@)
                        } else {
                            (ValueView::Undefined, items@[i].blame@)
                        }
                    },
            ),
        ),
        Value::Path(s) => ValueView::Path(s@),
    }
}

/// The view of a value, one level unfolded.
pub(crate) broadcast proof fn lemma_value_view_unfold(v: Value)
    ensures
        #[trigger] value_view(v) == match v {
            Value::String(s) => ValueView::String(s@),
            Value::Integer(n) => ValueView::Integer(n),
            Value::SignedInteger(n) => ValueView::SignedInteger(n),
            Value::Bool(b) => ValueView::Bool(b),
            Value::Undefined => ValueView::Undefined,
            Value::Name(s) => ValueView::Name(s@),
            Value::Record(r) => ValueView::Record(
                Seq::new(
                    r.0@.len(),
                    |i: int|
                        if 0 <= i < r.0@.len() {
                            (r.0@[i].0.text@, (value_view(r.0@[i].1.value), r.0@[i].1.blame@))
                        } else {
                            (Seq::empty(), (ValueView::Undefined, r.0@[i].1.blame@))
                        },
                ),
            ),
            Value::List(items) => ValueView::List(
                Seq::new(
                    items@.len(),
                    |i: int|
                        if 0 <= i < items@.len() {
                            (value_view(items@[i].value), items@[i].blame@)
                        } else {
                            (ValueView::Undefined, items@[i].blame@)
                        },
                ),
            ),
            Value::Path(s) => ValueView::Path(s@),
        },
{
    match v {
        Value::Record(r) => {
            assert(value_view(v)->Record_0 =~= Seq::new(
                r.0@.len(),
                |i: int|
                    if 0 <= i < r.0@.len() {
                        (r.0@[i].0.text@, (value_view(r.0@[i].1.value), r.0@[i].1.blame@))
                    } else {
                        (Seq::empty(), (ValueView::Undefined, r.0@[i].1.blame@))
                    },
            ));
        },
        Value::List(items) => {
            assert(value_view(v)->List_0 =~= Seq::new(
                items@.len(),
                |i: int|
                    if 0 <= i < items@.len() {
                        (value_view(items@[i].value), items@[i].blame@)
                    } else {
                        (ValueView::Undefined, items@[i].blame@)
                    },
            ));
        },
        _ => {},
    }
}

impl View for Value {
    type V = ValueView;

    open spec fn view(&self) -> ValueView {
        value_view(*self)
    }
}

impl View for Record {
    type V = RecordView;

    open spec fn view(&self) -> RecordView {
        value_view(Value::Record(*self))->Record_0
    }
}

pub(crate) proof fn lemma_record_view(r: Record)
    ensures
        r@.len() == r.0@.len(),
        forall|i: int|
            0 <= i < r.0@.len() ==> #[trigger] r@[i] == (
                r.0@[i].0.text@,
                (r.0@[i].1.value@, r.0@[i].1.blame@),
            ),
{
}

pub proof fn lemma_list_view(items: Vec<Blamed<Value>>)
    ensures
        (Value::List(items))@->List_0.len() == items@.len(),
        forall|i: int|
            0 <= i < items@.len() ==> #[trigger] (Value::List(items))@->List_0[i] == (
                items@[i].value@,
                items@[i].blame@,
            ),
{
}

/// A copy of a value with the same view.
pub fn copy_value(v: &Value) -> (r: Value)
    ensures
        r@ == v@,
    decreases v,
{
    match v {
        Value::String(s) => Value::String(s.clone()),
        Value::Integer(n) => Value::Integer(*n),
        Value::SignedInteger(n) => Value::SignedInteger(*n),
        Value::Bool(b) => Value::Bool(*b),
        Value::Undefined => Value::Undefined,
        Value::Name(s) => Value::Name(s.clone()),
        Value::Record(r) => Value::Record(copy_record(r)),
        Value::List(items) => {
            let mut out: Vec<Blamed<Value>> = Vec::new();
            #[verifier::loop_isolation(false)]
            for i in 0..items.len()
                invariant
                    out@.len() == i,
                    forall|j: int|
                        0 <= j < i ==> (#[trigger] out@[j]).value@ == items@[j].value@
                            && out@[j].blame@ == items@[j].blame@,
            {
                proof {
                    broadcast use vstd::std_specs::vec::axiom_vec_decreases_to_view;
                    broadcast use vstd::seq::axiom_seq_index_decreases;

                    assert(decreases_to!(*items => items@));
                    assert(decreases_to!(items@ => items@[i as int]));
                }
                let c = copy_value(&items[i].value);
                out.push(Blamed { value: c, blame: items[i].blame.clone() });
            }
            let res = Value::List(out);
            assert(res@->List_0 =~= v@->List_0);
            res
        },
        Value::Path(s) => Value::Path(s.clone()),
    }
}

/// A copy of a record with the same view.
pub fn copy_record(r: &Record) -> (c: Record)
    ensures
        c@ == r@,
    decreases r,
{
    let mut out: Vec<(FieldName, Blamed<Value>)> = Vec::new();
    #[verifier::loop_isolation(false)]
    for i in 0..r.0.len()
        invariant
            out@.len() == i,
            forall|j: int|
                0 <= j < i ==> (#[trigger] out@[j]).0.text@ == r.0@[j].0.text@ && out@[j].1.value@
                    == r.0@[j].1.value@ && out@[j].1.blame@ == r.0@[j].1.blame@,
    {
        proof {
            broadcast use vstd::std_specs::vec::axiom_vec_decreases_to_view;
            broadcast use vstd::seq::axiom_seq_index_decreases;

            assert(decreases_to!(r.0 => r.0@));
            assert(decreases_to!(r.0@ => r.0@[i as int]));
        }
        let e = &r.0[i];
        let c = copy_value(&e.1.value);
        out.push((e.0.clone(), Blamed { value: c, blame: e.1.blame.clone() }));
    }
    proof {
        use_type_invariant(r);
        assert(Record(out)@ =~= r@);
    }
    let res = Record(out);
    res
}

impl Record {
    /// Fields are kept in strictly increasing name order.
    #[verifier::type_invariant]
    pub open spec fn names_in_order(self) -> bool {
        keys_sorted(self@)
    }

    /// The empty record.
    pub fn new() -> (r: Record)
        ensures
            r@ == Seq::<(Seq<char>, (ValueView, BlameView))>::empty(),
    {
        let v: Vec<(FieldName, Blamed<Value>)> = Vec::new();
        assert(Record(v)@ =~= Seq::<(Seq<char>, (ValueView, BlameView))>::empty());
        let r = Record(v);
        r
    }

    /// The position at which `name` belongs.
    pub(crate) fn position(&self, name: &Vec<char>) -> (p: usize)
        ensures
            p == lower_bound(self@, name@),
            p <= self.0@.len(),
            self@.len() == self.0@.len(),
    {
        let mut i: usize = 0;
        proof {
            lemma_lower_bound(self@, name@);
        }
        while i < self.0.len()
            invariant
                i <= self.0@.len(),
                self@.len() == self.0@.len(),
                lower_bound(self@, name@) >= i,
                forall|j: int| 0 <= j < i ==> seq_lt(#[trigger] self@[j].0, name@),
                0 <= lower_bound(self@, name@) <= self@.len(),
                forall|j: int| 0 <= j < lower_bound(self@, name@) ==> seq_lt(#[trigger] self@[j].0, name@),
                lower_bound(self@, name@) < self@.len() ==> !seq_lt(self@[lower_bound(self@, name@)].0, name@),
            decreases self.0@.len() - i,
        {
            let k = to_chars(self.0[i].0.text.as_str());
            assert(k@ == self@[i as int].0);
            if !chars_lt(&k, name) {
                return i;
            }
            i = i + 1;
        }
        i
    }

    /// Inserts or replaces a field, keeping the fields in name order.
    pub fn insert(&mut self, name: FieldName, value: Blamed<Value>)
        ensures
            final(self)@ == key_insert(old(self)@, name.text@, value@),
            keys_sorted(old(self)@) ==> keys_sorted(final(self)@),
    {
        proof {
            use_type_invariant(&*self);
        }
        let ghost old_view = self@;
        let key = to_chars(name.text.as_str());
        let p = self.position(&key);
        proof {
            lemma_lower_bound(old_view, key@);
        }
        let ghost entry = (name.text@, value@);
        let mut replace = false;
        if p < self.0.len() {
            let k = to_chars(self.0[p].0.text.as_str());
            replace = chars_eq(&k, &key);
        }
        let mut v: Vec<(FieldName, Blamed<Value>)> = Vec::new();
        std::mem::swap(&mut v, &mut self.0);
        assert(Record(v)@ =~= old_view);
        if replace {
            v.set(p, (name, value));
            assert(Record(v)@ =~= old_view.update(p as int, entry));
        } else {
            v.insert(p, (name, value));
            assert(Record(v)@ =~= old_view.insert(p as int, entry));
        }
        proof {
            crate::keyed::lemma_insert_sorted(old_view, entry.0, entry.1);
        }
        self.0 = v;
    }

    /// Looks up a field by name.
    pub fn get(&self, name: &FieldName) -> (r: Option<&Blamed<Value>>)
        ensures
            match r {
                Some(b) => key_lookup(self@, name.text@) == Some(b@),
                None => key_lookup(self@, name.text@) is None,
            },
    {
        let key = to_chars(name.text.as_str());
        self.get_chars(&key)
    }

    /// Looks up a field by the characters of its name.
    pub fn get_chars(&self, key: &Vec<char>) -> (r: Option<&Blamed<Value>>)
        ensures
            match r {
                Some(b) => key_lookup(self@, key@) == Some(b@),
                None => key_lookup(self@, key@) is None,
            },
    {
        let p = self.position(key);
        if p < self.0.len() {
            let k = to_chars(self.0[p].0.text.as_str());
            if chars_eq(&k, key) {
                return Some(&self.0[p].1);
            }
        }
        None
    }

    /// Looks up a field by a string name.
    pub fn get_str(&self, name: &str) -> (r: Option<&Blamed<Value>>)
        ensures
            match r {
                Some(b) => key_lookup(self@, name@) == Some(b@),
                None => key_lookup(self@, name@) is None,
            },
    {
        let key = to_chars(name);
        self.get_chars(&key)
    }

    /// The fields as `(name, value)` pairs in name order.
    pub fn iter(&self) -> (r: Vec<(&FieldName, &Blamed<Value>)>)
        ensures
            r@.len() == self@.len(),
            forall|i: int|
                0 <= i < r@.len() ==> (#[trigger] r@[i]).0.text@ == self@[i].0 && r@[i].1@ == self@[i].1,
    {
        proof {
            lemma_record_view(*self);
        }
        let mut r: Vec<(&FieldName, &Blamed<Value>)> = Vec::new();
        for i in 0..self.0.len()
            invariant
                r@.len() == i,
                forall|j: int|
                    0 <= j < i ==> (#[trigger] r@[j]).0 == self.0@[j].0 && r@[j].1 == self.0@[j].1,
        {
            let e = &self.0[i];
            r.push((&e.0, &e.1));
        }
        r
    }

    /// The values only, in name order.
    pub fn values(&self) -> (r: Vec<&Blamed<Value>>)
        ensures
            r@.len() == self@.len(),
            forall|i: int| 0 <= i < r@.len() ==> (#[trigger] r@[i])@ == self@[i].1,
    {
        proof {
            lemma_record_view(*self);
        }
        let mut r: Vec<&Blamed<Value>> = Vec::new();
        for i in 0..self.0.len()
            invariant
                r@.len() == i,
                forall|j: int| 0 <= j < i ==> #[trigger] r@[j] == self.0@[j].1,
        {
            r.push(&self.0[i].1);
        }
        r
    }

    /// Number of fields.
    pub fn len(&self) -> (n: usize)
        ensures
            n == self@.len(),
    {
        self.0.len()
    }

    /// Whether the record has no fields.
    pub fn is_empty(&self) -> (b: bool)
        ensures
            b == (self@.len() == 0),
    {
        self.0.len() == 0
    }
}

impl Value {
    /// The name of this value's type, as diagnostics print it.
    pub fn value_type_name(&self) -> (s: &'static str)
        ensures
            s@ == spec_type_name(*self),
    {
        proof {
            reveal_strlit("string");
            reveal_strlit("unsigned integer");
            reveal_strlit("signed integer");
            reveal_strlit("boolean");
            reveal_strlit("undefined");
            reveal_strlit("name");
            reveal_strlit("record");
            reveal_strlit("list");
            reveal_strlit("path");
        }
        match self {
            Value::String(_) => "string",
            Value::Integer(_) => "unsigned integer",
            Value::SignedInteger(_) => "signed integer",
            Value::Bool(_) => "boolean",
            Value::Undefined => "undefined",
            Value::Name(_) => "name",
            Value::Record(_) => "record",
            Value::List(_) => "list",
            Value::Path(_) => "path",
        }
    }
}

/// The name of a value's type.
pub open spec fn spec_type_name(v: Value) -> Seq<char> {
    match v {
        Value::String(_) => "string"@,
        Value::Integer(_) => "unsigned integer"@,
        Value::SignedInteger(_) => "signed integer"@,
        Value::Bool(_) => "boolean"@,
        Value::Undefined => "undefined"@,
        Value::Name(_) => "name"@,
        Value::Record(_) => "record"@,
        Value::List(_) => "list"@,
        Value::Path(_) => "path"@,
    }
}

/// A validated calendar: its own properties and its entries.
#[derive(Debug, PartialEq, Eq)]
pub struct Calendar {
    pub properties: Record,
    pub entries: Vec<Blamed<Record>>,
    /// True when this calendar was produced by a foreign format import
    /// (iCalendar, JSCalendar); such calendars may omit `uid`.
    pub foreign_import: bool,
}

/// The mathematical form of a calendar.
pub struct CalendarView {
    pub properties: RecordView,
    pub entries: Seq<(RecordView, BlameView)>,
    pub foreign_import: bool,
}

impl View for Calendar {
    type V = CalendarView;

    open spec fn view(&self) -> CalendarView {
        CalendarView {
            properties: self.properties@,
            entries: Seq::new(self.entries@.len(), |i: int| self.entries@[i]@),
            foreign_import: self.foreign_import,
        }
    }
}

impl Default for Calendar {
    fn default() -> (c: Self)
        ensures
            c.properties@.len() == 0,
            c.entries@.len() == 0,
            !c.foreign_import,
    {
        Calendar { properties: Record::new(), entries: Vec::new(), foreign_import: false }
    }
}

} // verus!
