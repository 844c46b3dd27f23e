//! Shape-checking: validates that records conform to the type definitions
//! of the calendar model, collecting every violation as a diagnostic.
use vstd::prelude::*;

use crate::input::SourceFile;
use crate::keyed::{lower_bound, lemma_lower_bound};
use crate::queries::{Diagnostic, Severity, TextRange};
use crate::text::{
    chars_eq, from_chars, i64_to_dec, push_chars, push_str, spec_int_to_dec, spec_nat_to_dec,
    to_chars, u64_to_dec,
};
use crate::types::{lemma_list_view, lemma_record_view, Blamed, Calendar, Record, RecordView, Value, ValueView, BlameView};

verus! {

broadcast use {crate::types::lemma_value_view_unfold, crate::import_value::lemma_import_view_unfold};

// ── Shape definitions ──────────────────────────────────────────

/// A named record shape, checked recursively.
#[derive(Debug, Clone, Copy, PartialEq, Eq)]
pub enum Shape {
    Location,
    VirtualLocation,
    Link,
    Relation,
    Participant,
    Alert,
    RecurrenceRule,
    NDay,
    LeapMonth,
}

/// A fixed set of allowed string values.
#[derive(Debug, Clone, Copy, PartialEq, Eq)]
pub enum EnumSet {
    EventStatus,
    TaskProgress,
    Privacy,
    FreeBusy,
    ParticipantKind,
    ParticipationStatus,
    AlertAction,
    Frequency,
    Skip,
    Weekday,
}

/// The expected type of a field's value.
#[derive(Debug, Clone, Copy, PartialEq, Eq)]
pub enum ExpectedType {
    String,
    Integer,
    Bool,
    Name,
    /// String or record (description).
    StringOrRecord,
    /// A record conforming to a named shape.
    Record(Shape),
    /// Any record (desugared datetime or duration).
    AnyRecord,
    ListOfStrings,
    ListOfRecords(Shape),
    ListOfUintRange(u64, u64),
    ListOfNonzeroSignedIntRange(i64, i64),
    ListOfSignedIntegers,
    /// One of a fixed set of string values.
    Enum(EnumSet),
    UintRange(u64, u64),
    /// Strictly positive unsigned integer.
    PositiveUint,
    NonzeroSignedInt,
    /// Datetime record, unsigned integer, or undefined.
    RruleTermination,
}

/// A field definition within a shape.
#[derive(Debug, Clone, Copy, PartialEq, Eq)]
pub struct FieldDef {
    pub name: &'static str,
    pub required: bool,
    pub expected: ExpectedType,
}

/// The field tables of the model.
#[derive(Debug, Clone, Copy, PartialEq, Eq)]
pub enum FieldTable {
    Calendar,
    Event,
    Task,
    CommonEntry,
    Location,
    VirtualLocation,
    Link,
    Relation,
    Participant,
    Alert,
    RecurrenceRule,
    NDay,
    LeapMonth,
}

pub open spec fn spec_table(t: FieldTable) -> Seq<FieldDef> {
    match t {
        FieldTable::Calendar => seq![
            FieldDef { name: "uid", required: true, expected: ExpectedType::String },
        ],
        FieldTable::Event => seq![
            FieldDef { name: "name", required: false, expected: ExpectedType::Name },
            FieldDef { name: "start", required: true, expected: ExpectedType::AnyRecord },
            FieldDef { name: "uid", required: true, expected: ExpectedType::String },
            FieldDef { name: "duration", required: false, expected: ExpectedType::AnyRecord },
            FieldDef { name: "status", required: false, expected: ExpectedType::Enum(EnumSet::EventStatus) },
            FieldDef { name: "end_time_zone", required: false, expected: ExpectedType::String },
        ],
        FieldTable::Task => seq![
            FieldDef { name: "name", required: false, expected: ExpectedType::Name },
            FieldDef { name: "uid", required: true, expected: ExpectedType::String },
            FieldDef { name: "due", required: false, expected: ExpectedType::AnyRecord },
            FieldDef { name: "start", required: false, expected: ExpectedType::AnyRecord },
            FieldDef { name: "estimated_duration", required: false, expected: ExpectedType::AnyRecord },
            FieldDef { name: "percent_complete", required: false, expected: ExpectedType::UintRange(0, 100) },
            FieldDef { name: "progress", required: false, expected: ExpectedType::Enum(EnumSet::TaskProgress) },
        ],
        FieldTable::CommonEntry => seq![
            FieldDef { name: "title", required: false, expected: ExpectedType::String },
            FieldDef { name: "description", required: false, expected: ExpectedType::StringOrRecord },
            FieldDef { name: "time_zone", required: false, expected: ExpectedType::String },
            FieldDef { name: "priority", required: false, expected: ExpectedType::UintRange(0, 9) },
            FieldDef { name: "privacy", required: false, expected: ExpectedType::Enum(EnumSet::Privacy) },
            FieldDef { name: "free_busy_status", required: false, expected: ExpectedType::Enum(EnumSet::FreeBusy) },
            FieldDef { name: "show_without_time", required: false, expected: ExpectedType::Bool },
            FieldDef { name: "color", required: false, expected: ExpectedType::String },
            FieldDef { name: "keywords", required: false, expected: ExpectedType::ListOfStrings },
            FieldDef { name: "categories", required: false, expected: ExpectedType::ListOfStrings },
            FieldDef { name: "locale", required: false, expected: ExpectedType::String },
            FieldDef { name: "locations", required: false, expected: ExpectedType::ListOfRecords(Shape::Location) },
            FieldDef { name: "virtual_locations", required: false, expected: ExpectedType::ListOfRecords(Shape::VirtualLocation) },
            FieldDef { name: "links", required: false, expected: ExpectedType::ListOfRecords(Shape::Link) },
            FieldDef { name: "related_to", required: false, expected: ExpectedType::ListOfRecords(Shape::Relation) },
            FieldDef { name: "participants", required: false, expected: ExpectedType::ListOfRecords(Shape::Participant) },
            FieldDef { name: "alerts", required: false, expected: ExpectedType::ListOfRecords(Shape::Alert) },
            FieldDef { name: "recur", required: false, expected: ExpectedType::Record(Shape::RecurrenceRule) },
        ],
        FieldTable::Location => seq![
            FieldDef { name: "name", required: false, expected: ExpectedType::String },
            FieldDef { name: "location_types", required: false, expected: ExpectedType::ListOfStrings },
            FieldDef { name: "coordinates", required: false, expected: ExpectedType::String },
            FieldDef { name: "links", required: false, expected: ExpectedType::ListOfRecords(Shape::Link) },
        ],
        FieldTable::VirtualLocation => seq![
            FieldDef { name: "name", required: false, expected: ExpectedType::String },
            FieldDef { name: "uri", required: true, expected: ExpectedType::String },
            FieldDef { name: "features", required: false, expected: ExpectedType::ListOfStrings },
        ],
        FieldTable::Link => seq![
            FieldDef { name: "href", required: true, expected: ExpectedType::String },
            FieldDef { name: "content_type", required: false, expected: ExpectedType::String },
            FieldDef { name: "size", required: false, expected: ExpectedType::Integer },
            FieldDef { name: "rel", required: false, expected: ExpectedType::String },
            FieldDef { name: "display", required: false, expected: ExpectedType::ListOfStrings },
            FieldDef { name: "title", required: false, expected: ExpectedType::String },
        ],
        FieldTable::Relation => seq![
            FieldDef { name: "uid", required: true, expected: ExpectedType::String },
            FieldDef { name: "relation", required: false, expected: ExpectedType::ListOfStrings },
        ],
        FieldTable::Participant => seq![
            FieldDef { name: "name", required: false, expected: ExpectedType::String },
            FieldDef { name: "email", required: false, expected: ExpectedType::String },
            FieldDef { name: "description", required: false, expected: ExpectedType::String },
            FieldDef { name: "calendar_address", required: false, expected: ExpectedType::String },
            FieldDef { name: "kind", required: false, expected: ExpectedType::Enum(EnumSet::ParticipantKind) },
            FieldDef { name: "roles", required: false, expected: ExpectedType::ListOfStrings },
            FieldDef { name: "participation_status", required: false, expected: ExpectedType::Enum(EnumSet::ParticipationStatus) },
            FieldDef { name: "expect_reply", required: false, expected: ExpectedType::Bool },
        ],
        FieldTable::Alert => seq![
            FieldDef { name: "trigger", required: true, expected: ExpectedType::AnyRecord },
            FieldDef { name: "action", required: false, expected: ExpectedType::Enum(EnumSet::AlertAction) },
        ],
        FieldTable::RecurrenceRule => seq![
            FieldDef { name: "frequency", required: true, expected: ExpectedType::Enum(EnumSet::Frequency) },
            FieldDef { name: "interval", required: false, expected: ExpectedType::PositiveUint },
            FieldDef { name: "skip", required: false, expected: ExpectedType::Enum(EnumSet::Skip) },
            FieldDef { name: "week_start", required: false, expected: ExpectedType::Enum(EnumSet::Weekday) },
            FieldDef { name: "termination", required: false, expected: ExpectedType::RruleTermination },
            FieldDef { name: "by_day", required: false, expected: ExpectedType::ListOfRecords(Shape::NDay) },
            FieldDef { name: "by_month_day", required: false, expected: ExpectedType::ListOfNonzeroSignedIntRange(-31i64, 31i64) },
            FieldDef { name: "by_month", required: false, expected: ExpectedType::ListOfRecords(Shape::LeapMonth) },
            FieldDef { name: "by_year_day", required: false, expected: ExpectedType::ListOfNonzeroSignedIntRange(-366i64, 366i64) },
            FieldDef { name: "by_week_no", required: false, expected: ExpectedType::ListOfNonzeroSignedIntRange(-53i64, 53i64) },
            FieldDef { name: "by_hour", required: false, expected: ExpectedType::ListOfUintRange(0, 23) },
            FieldDef { name: "by_minute", required: false, expected: ExpectedType::ListOfUintRange(0, 59) },
            FieldDef { name: "by_second", required: false, expected: ExpectedType::ListOfUintRange(0, 60) },
            FieldDef { name: "by_set_position", required: false, expected: ExpectedType::ListOfSignedIntegers },
        ],
        FieldTable::NDay => seq![
            FieldDef { name: "day", required: true, expected: ExpectedType::Enum(EnumSet::Weekday) },
            FieldDef { name: "nth", required: false, expected: ExpectedType::NonzeroSignedInt },
        ],
        FieldTable::LeapMonth => seq![
            FieldDef { name: "month", required: true, expected: ExpectedType::PositiveUint },
            FieldDef { name: "leap", required: true, expected: ExpectedType::Bool },
        ],
    }
}

pub fn table(t: FieldTable) -> (v: Vec<FieldDef>)
    ensures
        v@ == spec_table(t),
{
    match t {
        FieldTable::Calendar => vec![
            FieldDef { name: "uid", required: true, expected: ExpectedType::String },
        ],
        FieldTable::Event => vec![
            FieldDef { name: "name", required: false, expected: ExpectedType::Name },
            FieldDef { name: "start", required: true, expected: ExpectedType::AnyRecord },
            FieldDef { name: "uid", required: true, expected: ExpectedType::String },
            FieldDef { name: "duration", required: false, expected: ExpectedType::AnyRecord },
            FieldDef { name: "status", required: false, expected: ExpectedType::Enum(EnumSet::EventStatus) },
            FieldDef { name: "end_time_zone", required: false, expected: ExpectedType::String },
        ],
        FieldTable::Task => vec![
            FieldDef { name: "name", required: false, expected: ExpectedType::Name },
            FieldDef { name: "uid", required: true, expected: ExpectedType::String },
            FieldDef { name: "due", required: false, expected: ExpectedType::AnyRecord },
            FieldDef { name: "start", required: false, expected: ExpectedType::AnyRecord },
            FieldDef { name: "estimated_duration", required: false, expected: ExpectedType::AnyRecord },
            FieldDef { name: "percent_complete", required: false, expected: ExpectedType::UintRange(0, 100) },
            FieldDef { name: "progress", required: false, expected: ExpectedType::Enum(EnumSet::TaskProgress) },
        ],
        FieldTable::CommonEntry => vec![
            FieldDef { name: "title", required: false, expected: ExpectedType::String },
            FieldDef { name: "description", required: false, expected: ExpectedType::StringOrRecord },
            FieldDef { name: "time_zone", required: false, expected: ExpectedType::String },
            FieldDef { name: "priority", required: false, expected: ExpectedType::UintRange(0, 9) },
            FieldDef { name: "privacy", required: false, expected: ExpectedType::Enum(EnumSet::Privacy) },
            FieldDef { name: "free_busy_status", required: false, expected: ExpectedType::Enum(EnumSet::FreeBusy) },
            FieldDef { name: "show_without_time", required: false, expected: ExpectedType::Bool },
            FieldDef { name: "color", required: false, expected: ExpectedType::String },
            FieldDef { name: "keywords", required: false, expected: ExpectedType::ListOfStrings },
            FieldDef { name: "categories", required: false, expected: ExpectedType::ListOfStrings },
            FieldDef { name: "locale", required: false, expected: ExpectedType::String },
            FieldDef { name: "locations", required: false, expected: ExpectedType::ListOfRecords(Shape::Location) },
            FieldDef { name: "virtual_locations", required: false, expected: ExpectedType::ListOfRecords(Shape::VirtualLocation) },
            FieldDef { name: "links", required: false, expected: ExpectedType::ListOfRecords(Shape::Link) },
            FieldDef { name: "related_to", required: false, expected: ExpectedType::ListOfRecords(Shape::Relation) },
            FieldDef { name: "participants", required: false, expected: ExpectedType::ListOfRecords(Shape::Participant) },
            FieldDef { name: "alerts", required: false, expected: ExpectedType::ListOfRecords(Shape::Alert) },
            FieldDef { name: "recur", required: false, expected: ExpectedType::Record(Shape::RecurrenceRule) },
        ],
        FieldTable::Location => vec![
            FieldDef { name: "name", required: false, expected: ExpectedType::String },
            FieldDef { name: "location_types", required: false, expected: ExpectedType::ListOfStrings },
            FieldDef { name: "coordinates", required: false, expected: ExpectedType::String },
            FieldDef { name: "links", required: false, expected: ExpectedType::ListOfRecords(Shape::Link) },
        ],
        FieldTable::VirtualLocation => vec![
            FieldDef { name: "name", required: false, expected: ExpectedType::String },
            FieldDef { name: "uri", required: true, expected: ExpectedType::String },
            FieldDef { name: "features", required: false, expected: ExpectedType::ListOfStrings },
        ],
        FieldTable::Link => vec![
            FieldDef { name: "href", required: true, expected: ExpectedType::String },
            FieldDef { name: "content_type", required: false, expected: ExpectedType::String },
            FieldDef { name: "size", required: false, expected: ExpectedType::Integer },
            FieldDef { name: "rel", required: false, expected: ExpectedType::String },
            FieldDef { name: "display", required: false, expected: ExpectedType::ListOfStrings },
            FieldDef { name: "title", required: false, expected: ExpectedType::String },
        ],
        FieldTable::Relation => vec![
            FieldDef { name: "uid", required: true, expected: ExpectedType::String },
            FieldDef { name: "relation", required: false, expected: ExpectedType::ListOfStrings },
        ],
        FieldTable::Participant => vec![
            FieldDef { name: "name", required: false, expected: ExpectedType::String },
            FieldDef { name: "email", required: false, expected: ExpectedType::String },
            FieldDef { name: "description", required: false, expected: ExpectedType::String },
            FieldDef { name: "calendar_address", required: false, expected: ExpectedType::String },
            FieldDef { name: "kind", required: false, expected: ExpectedType::Enum(EnumSet::ParticipantKind) },
            FieldDef { name: "roles", required: false, expected: ExpectedType::ListOfStrings },
            FieldDef { name: "participation_status", required: false, expected: ExpectedType::Enum(EnumSet::ParticipationStatus) },
            FieldDef { name: "expect_reply", required: false, expected: ExpectedType::Bool },
        ],
        FieldTable::Alert => vec![
            FieldDef { name: "trigger", required: true, expected: ExpectedType::AnyRecord },
            FieldDef { name: "action", required: false, expected: ExpectedType::Enum(EnumSet::AlertAction) },
        ],
        FieldTable::RecurrenceRule => vec![
            FieldDef { name: "frequency", required: true, expected: ExpectedType::Enum(EnumSet::Frequency) },
            FieldDef { name: "interval", required: false, expected: ExpectedType::PositiveUint },
            FieldDef { name: "skip", required: false, expected: ExpectedType::Enum(EnumSet::Skip) },
            FieldDef { name: "week_start", required: false, expected: ExpectedType::Enum(EnumSet::Weekday) },
            FieldDef { name: "termination", required: false, expected: ExpectedType::RruleTermination },
            FieldDef { name: "by_day", required: false, expected: ExpectedType::ListOfRecords(Shape::NDay) },
            FieldDef { name: "by_month_day", required: false, expected: ExpectedType::ListOfNonzeroSignedIntRange(-31i64, 31i64) },
            FieldDef { name: "by_month", required: false, expected: ExpectedType::ListOfRecords(Shape::LeapMonth) },
            FieldDef { name: "by_year_day", required: false, expected: ExpectedType::ListOfNonzeroSignedIntRange(-366i64, 366i64) },
            FieldDef { name: "by_week_no", required: false, expected: ExpectedType::ListOfNonzeroSignedIntRange(-53i64, 53i64) },
            FieldDef { name: "by_hour", required: false, expected: ExpectedType::ListOfUintRange(0, 23) },
            FieldDef { name: "by_minute", required: false, expected: ExpectedType::ListOfUintRange(0, 59) },
            FieldDef { name: "by_second", required: false, expected: ExpectedType::ListOfUintRange(0, 60) },
            FieldDef { name: "by_set_position", required: false, expected: ExpectedType::ListOfSignedIntegers },
        ],
        FieldTable::NDay => vec![
            FieldDef { name: "day", required: true, expected: ExpectedType::Enum(EnumSet::Weekday) },
            FieldDef { name: "nth", required: false, expected: ExpectedType::NonzeroSignedInt },
        ],
        FieldTable::LeapMonth => vec![
            FieldDef { name: "month", required: true, expected: ExpectedType::PositiveUint },
            FieldDef { name: "leap", required: true, expected: ExpectedType::Bool },
        ],
    }
}

/// The table of fields of a named shape.
pub open spec fn shape_table(shape: Shape) -> FieldTable {
    match shape {
        Shape::Location => FieldTable::Location,
        Shape::VirtualLocation => FieldTable::VirtualLocation,
        Shape::Link => FieldTable::Link,
        Shape::Relation => FieldTable::Relation,
        Shape::Participant => FieldTable::Participant,
        Shape::Alert => FieldTable::Alert,
        Shape::RecurrenceRule => FieldTable::RecurrenceRule,
        Shape::NDay => FieldTable::NDay,
        Shape::LeapMonth => FieldTable::LeapMonth,
    }
}

/// The field definitions of a named shape.
pub fn shape_fields(shape: Shape) -> (v: Vec<FieldDef>)
    ensures
        v@ == spec_table(shape_table(shape)),
{
    match shape {
        Shape::Location => table(FieldTable::Location),
        Shape::VirtualLocation => table(FieldTable::VirtualLocation),
        Shape::Link => table(FieldTable::Link),
        Shape::Relation => table(FieldTable::Relation),
        Shape::Participant => table(FieldTable::Participant),
        Shape::Alert => table(FieldTable::Alert),
        Shape::RecurrenceRule => table(FieldTable::RecurrenceRule),
        Shape::NDay => table(FieldTable::NDay),
        Shape::LeapMonth => table(FieldTable::LeapMonth),
    }
}

/// The allowed values of an enumeration.
pub open spec fn spec_enum_values(set: EnumSet) -> Seq<&'static str> {
    match set {
        EnumSet::EventStatus => seq!["tentative", "confirmed", "cancelled"],
        EnumSet::TaskProgress => seq!["needs-action", "in-process", "completed", "failed", "cancelled"],
        EnumSet::Privacy => seq!["public", "private", "secret"],
        EnumSet::FreeBusy => seq!["free", "busy"],
        EnumSet::ParticipantKind => seq!["individual", "group", "location", "resource"],
        EnumSet::ParticipationStatus => seq!["needs-action", "accepted", "declined", "tentative", "delegated"],
        EnumSet::AlertAction => seq!["display", "email"],
        EnumSet::Frequency => seq!["yearly", "monthly", "weekly", "daily", "hourly", "minutely", "secondly"],
        EnumSet::Skip => seq!["omit", "forward", "backward"],
        EnumSet::Weekday => seq!["monday", "tuesday", "wednesday", "thursday", "friday", "saturday", "sunday"],
    }
}

/// The allowed values of an enumeration.
pub fn enum_values(set: EnumSet) -> (v: Vec<&'static str>)
    ensures
        v@ == spec_enum_values(set),
{
    match set {
        EnumSet::EventStatus => vec!["tentative", "confirmed", "cancelled"],
        EnumSet::TaskProgress => vec!["needs-action", "in-process", "completed", "failed", "cancelled"],
        EnumSet::Privacy => vec!["public", "private", "secret"],
        EnumSet::FreeBusy => vec!["free", "busy"],
        EnumSet::ParticipantKind => vec!["individual", "group", "location", "resource"],
        EnumSet::ParticipationStatus => vec!["needs-action", "accepted", "declined", "tentative", "delegated"],
        EnumSet::AlertAction => vec!["display", "email"],
        EnumSet::Frequency => vec!["yearly", "monthly", "weekly", "daily", "hourly", "minutely", "secondly"],
        EnumSet::Skip => vec!["omit", "forward", "backward"],
        EnumSet::Weekday => vec!["monday", "tuesday", "wednesday", "thursday", "friday", "saturday", "sunday"],
    }
}

// ── Diagnostics ────────────────────────────────────────────────

/// The mathematical form of a diagnostic.
pub struct DiagView {
    pub source: SourceFile,
    pub range: TextRange,
    pub severity: Severity,
    pub message: Seq<char>,
}

impl View for Diagnostic {
    type V = DiagView;

    open spec fn view(&self) -> DiagView {
        DiagView {
            source: self.source,
            range: self.range,
            severity: self.severity,
            message: self.message@,
        }
    }
}

pub open spec fn diags_view(v: Seq<Diagnostic>) -> Seq<DiagView> {
    Seq::new(v.len(), |i: int| v[i]@)
}

/// An error with no particular range.
pub open spec fn error_at(source: SourceFile, message: Seq<char>) -> DiagView {
    DiagView { source, range: TextRange { start: 0, end: 0 }, severity: Severity::Error, message }
}

/// The name of the type of a value.
pub open spec fn view_type_name(v: ValueView) -> Seq<char> {
    match v {
        ValueView::String(_) => "string"@,
        ValueView::Integer(_) => "unsigned integer"@,
        ValueView::SignedInteger(_) => "signed integer"@,
        ValueView::Bool(_) => "boolean"@,
        ValueView::Undefined => "undefined"@,
        ValueView::Name(_) => "name"@,
        ValueView::Record(_) => "record"@,
        ValueView::List(_) => "list"@,
        ValueView::Path(_) => "path"@,
    }
}

/// `{context}: field `{field}` expected {expected}, got {actual type}`.
pub open spec fn spec_type_error(
    source: SourceFile,
    context: Seq<char>,
    field: Seq<char>,
    expected: Seq<char>,
    actual: ValueView,
) -> DiagView {
    error_at(
        source,
        context + ": field `"@ + field + "` expected "@ + expected + ", got "@ + view_type_name(
            actual,
        ),
    )
}

/// `{field}[{i}]`.
pub open spec fn indexed(field: Seq<char>, i: nat) -> Seq<char> {
    field + "["@ + spec_nat_to_dec(i) + "]"@
}

/// The allowed values quoted and joined with `, `.
pub open spec fn quoted_list(vals: Seq<&'static str>) -> Seq<char>
    decreases vals.len(),
{
    if vals.len() == 0 {
        seq![]
    } else if vals.len() == 1 {
        "\""@ + vals[0]@ + "\""@
    } else {
        quoted_list(vals.drop_last()) + ", "@ + "\""@ + vals.last()@ + "\""@
    }
}

/// Whether `s` is one of the allowed values.
pub open spec fn in_values(vals: Seq<&'static str>, s: Seq<char>) -> bool {
    exists|i: int| 0 <= i < vals.len() && (#[trigger] vals[i])@ == s
}

/// The diagnostic (if any) for one element of a list of scalars.
pub open spec fn elem_errors(
    expected: ExpectedType,
    v: ValueView,
    field: Seq<char>,
    i: nat,
    source: SourceFile,
    context: Seq<char>,
) -> Seq<DiagView> {
    let fi = indexed(field, i);
    match expected {
        ExpectedType::ListOfStrings => match v {
            ValueView::String(_) => seq![],
            _ => seq![spec_type_error(source, context, fi, "string"@, v)],
        },
        ExpectedType::ListOfSignedIntegers => match v {
            ValueView::SignedInteger(_) => seq![],
            _ => seq![spec_type_error(source, context, fi, "signed integer"@, v)],
        },
        ExpectedType::ListOfUintRange(lo, hi) => match v {
            ValueView::Integer(n) => if lo <= n && n <= hi {
                seq![]
            } else {
                seq![
                    error_at(
                        source,
                        context + ": element `"@ + fi + "` must be in range "@ + spec_nat_to_dec(
                            lo as nat,
                        ) + "..="@ + spec_nat_to_dec(hi as nat) + ", got "@ + spec_nat_to_dec(
                            n as nat,
                        ),
                    ),
                ]
            },
            _ => seq![spec_type_error(source, context, fi, "unsigned integer"@, v)],
        },
        ExpectedType::ListOfNonzeroSignedIntRange(lo, hi) => match v {
            ValueView::SignedInteger(n) => if n != 0 && lo <= n && n <= hi {
                seq![]
            } else if n == 0 {
                seq![error_at(source, context + ": element `"@ + fi + "` must be nonzero"@)]
            } else {
                seq![
                    error_at(
                        source,
                        context + ": element `"@ + fi + "` must be in range "@ + spec_int_to_dec(
                            lo as int,
                        ) + "..="@ + spec_int_to_dec(hi as int) + ", got "@ + spec_int_to_dec(
                            n as int,
                        ),
                    ),
                ]
            },
            _ => seq![spec_type_error(source, context, fi, "signed integer"@, v)],
        },
        _ => seq![],
    }
}

/// The diagnostics for the first `n` elements of a list of scalars.
pub open spec fn list_elem_errors(
    items: Seq<(ValueView, BlameView)>,
    n: nat,
    expected: ExpectedType,
    field: Seq<char>,
    source: SourceFile,
    context: Seq<char>,
) -> Seq<DiagView>
    decreases n,
{
    if n == 0 {
        seq![]
    } else {
        list_elem_errors(items, (n - 1) as nat, expected, field, source, context) + elem_errors(
            expected,
            items[n - 1].0,
            field,
            (n - 1) as nat,
            source,
            context,
        )
    }
}

/// The diagnostics for a record's fields against a list of definitions.
pub open spec fn spec_check_fields(
    r: RecordView,
    defs: Seq<FieldDef>,
    source: SourceFile,
    context: Seq<char>,
) -> Seq<DiagView>
    decreases r, defs.len(),
{
    if defs.len() == 0 {
        seq![]
    } else {
        let def = defs.last();
        let p = lower_bound(r, def.name@);
        let here = if 0 <= p < r.len() && r[p].0 == def.name@ {
            proof {
                broadcast use vstd::seq::axiom_seq_index_decreases;

                assert(decreases_to!(r => r[p]));
            }
            spec_check_value(r[p].1.0, def.expected, def.name@, source, context)
        } else if def.required {
            seq![error_at(source, context + ": missing required field `"@ + def.name@ + "`"@)]
        } else {
            seq![]
        };
        spec_check_fields(r, defs.drop_last(), source, context) + here
    }
}

/// The diagnostics for the first `n` elements of a list of records of a shape.
pub open spec fn list_record_errors(
    items: Seq<(ValueView, BlameView)>,
    n: nat,
    shape: Shape,
    field: Seq<char>,
    source: SourceFile,
    context: Seq<char>,
) -> Seq<DiagView>
    decreases items, n,
{
    if n == 0 || n > items.len() {
        seq![]
    } else {
        let here = match items[n - 1].0 {
            ValueView::Record(rec) => {
                proof {
                    broadcast use vstd::seq::axiom_seq_index_decreases;

                    assert(decreases_to!(items => items[n - 1]));
                }
                spec_check_fields(
                    rec,
                    spec_table(shape_table(shape)),
                    source,
                    context + "."@ + indexed(field, (n - 1) as nat),
                )
            },
            other => seq![
                spec_type_error(source, context, indexed(field, (n - 1) as nat), "record"@, other),
            ],
        };
        list_record_errors(items, (n - 1) as nat, shape, field, source, context) + here
    }
}

/// The diagnostics for a value against its expected type.
pub open spec fn spec_check_value(
    v: ValueView,
    expected: ExpectedType,
    field: Seq<char>,
    source: SourceFile,
    context: Seq<char>,
) -> Seq<DiagView>
    decreases v, 0nat,
{
    let te = |e: Seq<char>| seq![spec_type_error(source, context, field, e, v)];
    match expected {
        ExpectedType::String => if v is String {
            seq![]
        } else {
            te("string"@)
        },
        ExpectedType::Integer => if v is Integer {
            seq![]
        } else {
            te("unsigned integer"@)
        },
        ExpectedType::Bool => if v is Bool {
            seq![]
        } else {
            te("boolean"@)
        },
        ExpectedType::Name => if v is Name {
            seq![]
        } else {
            te("name"@)
        },
        ExpectedType::StringOrRecord => if v is String || v is Record {
            seq![]
        } else {
            te("string or record"@)
        },
        ExpectedType::Record(shape) => match v {
            ValueView::Record(r) => spec_check_fields(
                r,
                spec_table(shape_table(shape)),
                source,
                context + "."@ + field,
            ),
            _ => te("record"@),
        },
        ExpectedType::AnyRecord => if v is Record {
            seq![]
        } else {
            te("record"@)
        },
        ExpectedType::ListOfRecords(shape) => match v {
            ValueView::List(items) => list_record_errors(
                items,
                items.len(),
                shape,
                field,
                source,
                context,
            ),
            _ => te("list"@),
        },
        ExpectedType::ListOfStrings | ExpectedType::ListOfSignedIntegers
        | ExpectedType::ListOfUintRange(_, _) | ExpectedType::ListOfNonzeroSignedIntRange(
            _,
            _,
        ) => match v {
            ValueView::List(items) => list_elem_errors(
                items,
                items.len(),
                expected,
                field,
                source,
                context,
            ),
            _ => te("list"@),
        },
        ExpectedType::Enum(set) => match v {
            ValueView::String(s) => if in_values(spec_enum_values(set), s) {
                seq![]
            } else {
                seq![
                    error_at(
                        source,
                        context + ": field `"@ + field + "` must be one of "@ + quoted_list(
                            spec_enum_values(set),
                        ) + ", got \""@ + s + "\""@,
                    ),
                ]
            },
            _ => te("string"@),
        },
        ExpectedType::UintRange(lo, hi) => match v {
            ValueView::Integer(n) => if lo <= n && n <= hi {
                seq![]
            } else {
                seq![
                    error_at(
                        source,
                        context + ": field `"@ + field + "` must be in range "@ + spec_nat_to_dec(
                            lo as nat,
                        ) + "..="@ + spec_nat_to_dec(hi as nat) + ", got "@ + spec_nat_to_dec(
                            n as nat,
                        ),
                    ),
                ]
            },
            _ => te("unsigned integer"@),
        },
        ExpectedType::PositiveUint => match v {
            ValueView::Integer(n) => if n > 0 {
                seq![]
            } else {
                seq![
                    error_at(
                        source,
                        context + ": field `"@ + field + "` must be a positive integer, got 0"@,
                    ),
                ]
            },
            _ => te("positive integer"@),
        },
        ExpectedType::NonzeroSignedInt => match v {
            ValueView::SignedInteger(n) => if n != 0 {
                seq![]
            } else {
                seq![
                    error_at(
                        source,
                        context + ": field `"@ + field
                            + "` must be a nonzero signed integer, got 0"@,
                    ),
                ]
            },
            _ => te("nonzero signed integer"@),
        },
        ExpectedType::RruleTermination => if v is Record || v is Integer || v is Undefined {
            seq![]
        } else {
            te("datetime record, unsigned integer, or undefined"@)
        },
    }
}

// ── Checking ───────────────────────────────────────────────────

pub(crate) fn push_diag(diagnostics: &mut Vec<Diagnostic>, d: Diagnostic)
    ensures
        diags_view(final(diagnostics)@) == diags_view(old(diagnostics)@).push(d@),
{
    let ghost before = diagnostics@;
    let ghost dv = d@;
    diagnostics.push(d);
    assert(diags_view(diagnostics@) =~= diags_view(before).push(dv));
}

fn copy_chars(v: &Vec<char>) -> (r: Vec<char>)
    ensures
        r@ == v@,
{
    let mut r: Vec<char> = Vec::new();
    push_chars(&mut r, v);
    assert(r@ =~= v@);
    r
}

/// An error about `source` with the given message.
pub(crate) fn error(source: SourceFile, message: Vec<char>) -> (d: Diagnostic)
    ensures
        d@ == error_at(source, message@),
{
    let text = from_chars(message.as_slice());
    Diagnostic { source, range: TextRange::empty(), severity: Severity::Error, message: text }
}

/// A type-mismatch error for a field.
fn type_error(
    source: SourceFile,
    context: &Vec<char>,
    field_name: &Vec<char>,
    expected: &str,
    actual: &Value,
) -> (d: Diagnostic)
    ensures
        d@ == spec_type_error(source, context@, field_name@, expected@, actual@),
{
    let mut m = copy_chars(context);
    push_str(&mut m, ": field `");
    push_chars(&mut m, field_name);
    push_str(&mut m, "` expected ");
    push_str(&mut m, expected);
    push_str(&mut m, ", got ");
    push_str(&mut m, value_type_name(actual));
    let ghost want = context@ + ": field `"@ + field_name@ + "` expected "@ + expected@ + ", got "@
        + view_type_name(actual@);
    assert(m@ =~= want);
    error(source, m)
}

/// The name of the type of a value.
pub fn value_type_name(value: &Value) -> (s: &'static str)
    ensures
        s@ == view_type_name(value@),
{
    value.value_type_name()
}

/// `{field}[{i}]`.
fn indexed_name(field: &Vec<char>, i: usize) -> (r: Vec<char>)
    ensures
        r@ == indexed(field@, i as nat),
{
    let mut r = copy_chars(field);
    push_str(&mut r, "[");
    let d = u64_to_dec(i as u64);
    push_chars(&mut r, &d);
    push_str(&mut r, "]");
    assert(r@ =~= indexed(field@, i as nat));
    r
}

/// `{context}.{field}`.
fn nested_context(context: &Vec<char>, field: &Vec<char>) -> (r: Vec<char>)
    ensures
        r@ == context@ + "."@ + field@,
{
    let mut r = copy_chars(context);
    push_str(&mut r, ".");
    push_chars(&mut r, field);
    r
}

/// Whether `s` is one of `vals`.
fn contains_value(vals: &Vec<&'static str>, s: &String) -> (r: bool)
    ensures
        r == in_values(vals@, s@),
{
    let mut j: usize = 0;
    while j < vals.len()
        invariant
            j <= vals@.len(),
            forall|k: int| 0 <= k < j ==> (#[trigger] vals@[k])@ != s@,
        decreases vals@.len() - j,
    {
        if crate::text::str_eq(vals[j], s.as_str()) {
            return true;
        }
        j = j + 1;
    }
    false
}

/// The allowed values quoted and joined with `, `.
fn quoted(vals: &Vec<&'static str>) -> (r: Vec<char>)
    ensures
        r@ == quoted_list(vals@),
{
    let mut r: Vec<char> = Vec::new();
    let mut k: usize = 0;
    while k < vals.len()
        invariant
            k <= vals@.len(),
            r@ == quoted_list(vals@.take(k as int)),
        decreases vals@.len() - k,
    {
        assert(vals@.take(k + 1).drop_last() == vals@.take(k as int));
        assert(vals@.take(k + 1).last() == vals@[k as int]);
        if k > 0 {
            push_str(&mut r, ", ");
        } else {
            assert(vals@.take(1)[0] == vals@[0]);
        }
        push_str(&mut r, "\"");
        push_str(&mut r, vals[k]);
        push_str(&mut r, "\"");
        k = k + 1;
    }
    assert(vals@.take(vals@.len() as int) == vals@);
    r
}

/// Checks one element of a list of scalars.
fn check_elem(
    expected: ExpectedType,
    v: &Value,
    field_name: &Vec<char>,
    i: usize,
    source: SourceFile,
    context: &Vec<char>,
    diagnostics: &mut Vec<Diagnostic>,
)
    ensures
        diags_view(final(diagnostics)@) == diags_view(old(diagnostics)@) + elem_errors(
            expected,
            v@,
            field_name@,
            i as nat,
            source,
            context@,
        ),
{
    let ghost before = diags_view(diagnostics@);
    let fi = indexed_name(field_name, i);
    match expected {
        ExpectedType::ListOfStrings => {
            if !(matches!(v, Value::String(..))) {
                push_diag(diagnostics, type_error(source, context, &fi, "string", v));
            }
        },
        ExpectedType::ListOfSignedIntegers => {
            if !(matches!(v, Value::SignedInteger(..))) {
                push_diag(diagnostics, type_error(source, context, &fi, "signed integer", v));
            }
        },
        ExpectedType::ListOfUintRange(lo, hi) => {
            match v {
                Value::Integer(n) => {
                    if !(lo <= *n && *n <= hi) {
                        let mut m = copy_chars(context);
                        push_str(&mut m, ": element `");
                        push_chars(&mut m, &fi);
                        push_str(&mut m, "` must be in range ");
                        push_chars(&mut m, &u64_to_dec(lo));
                        push_str(&mut m, "..=");
                        push_chars(&mut m, &u64_to_dec(hi));
                        push_str(&mut m, ", got ");
                        push_chars(&mut m, &u64_to_dec(*n));
                        push_diag(diagnostics, error(source, m));
                    }
                },
                _ => {
                    push_diag(diagnostics, type_error(source, context, &fi, "unsigned integer", v));
                },
            }
        },
        ExpectedType::ListOfNonzeroSignedIntRange(lo, hi) => {
            match v {
                Value::SignedInteger(n) => {
                    if *n != 0 && lo <= *n && *n <= hi {
                    } else if *n == 0 {
                        let mut m = copy_chars(context);
                        push_str(&mut m, ": element `");
                        push_chars(&mut m, &fi);
                        push_str(&mut m, "` must be nonzero");
                        push_diag(diagnostics, error(source, m));
                    } else {
                        let mut m = copy_chars(context);
                        push_str(&mut m, ": element `");
                        push_chars(&mut m, &fi);
                        push_str(&mut m, "` must be in range ");
                        push_chars(&mut m, &i64_to_dec(lo));
                        push_str(&mut m, "..=");
                        push_chars(&mut m, &i64_to_dec(hi));
                        push_str(&mut m, ", got ");
                        push_chars(&mut m, &i64_to_dec(*n));
                        push_diag(diagnostics, error(source, m));
                    }
                },
                _ => {
                    push_diag(diagnostics, type_error(source, context, &fi, "signed integer", v));
                },
            }
        },
        _ => {},
    }
    assert(diags_view(diagnostics@) =~= before + elem_errors(
        expected,
        v@,
        field_name@,
        i as nat,
        source,
        context@,
    ));
}

/// Checks a record's fields against a set of field definitions.
pub fn check_fields(
    record: &Record,
    fields: &Vec<FieldDef>,
    source: SourceFile,
    context: &Vec<char>,
    diagnostics: &mut Vec<Diagnostic>,
)
    ensures
        diags_view(final(diagnostics)@) == diags_view(old(diagnostics)@) + spec_check_fields(
            record@,
            fields@,
            source,
            context@,
        ),
    decreases record,
{
    let ghost start = diags_view(diagnostics@);
    proof {
        lemma_record_view(*record);
    }
    assert(fields@.take(0).len() == 0);
    #[verifier::loop_isolation(false)]
    for i in 0..fields.len()
        invariant
            diags_view(diagnostics@) == start + spec_check_fields(
                record@,
                fields@.take(i as int),
                source,
                context@,
            ),
    {
        let def = fields[i];
        assert(fields@.take(i + 1).drop_last() == fields@.take(i as int));
        assert(fields@.take(i + 1).last() == def);
        let ghost mid = diags_view(diagnostics@);
        let name = to_chars(def.name);
        let p = record.position(&name);
        let mut found = false;
        if p < record.0.len() {
            let k = to_chars(record.0[p].0.text.as_str());
            found = chars_eq(&k, &name);
        }
        if found {
            proof {
                broadcast use vstd::std_specs::vec::axiom_vec_decreases_to_view;
                broadcast use vstd::seq::axiom_seq_index_decreases;

                assert(decreases_to!(record.0 => record.0@));
                assert(decreases_to!(record.0@ => record.0@[p as int]));
            }
            check_value_type(&record.0[p].1.value, def.expected, &name, source, context, diagnostics);
        } else if def.required {
            let mut m = copy_chars(context);
            push_str(&mut m, ": missing required field `");
            push_chars(&mut m, &name);
            push_str(&mut m, "`");
            push_diag(diagnostics, error(source, m));
        }
        assert(diags_view(diagnostics@) =~= start + spec_check_fields(
            record@,
            fields@.take(i + 1),
            source,
            context@,
        ));
    }
    assert(fields@.take(fields@.len() as int) == fields@);
}

/// Checks that a value conforms to an expected type.
pub fn check_value_type(
    value: &Value,
    expected: ExpectedType,
    field_name: &Vec<char>,
    source: SourceFile,
    context: &Vec<char>,
    diagnostics: &mut Vec<Diagnostic>,
)
    ensures
        diags_view(final(diagnostics)@) == diags_view(old(diagnostics)@) + spec_check_value(
            value@,
            expected,
            field_name@,
            source,
            context@,
        ),
    decreases value,
{
    let ghost start = diags_view(diagnostics@);
    match expected {
        ExpectedType::String => {
            if !(matches!(value, Value::String(..))) {
                push_diag(diagnostics, type_error(source, context, field_name, "string", value));
            }
        },
        ExpectedType::Integer => {
            if !(matches!(value, Value::Integer(..))) {
                push_diag(
                    diagnostics,
                    type_error(source, context, field_name, "unsigned integer", value),
                );
            }
        },
        ExpectedType::Bool => {
            if !(matches!(value, Value::Bool(..))) {
                push_diag(diagnostics, type_error(source, context, field_name, "boolean", value));
            }
        },
        ExpectedType::Name => {
            if !(matches!(value, Value::Name(..))) {
                push_diag(diagnostics, type_error(source, context, field_name, "name", value));
            }
        },
        ExpectedType::StringOrRecord => {
            if !(matches!(value, Value::String(..)) || matches!(value, Value::Record(..))) {
                push_diag(
                    diagnostics,
                    type_error(source, context, field_name, "string or record", value),
                );
            }
        },
        ExpectedType::Record(shape) => {
            match value {
                Value::Record(rec) => {
                    let nested = shape_fields(shape);
                    let ctx = nested_context(context, field_name);
                    check_fields(rec, &nested, source, &ctx, diagnostics);
                },
                _ => {
                    push_diag(diagnostics, type_error(source, context, field_name, "record", value));
                },
            }
        },
        ExpectedType::AnyRecord => {
            if !(matches!(value, Value::Record(..))) {
                push_diag(diagnostics, type_error(source, context, field_name, "record", value));
            }
        },
        ExpectedType::ListOfRecords(shape) => {
            match value {
                Value::List(items) => {
                    check_record_list(items, shape, field_name, source, context, diagnostics);
                },
                _ => {
                    push_diag(diagnostics, type_error(source, context, field_name, "list", value));
                },
            }
        },
        ExpectedType::ListOfStrings | ExpectedType::ListOfSignedIntegers
        | ExpectedType::ListOfUintRange(_, _) | ExpectedType::ListOfNonzeroSignedIntRange(_, _) => {
            match value {
                Value::List(items) => {
                    check_scalar_list(items, expected, field_name, source, context, diagnostics);
                },
                _ => {
                    push_diag(diagnostics, type_error(source, context, field_name, "list", value));
                },
            }
        },
        ExpectedType::Enum(set) => {
            check_enum(value, set, field_name, source, context, diagnostics);
        },
        ExpectedType::UintRange(lo, hi) => {
            check_uint_range(value, lo, hi, field_name, source, context, diagnostics);
        },
        ExpectedType::PositiveUint => {
            match value {
                Value::Integer(n) => {
                    if *n == 0 {
                        let mut m = copy_chars(context);
                        push_str(&mut m, ": field `");
                        push_chars(&mut m, field_name);
                        push_str(&mut m, "` must be a positive integer, got 0");
                        push_diag(diagnostics, error(source, m));
                    }
                },
                _ => {
                    push_diag(
                        diagnostics,
                        type_error(source, context, field_name, "positive integer", value),
                    );
                },
            }
        },
        ExpectedType::NonzeroSignedInt => {
            match value {
                Value::SignedInteger(n) => {
                    if *n == 0 {
                        let mut m = copy_chars(context);
                        push_str(&mut m, ": field `");
                        push_chars(&mut m, field_name);
                        push_str(&mut m, "` must be a nonzero signed integer, got 0");
                        push_diag(diagnostics, error(source, m));
                    }
                },
                _ => {
                    push_diag(
                        diagnostics,
                        type_error(source, context, field_name, "nonzero signed integer", value),
                    );
                },
            }
        },
        ExpectedType::RruleTermination => {
            if !(matches!(value, Value::Record(..)) || matches!(value, Value::Integer(..)) || matches!(value, Value::Undefined)) {
                push_diag(
                    diagnostics,
                    type_error(
                        source,
                        context,
                        field_name,
                        "datetime record, unsigned integer, or undefined",
                        value,
                    ),
                );
            }
        },
    }
    assert(diags_view(diagnostics@) =~= start + spec_check_value(
        value@,
        expected,
        field_name@,
        source,
        context@,
    ));
}


/// Checks every element of a list of records against a shape.
fn check_record_list(
    items: &Vec<Blamed<Value>>,
    shape: Shape,
    field_name: &Vec<char>,
    source: SourceFile,
    context: &Vec<char>,
    diagnostics: &mut Vec<Diagnostic>,
)
    ensures
        diags_view(final(diagnostics)@) == diags_view(old(diagnostics)@) + list_record_errors(
            Value::List(*items)@->List_0,
            items@.len() as nat,
            shape,
            field_name@,
            source,
            context@,
        ),
    decreases items,
{
    let ghost start = diags_view(diagnostics@);
    proof {
        lemma_list_view(*items);
    }
    let ghost iv = Value::List(*items)@->List_0;
    #[verifier::loop_isolation(false)]
    for i in 0..items.len()
        invariant
            diags_view(diagnostics@) == start + list_record_errors(
                iv,
                i as nat,
                shape,
                field_name@,
                source,
                context@,
            ),
    {
        match &items[i].value {
            Value::Record(rec) => {
                proof {
                    broadcast use vstd::std_specs::vec::axiom_vec_decreases_to_view;
                    broadcast use vstd::seq::axiom_seq_index_decreases;

                    assert(decreases_to!(*items => items@));
                    assert(decreases_to!(items@ => items@[i as int]));
                }
                let nested = shape_fields(shape);
                let fi = indexed_name(field_name, i);
                let ctx = nested_context(context, &fi);
                check_fields(rec, &nested, source, &ctx, diagnostics);
            },
            other => {
                let fi = indexed_name(field_name, i);
                push_diag(diagnostics, type_error(source, context, &fi, "record", other));
            },
        }
        assert(diags_view(diagnostics@) =~= start + list_record_errors(
            iv,
            (i + 1) as nat,
            shape,
            field_name@,
            source,
            context@,
        ));
    }
}

/// Checks every element of a list of scalars.
fn check_scalar_list(
    items: &Vec<Blamed<Value>>,
    expected: ExpectedType,
    field_name: &Vec<char>,
    source: SourceFile,
    context: &Vec<char>,
    diagnostics: &mut Vec<Diagnostic>,
)
    ensures
        diags_view(final(diagnostics)@) == diags_view(old(diagnostics)@) + list_elem_errors(
            Value::List(*items)@->List_0,
            items@.len() as nat,
            expected,
            field_name@,
            source,
            context@,
        ),
{
    let ghost start = diags_view(diagnostics@);
    proof {
        lemma_list_view(*items);
    }
    let ghost iv = Value::List(*items)@->List_0;
    for i in 0..items.len()
        invariant
            iv == Value::List(*items)@->List_0,
            iv.len() == items@.len(),
            forall|j: int| 0 <= j < items@.len() ==> #[trigger] iv[j] == (items@[j].value@, items@[j].blame@),
            diags_view(diagnostics@) == start + list_elem_errors(
                iv,
                i as nat,
                expected,
                field_name@,
                source,
                context@,
            ),
    {
        check_elem(expected, &items[i].value, field_name, i, source, context, diagnostics);
        assert(diags_view(diagnostics@) =~= start + list_elem_errors(
            iv,
            (i + 1) as nat,
            expected,
            field_name@,
            source,
            context@,
        ));
    }
}

/// Checks a value against a fixed set of allowed strings.
fn check_enum(
    value: &Value,
    set: EnumSet,
    field_name: &Vec<char>,
    source: SourceFile,
    context: &Vec<char>,
    diagnostics: &mut Vec<Diagnostic>,
)
    ensures
        diags_view(final(diagnostics)@) == diags_view(old(diagnostics)@) + spec_check_value(
            value@,
            ExpectedType::Enum(set),
            field_name@,
            source,
            context@,
        ),
{
    let ghost start = diags_view(diagnostics@);
    match value {
        Value::String(s) => {
            let variants = enum_values(set);
            if !contains_value(&variants, s) {
                let mut m = copy_chars(context);
                push_str(&mut m, ": field `");
                push_chars(&mut m, field_name);
                push_str(&mut m, "` must be one of ");
                push_chars(&mut m, &quoted(&variants));
                push_str(&mut m, ", got \"");
                push_chars(&mut m, &to_chars(s.as_str()));
                push_str(&mut m, "\"");
                push_diag(diagnostics, error(source, m));
            }
        },
        _ => {
            push_diag(diagnostics, type_error(source, context, field_name, "string", value));
        },
    }
    assert(diags_view(diagnostics@) =~= start + spec_check_value(
        value@,
        ExpectedType::Enum(set),
        field_name@,
        source,
        context@,
    ));
}

/// Checks an unsigned integer against an inclusive range.
fn check_uint_range(
    value: &Value,
    lo: u64,
    hi: u64,
    field_name: &Vec<char>,
    source: SourceFile,
    context: &Vec<char>,
    diagnostics: &mut Vec<Diagnostic>,
)
    ensures
        diags_view(final(diagnostics)@) == diags_view(old(diagnostics)@) + spec_check_value(
            value@,
            ExpectedType::UintRange(lo, hi),
            field_name@,
            source,
            context@,
        ),
{
    let ghost start = diags_view(diagnostics@);
    match value {
        Value::Integer(n) => {
            if !(lo <= *n && *n <= hi) {
                let mut m = copy_chars(context);
                push_str(&mut m, ": field `");
                push_chars(&mut m, field_name);
                push_str(&mut m, "` must be in range ");
                push_chars(&mut m, &u64_to_dec(lo));
                push_str(&mut m, "..=");
                push_chars(&mut m, &u64_to_dec(hi));
                push_str(&mut m, ", got ");
                push_chars(&mut m, &u64_to_dec(*n));
                push_diag(diagnostics, error(source, m));
            }
        },
        _ => {
            push_diag(diagnostics, type_error(source, context, field_name, "unsigned integer", value));
        },
    }
    assert(diags_view(diagnostics@) =~= start + spec_check_value(
        value@,
        ExpectedType::UintRange(lo, hi),
        field_name@,
        source,
        context@,
    ));
}

// ── Calendars ──────────────────────────────────────────────────

pub open spec fn entries_view(v: Seq<Blamed<Record>>) -> Seq<(RecordView, BlameView)> {
    Seq::new(v.len(), |i: int| v[i]@)
}

/// Checks of an event or task beyond its field tables: it needs a `name`
/// or a `uid`.
pub open spec fn name_or_uid_errors(rec: RecordView, source: SourceFile, kind: Seq<char>) -> Seq<
    DiagView,
> {
    if crate::keyed::key_lookup(rec, "name"@) is None && crate::keyed::key_lookup(rec, "uid"@) is None {
        seq![error_at(source, kind + ": must have either `name` or `uid`"@)]
    } else {
        seq![]
    }
}

/// The diagnostics for one calendar entry.
pub open spec fn spec_entry_errors(rec: RecordView, source: SourceFile) -> Seq<DiagView> {
    match crate::keyed::key_lookup(rec, "type"@) {
        Some((ValueView::String(t), _)) => if t == "event"@ {
            spec_check_fields(rec, spec_table(FieldTable::Event), source, "event"@)
                + spec_check_fields(rec, spec_table(FieldTable::CommonEntry), source, "event"@)
                + name_or_uid_errors(rec, source, "event"@)
        } else if t == "task"@ {
            spec_check_fields(rec, spec_table(FieldTable::Task), source, "task"@)
                + spec_check_fields(rec, spec_table(FieldTable::CommonEntry), source, "task"@)
                + name_or_uid_errors(rec, source, "task"@)
        } else {
            seq![
                error_at(
                    source,
                    "entry: field `type` must be \"event\" or \"task\", got \""@ + t + "\""@,
                ),
            ]
        },
        Some(_) => seq![error_at(source, "entry: field `type` must be a string"@)],
        None => seq![error_at(source, "entry: missing required field `type`"@)],
    }
}

/// The diagnostics for the first `n` entries, each against its own file.
pub open spec fn spec_entries_errors(entries: Seq<(RecordView, BlameView)>, n: nat) -> Seq<DiagView>
    decreases n,
{
    if n == 0 {
        seq![]
    } else {
        spec_entries_errors(entries, (n - 1) as nat) + spec_entry_errors(
            entries[n - 1].0,
            entries[n - 1].1.decl.source,
        )
    }
}

/// Every shape violation of a calendar: its own properties, then each entry.
pub open spec fn spec_check_calendar_shape(
    properties: RecordView,
    entries: Seq<(RecordView, BlameView)>,
    root_source: SourceFile,
) -> Seq<DiagView> {
    spec_check_fields(properties, spec_table(FieldTable::Calendar), root_source, "calendar"@)
        + spec_entries_errors(entries, entries.len())
}

fn check_name_or_uid(
    rec: &Record,
    source: SourceFile,
    kind: &str,
    diagnostics: &mut Vec<Diagnostic>,
)
    ensures
        diags_view(final(diagnostics)@) == diags_view(old(diagnostics)@) + name_or_uid_errors(
            rec@,
            source,
            kind@,
        ),
{
    let ghost start = diags_view(diagnostics@);
    if rec.get_str("name").is_none() && rec.get_str("uid").is_none() {
        let mut m = to_chars(kind);
        push_str(&mut m, ": must have either `name` or `uid`");
        push_diag(diagnostics, error(source, m));
    }
    assert(diags_view(diagnostics@) =~= start + name_or_uid_errors(rec@, source, kind@));
}

fn check_entry(rec: &Record, source: SourceFile, diagnostics: &mut Vec<Diagnostic>)
    ensures
        diags_view(final(diagnostics)@) == diags_view(old(diagnostics)@) + spec_entry_errors(
            rec@,
            source,
        ),
{
    let ghost start = diags_view(diagnostics@);
    match rec.get_str("type") {
        Some(b) => match &b.value {
            Value::String(t) => {
                if crate::text::str_eq(t.as_str(), "event") {
                    let ctx = to_chars("event");
                    check_fields(rec, &table(FieldTable::Event), source, &ctx, diagnostics);
                    check_fields(rec, &table(FieldTable::CommonEntry), source, &ctx, diagnostics);
                    check_name_or_uid(rec, source, "event", diagnostics);
                } else if crate::text::str_eq(t.as_str(), "task") {
                    let ctx = to_chars("task");
                    check_fields(rec, &table(FieldTable::Task), source, &ctx, diagnostics);
                    check_fields(rec, &table(FieldTable::CommonEntry), source, &ctx, diagnostics);
                    check_name_or_uid(rec, source, "task", diagnostics);
                } else {
                    let mut m = to_chars("entry: field `type` must be \"event\" or \"task\", got \"");
                    push_str(&mut m, t.as_str());
                    push_str(&mut m, "\"");
                    push_diag(diagnostics, error(source, m));
                }
            },
            _ => {
                push_diag(diagnostics, error(source, to_chars("entry: field `type` must be a string")));
            },
        },
        None => {
            push_diag(diagnostics, error(source, to_chars("entry: missing required field `type`")));
        },
    }
    assert(diags_view(diagnostics@) =~= start + spec_entry_errors(rec@, source));
}

/// Checks a calendar's shape, returning every constraint violation.
pub fn check_calendar_shape(calendar: &Calendar, root_source: SourceFile) -> (r: Vec<Diagnostic>)
    ensures
        diags_view(r@) == spec_check_calendar_shape(
            calendar.properties@,
            entries_view(calendar.entries@),
            root_source,
        ),
{
    let mut diagnostics: Vec<Diagnostic> = Vec::new();
    assert(diags_view(diagnostics@) =~= Seq::<DiagView>::empty());
    let ctx = to_chars("calendar");
    check_fields(&calendar.properties, &table(FieldTable::Calendar), root_source, &ctx, &mut diagnostics);
    let ghost first = diags_view(diagnostics@);
    let ghost ev = entries_view(calendar.entries@);
    for i in 0..calendar.entries.len()
        invariant
            ev == entries_view(calendar.entries@),
            diags_view(diagnostics@) == first + spec_entries_errors(ev, i as nat),
    {
        let entry = &calendar.entries[i];
        let source = entry.blame.decl.source;
        check_entry(&entry.value, source, &mut diagnostics);
        assert(diags_view(diagnostics@) =~= first + spec_entries_errors(ev, (i + 1) as nat));
    }
    diagnostics
}

// ── The allowed values, as export reads them ───────────────────

/// An event's status is allowed exactly when export reads it as one of
/// the event statuses: tentative, confirmed or cancelled.
pub proof fn lemma_event_status_values(s: Seq<char>)
    ensures
        in_values(spec_enum_values(EnumSet::EventStatus), s) <==> (
        crate::export_values::status_of(s) == Some(crate::ical_import::IcalStatus::Tentative)
            || crate::export_values::status_of(s) == Some(crate::ical_import::IcalStatus::Confirmed)
            || crate::export_values::status_of(s) == Some(crate::ical_import::IcalStatus::Cancelled)),
{
    crate::export_values::lemma_status_names_distinct();
    let v = spec_enum_values(EnumSet::EventStatus);
    assert(v[0]@ == "tentative"@ && v[1]@ == "confirmed"@ && v[2]@ == "cancelled"@);
    if in_values(v, s) {
        let i = choose|i: int| 0 <= i < v.len() && (#[trigger] v[i])@ == s;
        assert(i == 0 || i == 1 || i == 2);
    }
}

/// A frequency is allowed exactly when export, and reading a rule, take its
/// name.
pub proof fn lemma_frequency_values(s: Seq<char>)
    ensures
        in_values(spec_enum_values(EnumSet::Frequency), s) <==> crate::export_values::freq_of(s) is Some,
        in_values(spec_enum_values(EnumSet::Frequency), s) <==> crate::rrule::spec_parse_frequency(s) is Ok,
{
    crate::export_values::lemma_freq_names_distinct();
    let v = spec_enum_values(EnumSet::Frequency);
    assert(v[0]@ == "yearly"@ && v[1]@ == "monthly"@ && v[2]@ == "weekly"@ && v[3]@ == "daily"@);
    assert(v[4]@ == "hourly"@ && v[5]@ == "minutely"@ && v[6]@ == "secondly"@);
    if in_values(v, s) {
        let i = choose|i: int| 0 <= i < v.len() && (#[trigger] v[i])@ == s;
        assert(0 <= i < 7);
    }
}

/// A weekday is allowed exactly when export, and reading a rule, take its
/// name.
pub proof fn lemma_weekday_values(s: Seq<char>)
    ensures
        in_values(spec_enum_values(EnumSet::Weekday), s) <==> crate::export_values::weekday_of(s) is Some,
        in_values(spec_enum_values(EnumSet::Weekday), s) <==> crate::rrule::spec_parse_weekday(s) is Ok,
{
    crate::export_values::lemma_weekday_names_distinct();
    let v = spec_enum_values(EnumSet::Weekday);
    assert(v[0]@ == "monday"@ && v[1]@ == "tuesday"@ && v[2]@ == "wednesday"@ && v[3]@ == "thursday"@);
    assert(v[4]@ == "friday"@ && v[5]@ == "saturday"@ && v[6]@ == "sunday"@);
    if in_values(v, s) {
        let i = choose|i: int| 0 <= i < v.len() && (#[trigger] v[i])@ == s;
        assert(0 <= i < 7);
    }
}

/// A skip is allowed exactly when reading a rule takes its name.
pub proof fn lemma_skip_values(s: Seq<char>)
    ensures
        in_values(spec_enum_values(EnumSet::Skip), s) <==> crate::rrule::spec_parse_skip(s) is Ok,
{
    reveal_strlit("omit");
    reveal_strlit("forward");
    reveal_strlit("backward");
    assert("omit"@[0] == 'o' && "forward"@[0] == 'f' && "backward"@[0] == 'b');
    let v = spec_enum_values(EnumSet::Skip);
    assert(v[0]@ == "omit"@ && v[1]@ == "forward"@ && v[2]@ == "backward"@);
    if in_values(v, s) {
        let i = choose|i: int| 0 <= i < v.len() && (#[trigger] v[i])@ == s;
        assert(0 <= i < 3);
    }
}

} // verus!
