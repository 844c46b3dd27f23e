//! The syntax tree of a Gnomon source file, as the parser delivers it to
//! lowering: each node with the tokens lowering reads, and `None` where the
//! parser recovered from an error and left a part out.
use vstd::prelude::*;

use crate::desugar::{every_in_range, EveryExpr};
use crate::literals::triple_cuttable;
use crate::queries::{Diagnostic, TextRange};
use crate::text::char_width;
use crate::types::Value;

verus! {

broadcast use {crate::types::lemma_value_view_unfold, crate::import_value::lemma_import_view_unfold};

/// The kind of a literal token.
pub enum LiteralKind {
    Integer,
    SignedInteger,
    String,
    TripleString,
    True,
    False,
    Undefined,
    Name,
    Date,
    MonthDay,
    Time,
    DateTime,
    Duration,
    Uri,
    Atom,
    Path,
    /// Any other token kind, by its name.
    Other(String),
}

/// A token's text and where it stands.
pub struct SpannedText {
    pub text: String,
    pub range: TextRange,
}

/// A literal token.
pub struct LiteralToken {
    pub kind: LiteralKind,
    pub text: String,
    pub range: TextRange,
}

/// A string token, plain or triple-quoted.
pub struct StringToken {
    pub triple: bool,
    pub text: String,
}

/// The operator of a binary expression.
pub enum BinaryOp {
    /// `++`
    Concat,
    /// `//`
    Merge,
    /// `==`
    Eq,
    /// `!=`
    NotEq,
    /// Any other token.
    Other,
}

/// The date-time of a short event or task: one date-time token, or a date
/// and a time.
pub struct ShortDt {
    pub datetime: Option<String>,
    pub date: Option<String>,
    pub time: Option<String>,
}

/// A field of a record expression.
pub struct FieldExpr {
    pub name: Option<String>,
    pub value: Option<Expr>,
}

/// A record expression `{ name: value, .. }`.
pub struct RecordExpr {
    pub fields: Vec<FieldExpr>,
}

/// An `event` declaration: the short form `event @name start [duration]
/// ["title"] [{ .. }]`, or a body alone.
pub struct EventExpr {
    pub name: Option<String>,
    pub start: Option<ShortDt>,
    pub duration: Option<String>,
    pub title: Option<StringToken>,
    pub body: Option<RecordExpr>,
}

/// A `task` declaration: the short form `task @name [due] ["title"]
/// [{ .. }]`, or a body alone.
pub struct TaskExpr {
    pub name: Option<String>,
    pub due: Option<ShortDt>,
    pub title: Option<StringToken>,
    pub body: Option<RecordExpr>,
}

/// `let name = bound in body`.
pub struct LetExpr {
    pub name: Option<String>,
    pub bound: Option<Box<Expr>>,
    pub body: Option<Box<Expr>>,
}

/// `lhs op rhs`, with the operator's range.
pub struct BinaryExpr {
    pub lhs: Option<Box<Expr>>,
    pub op: Option<(BinaryOp, TextRange)>,
    pub rhs: Option<Box<Expr>>,
}

/// `target.field`.
pub struct FieldAccessExpr {
    pub target: Option<Box<Expr>>,
    pub field: Option<SpannedText>,
}

/// `target[index]`.
pub struct IndexExpr {
    pub target: Option<Box<Expr>>,
    pub index: Option<Box<Expr>>,
}

/// An import expression, already carried out: the value the imported
/// document gave and the diagnostics reading it produced.
pub struct ImportedExpr {
    pub value: Value,
    pub diagnostics: Vec<Diagnostic>,
}

/// An expression.
pub enum Expr {
    Literal(Option<LiteralToken>),
    Record(RecordExpr),
    List(Vec<Expr>),
    Every(EveryExpr),
    Paren(Option<Box<Expr>>),
    Ident(Option<SpannedText>),
    Let(LetExpr),
    Binary(BinaryExpr),
    FieldAccess(FieldAccessExpr),
    Index(IndexExpr),
    Import(ImportedExpr),
    Calendar(Option<RecordExpr>),
    Event(EventExpr),
    Task(TaskExpr),
}

/// A file-level `let name = value`.
pub struct LetBinding {
    pub name: Option<String>,
    pub value: Option<Expr>,
}

/// A source file: its `let` bindings, then its body expressions.
pub struct SourceFileExpr {
    pub bindings: Vec<LetBinding>,
    pub body: Vec<Expr>,
}

// ── What the lexer guarantees of tokens ────────────────────────

/// A quoted token: at least two characters, the first and last one byte each.
pub open spec fn quoted(t: Seq<char>) -> bool {
    t.len() >= 2 && char_width(t[0]) == 1 && char_width(t.last()) == 1
}

/// A prefixed token (`@name`, `#atom`): a one-byte first character.
pub open spec fn prefixed(t: Seq<char>) -> bool {
    t.len() >= 1 && char_width(t[0]) == 1
}

/// A triple-quoted string token, cut at its three-byte delimiters.
pub open spec fn triple_ok(t: Seq<char>) -> bool {
    triple_cuttable(t)
}

pub open spec fn string_token_ok(t: StringToken) -> bool {
    if t.triple {
        triple_ok(t.text@)
    } else {
        quoted(t.text@)
    }
}

pub open spec fn literal_ok(t: LiteralToken) -> bool {
    match t.kind {
        LiteralKind::String => quoted(t.text@),
        LiteralKind::TripleString => triple_ok(t.text@),
        LiteralKind::Uri => quoted(t.text@),
        LiteralKind::Name => prefixed(t.text@),
        LiteralKind::Atom => prefixed(t.text@),
        _ => true,
    }
}

pub open spec fn opt_string_token_ok(t: Option<StringToken>) -> bool {
    match t {
        Some(s) => string_token_ok(s),
        None => true,
    }
}

pub open spec fn opt_name_ok(n: Option<String>) -> bool {
    match n {
        Some(s) => prefixed(s@),
        None => true,
    }
}

/// Every token of an expression is as the lexer delivers it, and every
/// `every year on` day lies in the year.
pub open spec fn expr_ok(e: Expr) -> bool
    decreases e, 1nat,
{
    match e {
        Expr::Literal(t) => match t {
            Some(tok) => literal_ok(tok),
            None => true,
        },
        Expr::Record(r) => fields_ok(r.fields@),
        Expr::List(items) => items_ok(items@),
        Expr::Every(ev) => every_in_range(ev),
        Expr::Paren(inner) => match inner {
            Some(b) => expr_ok(*b),
            None => true,
        },
        Expr::Ident(_) => true,
        Expr::Let(l) => opt_expr_ok(l.bound) && opt_expr_ok(l.body),
        Expr::Binary(b) => opt_expr_ok(b.lhs) && opt_expr_ok(b.rhs),
        Expr::FieldAccess(f) => opt_expr_ok(f.target),
        Expr::Index(i) => opt_expr_ok(i.target) && opt_expr_ok(i.index),
        Expr::Import(_) => true,
        Expr::Calendar(body) => match body {
            Some(r) => fields_ok(r.fields@),
            None => true,
        },
        Expr::Event(ev) => opt_name_ok(ev.name) && opt_string_token_ok(
            ev.title,
        ) && match ev.body {
            Some(r) => fields_ok(r.fields@),
            None => true,
        },
        Expr::Task(t) => opt_name_ok(t.name) && opt_string_token_ok(t.title) && match t.body {
            Some(r) => fields_ok(r.fields@),
            None => true,
        },
    }
}

pub open spec fn opt_expr_ok(e: Option<Box<Expr>>) -> bool
    decreases e, 0nat,
{
    match e {
        Some(b) => expr_ok(*b),
        None => true,
    }
}

pub open spec fn items_ok(items: Seq<Expr>) -> bool
    decreases items, 0nat,
{
    if items.len() == 0 {
        true
    } else {
        proof {
            broadcast use vstd::seq::axiom_seq_index_decreases;

            assert(decreases_to!(items => items.last()));
        }
        items_ok(items.drop_last()) && expr_ok(items.last())
    }
}

pub open spec fn fields_ok(fields: Seq<FieldExpr>) -> bool
    decreases fields, 0nat,
{
    if fields.len() == 0 {
        true
    } else {
        proof {
            broadcast use vstd::seq::axiom_seq_index_decreases;

            assert(decreases_to!(fields => fields.last()));
        }
        fields_ok(fields.drop_last()) && match fields.last().value {
            Some(v) => expr_ok(v),
            None => true,
        }
    }
}

} // verus!
