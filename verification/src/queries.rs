//! Diagnostics and the results of syntax checking.
use vstd::prelude::*;

use crate::input::SourceFile;

verus! {


/// How serious a diagnostic is.
#[derive(Debug, Clone, Copy, PartialEq, Eq, Hash)]
pub enum Severity {
    Error,
    Warning,
}

/// A span of source text, in bytes.
#[derive(Debug, Clone, Copy, PartialEq, Eq, Hash, Default)]
pub struct TextRange {
    pub start: u32,
    pub end: u32,
}

impl TextRange {
    /// The empty range at the start of a file.
    pub fn empty() -> (r: TextRange)
        ensures
            r.start == 0 && r.end == 0,
    {
        TextRange { start: 0, end: 0 }
    }
}

/// A message about a source file.
#[derive(Debug, PartialEq, Eq, Hash)]
pub struct Diagnostic {
    pub source: SourceFile,
    pub range: TextRange,
    pub severity: Severity,
    pub message: String,
}

impl Clone for Diagnostic {
    fn clone(&self) -> (r: Self)
        ensures
            r == *self,
    {
        Diagnostic {
            source: self.source,
            range: self.range,
            severity: self.severity,
            message: self.message.clone(),
        }
    }
}

impl Diagnostic {
    /// An error about `source` with no particular range.
    pub fn error(source: SourceFile, message: String) -> (d: Diagnostic)
        ensures
            d.source == source,
            d.range == TextRange::spec_empty(),
            d.severity == Severity::Error,
            d.message == message,
    {
        Diagnostic { source, range: TextRange::empty(), severity: Severity::Error, message }
    }
}

impl TextRange {
    pub open spec fn spec_empty() -> TextRange {
        TextRange { start: 0, end: 0 }
    }
}

/// The outcome of checking a file's syntax.
#[derive(Debug, Clone, Copy, PartialEq, Eq)]
pub struct SyntaxCheckResult {
    pub parse_has_errors: bool,
}

} // verus!
