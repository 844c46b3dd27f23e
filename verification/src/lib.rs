use vstd::prelude::*;

pub mod cache;
pub mod desugar;
pub mod emit_fields;
pub mod export;
pub mod export_values;
pub mod ical_export;
pub mod ical_entries;
pub mod ical_import;
pub mod ical_source;
pub mod import;
pub mod import_value;
pub mod input;
pub mod jscal_export;
pub mod jscal_import;
pub mod jscal_source;

pub mod interned;
pub mod keyed;
pub mod literals;
pub mod lower;
pub mod lowering;
pub mod merge;
pub mod queries;
pub mod render;
pub mod rrule;
pub mod shape;
pub mod syntax;
pub mod text;
pub mod types;
