//! Source files and the database that holds them.
//!
//! A `SourceFile` is a small handle; its path and text live in the
//! `Database`, so that blames and diagnostics can refer to a file cheaply.
use vstd::prelude::*;

verus! {


/// A database of source files.
pub trait Db {

}

/// The database: every source file registered so far, as `(path, text)`.
pub struct Database {
    pub files: Vec<(String, String)>,
}

impl Db for Database {

}

impl Database {
    /// An empty database.
    pub fn new() -> (db: Database)
        ensures
            db.files@.len() == 0,
    {
        Database { files: Vec::new() }
    }

    /// Whether `source` was registered in this database.
    pub open spec fn holds(&self, source: SourceFile) -> bool {
        source.id < self.files@.len()
    }
}

/// A handle to a source file registered in a `Database`.
#[derive(Debug, Clone, Copy, PartialEq, Eq, Hash)]
pub struct SourceFile {
    pub id: usize,
}

impl SourceFile {
    /// Registers a new source file with the given path and text.
    pub fn new(db: &mut Database, path: String, text: String) -> (s: SourceFile)
        ensures
            s.id == old(db).files@.len(),
            final(db).files@ == old(db).files@.push((path, text)),
    {
        let id = db.files.len();
        db.files.push((path, text));
        SourceFile { id }
    }

    /// The path of this file.
    pub fn path<'a>(&self, db: &'a Database) -> (p: &'a String)
        requires
            db.holds(*self),
        ensures
            p@ == db.files@[self.id as int].0@,
    {
        &db.files[self.id].0
    }

    /// The text of this file.
    pub fn text<'a>(&self, db: &'a Database) -> (t: &'a String)
        requires
            db.holds(*self),
        ensures
            t@ == db.files@[self.id as int].1@,
    {
        &db.files[self.id].1
    }
}

} // verus!
