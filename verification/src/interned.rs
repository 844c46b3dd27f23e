//! Field names, paths into records, and declaration identities.
use vstd::prelude::*;

use crate::input::SourceFile;

verus! {


/// The name of a record field.
#[derive(Debug, PartialEq, Eq, Hash)]
pub struct FieldName {
    pub text: String,
}

impl FieldName {
    /// A field name with the given text.
    pub fn new(text: String) -> (f: FieldName)
        ensures
            f.text@ == text@,
    {
        FieldName { text }
    }

    /// The text of this name.
    pub fn text(&self) -> (t: &String)
        ensures
            t@ == self.text@,
    {
        &self.text
    }
}

impl Clone for FieldName {
    fn clone(&self) -> (r: Self)
        ensures
            r == *self,
    {
        FieldName { text: self.text.clone() }
    }
}

/// One step of a path into a record structure.
#[derive(Debug, PartialEq, Eq, Hash)]
pub enum PathSegment {
    Field(FieldName),
    Index(usize),
}

impl Clone for PathSegment {
    fn clone(&self) -> (r: Self)
        ensures
            r == *self,
    {
        match self {
            PathSegment::Field(f) => PathSegment::Field(f.clone()),
            PathSegment::Index(i) => PathSegment::Index(*i),
        }
    }
}

/// The mathematical form of a path step.
pub enum SegView {
    Field(Seq<char>),
    Index(usize),
}

impl View for PathSegment {
    type V = SegView;

    open spec fn view(&self) -> SegView {
        match self {
            PathSegment::Field(f) => SegView::Field(f.text@),
            PathSegment::Index(i) => SegView::Index(*i),
        }
    }
}

/// A path into a record structure, e.g. `alerts[0].trigger`.
#[derive(Debug, PartialEq, Eq, Hash)]
pub struct FieldPath(pub Vec<PathSegment>);

impl View for FieldPath {
    type V = Seq<SegView>;

    open spec fn view(&self) -> Seq<SegView> {
        Seq::new(self.0@.len(), |i: int| self.0@[i]@)
    }
}

impl Clone for FieldPath {
    fn clone(&self) -> (r: Self)
        ensures
            r@ == self@,
    {
        let mut v: Vec<PathSegment> = Vec::new();
        let mut i: usize = 0;
        while i < self.0.len()
            invariant
                i <= self.0@.len(),
                v@.len() == i,
                forall|j: int| 0 <= j < i ==> #[trigger] v@[j] == self.0@[j],
            decreases self.0@.len() - i,
        {
            v.push(self.0[i].clone());
            i = i + 1;
        }
        let r = FieldPath(v);
        assert(r@ =~= self@);
        r
    }
}

impl FieldPath {
    /// The empty path.
    pub fn root() -> (p: FieldPath)
        ensures
            p@ == Seq::<SegView>::empty(),
    {
        let p = FieldPath(Vec::new());
        assert(p@ =~= Seq::<SegView>::empty());
        p
    }

    /// This path extended by one segment.
    pub fn push(&self, segment: PathSegment) -> (p: FieldPath)
        ensures
            p@ == self@.push(segment@),
    {
        let mut segments: Vec<PathSegment> = Vec::new();
        let mut i: usize = 0;
        while i < self.0.len()
            invariant
                i <= self.0@.len(),
                segments@.len() == i,
                forall|j: int| 0 <= j < i ==> #[trigger] segments@[j] == self.0@[j],
            decreases self.0@.len() - i,
        {
            segments.push(self.0[i].clone());
            i = i + 1;
        }
        let ghost sv = segment@;
        segments.push(segment);
        let p = FieldPath(segments);
        assert(p@ =~= self@.push(sv));
        p
    }

    /// This path extended by a field step.
    pub fn field(&self, name: FieldName) -> (p: FieldPath)
        ensures
            p@ == self@.push(SegView::Field(name.text@)),
    {
        self.push(PathSegment::Field(name))
    }

    /// This path extended by an index step.
    pub fn index(&self, i: usize) -> (p: FieldPath)
        ensures
            p@ == self@.push(SegView::Index(i)),
    {
        self.push(PathSegment::Index(i))
    }

    /// The segments of this path.
    pub fn segments(&self) -> (s: &[PathSegment])
        ensures
            s@ == self.0@,
    {
        self.0.as_slice()
    }
}

/// The kind of a top-level declaration.
#[derive(Debug, Clone, Copy, PartialEq, Eq, Hash)]
pub enum DeclKind {
    Calendar,
    Event,
    Task,
    /// A file-level expression (no declaration keyword).
    Expr,
}

/// The identity of a top-level declaration: its file, position and kind.
#[derive(Debug, Clone, Copy, PartialEq, Eq, Hash)]
pub struct DeclId {
    pub source: SourceFile,
    pub index: usize,
    pub kind: DeclKind,
}

impl DeclId {
    /// The declaration at `index` of `source`, of the given kind.
    pub fn new(source: SourceFile, index: usize, kind: DeclKind) -> (d: DeclId)
        ensures
            d == (DeclId { source, index, kind }),
    {
        DeclId { source, index, kind }
    }

    /// The file of this declaration.
    pub fn source(&self) -> (s: SourceFile)
        ensures
            s == self.source,
    {
        self.source
    }

    /// The position of this declaration in its file.
    pub fn index(&self) -> (i: usize)
        ensures
            i == self.index,
    {
        self.index
    }

    /// The kind of this declaration.
    pub fn kind(&self) -> (k: DeclKind)
        ensures
            k == self.kind,
    {
        self.kind
    }
}

} // verus!
