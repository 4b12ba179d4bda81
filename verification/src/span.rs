use vstd::prelude::*;

verus! {

/// Identifies one source file of a compilation.
#[derive(Clone, Copy, Debug, PartialEq, Eq, Hash, Structural)]
pub struct FileId(pub u32);

/// A half-open range of byte offsets inside one source file.
#[derive(Clone, Copy, Debug, PartialEq, Eq, Hash, Structural)]
pub struct Span {
    pub start: u32,
    pub end: u32,
}

/// A value together with the file it belongs to.
#[derive(Clone, Copy, Debug, PartialEq, Eq, Hash)]
pub struct InFile<T> {
    pub file_id: FileId,
    pub inner: T,
}

/// A span inside a known file.
pub type FileSpan = InFile<Span>;

/// A value together with the span of source text it was read from.
#[derive(Clone, Copy, Debug, PartialEq, Eq, Hash)]
pub struct Spanned<T> {
    pub inner: T,
    pub span: Span,
}

impl Span {
    /// The span that covers `start..end`.
    pub fn new(start: u32, end: u32) -> (span: Span)
        ensures
            span == (Span { start, end }),
    {
        Span { start, end }
    }

    /// This span, placed in the file `file_id`.
    pub fn in_file(self, file_id: FileId) -> (placed: FileSpan)
        ensures
            placed == (InFile { file_id, inner: self }),
    {
        InFile { file_id, inner: self }
    }

    /// The smallest span that covers both `a` and `b`.
    pub fn combine(a: Span, b: Span) -> (joined: Span)
        ensures
            joined.start == if a.start <= b.start { a.start } else { b.start },
            joined.end == if a.end >= b.end { a.end } else { b.end },
    {
        Span {
            start: if a.start <= b.start { a.start } else { b.start },
            end: if a.end >= b.end { a.end } else { b.end },
        }
    }
}

impl<T> Spanned<T> {
    /// `inner`, tagged with `span`.
    pub fn new(inner: T, span: Span) -> (tagged: Spanned<T>)
        ensures
            tagged == (Spanned { inner, span }),
    {
        Spanned { inner, span }
    }
}

impl<T> InFile<T> {
    /// `inner`, placed in the file `file_id`.
    pub fn new(inner: T, file_id: FileId) -> (placed: InFile<T>)
        ensures
            placed == (InFile { file_id, inner }),
    {
        InFile { file_id, inner }
    }
}

}
