use vstd::prelude::*;

pub mod file;
pub mod location;
pub mod tokens;
pub mod ast;
mod text;
pub mod runtime;

verus! {

/// A half-open range of source positions.
#[derive(Debug, Clone, Copy, PartialEq, Eq, Default, Structural)]
pub struct Span {
    pub start: usize,
    pub end: usize,
}

impl From<std::ops::Range<usize>> for Span {
    fn from(range: std::ops::Range<usize>) -> (span: Self)
        ensures
            span.start == range.start,
            span.end == range.end,
    {
        Span { start: range.start, end: range.end }
    }
}

impl vstd::std_specs::convert::FromSpecImpl<std::ops::Range<usize>> for Span {
    open spec fn obeys_from_spec() -> bool {
        true
    }

    open spec fn from_spec(range: std::ops::Range<usize>) -> Span {
        Span { start: range.start, end: range.end }
    }
}

impl Span {
    pub fn new(start: usize, end: usize) -> (span: Self)
        ensures
            span.start == start,
            span.end == end,
    {
        Span { start, end }
    }

    /// The number of positions the span covers.
    pub fn len(&self) -> (n: usize)
        requires
            self.start <= self.end,
        ensures
            n == self.end - self.start,
    {
        self.end - self.start
    }

    /// The span from the start of `self` to the end of `other`.
    pub fn join(&self, other: Self) -> (span: Self)
        ensures
            span == joined(*self, other),
    {
        Span { start: self.start, end: other.end }
    }
}

/// The span from the start of `a` to the end of `b`.
pub open spec fn joined(a: Span, b: Span) -> Span {
    Span { start: a.start, end: b.end }
}

/// Joining spans is associative: a chain of joins spans from the first start to the
/// last end, however it is grouped.
pub proof fn law_join_associative(a: Span, b: Span, c: Span)
    ensures
        joined(joined(a, b), c) == joined(a, joined(b, c)),
        joined(joined(a, b), c) == (Span { start: a.start, end: c.end }),
{
}

} // verus!
