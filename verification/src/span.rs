//! Where a value comes from in the host's source text.

use vstd::prelude::*;

verus! {

/// A half-open range of offsets into the host's source text. It tells the host
/// what to underline when it reports on a value; it never takes part in
/// comparing or ordering values.
#[derive(Clone, Copy, Debug, PartialEq, Eq, Structural)]
pub struct Span {
    pub start: usize,
    pub end: usize,
}

impl Span {
    /// The span from `start` up to, but without, `end`.
    pub fn new(start: usize, end: usize) -> (span: Span)
        ensures
            span == (Span { start, end }),
    {
        Span { start, end }
    }

    /// The span of a value that comes from nowhere in the source text.
    pub open spec fn spec_unknown() -> Span {
        Span { start: 0, end: 0 }
    }

    /// The span of a value that comes from nowhere in the source text.
    #[verifier::when_used_as_spec(spec_unknown)]
    pub fn unknown() -> (span: Span)
        ensures
            span == Span::spec_unknown(),
    {
        Span { start: 0, end: 0 }
    }
}

/// A text together with the place it was taken from.
#[derive(Clone, Debug, PartialEq, Eq)]
pub struct Spanned {
    pub item: String,
    pub span: Span,
}

} // verus!
