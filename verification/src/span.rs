//! Source positions.

use vstd::prelude::*;

verus! {

/// A half-open range of byte offsets into one source file.
///
/// `start` is the offset of the first byte and `end` the offset one past the
/// last byte. The span whose three fields are zero stands for a node that was
/// synthesized and has no place in any file.
#[derive(Debug, Clone, Copy, PartialEq, Eq, Hash, Structural)]
pub struct Span {
    /// Offset of the first byte.
    pub start: usize,
    /// Offset one past the last byte.
    pub end: usize,
    /// The file the offsets refer to.
    pub file_id: usize,
}

impl Span {
    /// The span with the given bounds.
    pub open spec fn spec_new(start: usize, end: usize, file_id: usize) -> Span {
        Span { start, end, file_id }
    }

    /// The span of a synthesized node.
    pub open spec fn spec_dummy() -> Span {
        Span { start: 0, end: 0, file_id: 0 }
    }

    /// True for every span but the synthesized one whose `end` is not before `start`.
    pub open spec fn spec_is_valid(self) -> bool {
        self != Span::spec_dummy() && self.start < self.end
    }

    /// Builds a span from its bounds.
    #[verifier::when_used_as_spec(spec_new)]
    pub fn new(start: usize, end: usize, file_id: usize) -> (r: Span)
        ensures
            r == Span::spec_new(start, end, file_id),
    {
        Span { start, end, file_id }
    }

    /// The span of a synthesized node.
    #[verifier::when_used_as_spec(spec_dummy)]
    pub fn dummy() -> (r: Span)
        ensures
            r == Span::spec_dummy(),
    {
        Span { start: 0, end: 0, file_id: 0 }
    }

    /// Tells whether this is the span of a synthesized node.
    pub fn is_dummy(&self) -> (r: bool)
        ensures
            r == (*self == Span::spec_dummy()),
    {
        self.start == 0 && self.end == 0 && self.file_id == 0
    }

    /// Tells whether the span is not synthesized and covers at least one byte.
    #[verifier::when_used_as_spec(spec_is_valid)]
    pub fn is_valid(self) -> (r: bool)
        ensures
            r == self.spec_is_valid(),
    {
        !self.is_dummy() && self.start < self.end
    }
}

} // verus!
