//! Source positions and spans.

use vstd::prelude::*;

verus! {

/// A position in source text, counted from the start of the text.
#[derive(Debug, Copy, Clone, PartialEq, Eq, Structural)]
pub struct Pos(pub u32);

/// A half-open range `start .. end` of source positions.
///
/// Spans are attached to syntax nodes for diagnostics only; they never
/// influence how a node is printed.
#[derive(Debug, Copy, Clone, PartialEq, Eq, Structural)]
pub struct Span {
    /// The inclusive start position.
    pub start: Pos,
    /// The exclusive end position.
    pub end: Pos,
}

impl Span {
    /// The smallest span that covers both `self` and `other`.
    pub open spec fn joined(self, other: Span) -> Span {
        Span {
            start: if self.start.0 <= other.start.0 {
                self.start
            } else {
                other.start
            },
            end: if self.end.0 >= other.end.0 {
                self.end
            } else {
                other.end
            },
        }
    }

    /// Whether every position of `other` lies within `self`.
    pub open spec fn covers(self, other: Span) -> bool {
        self.start.0 <= other.start.0 && other.end.0 <= self.end.0
    }

    /// Create a span from a start and an end position.
    pub fn new(start: Pos, end: Pos) -> (span: Span)
        ensures
            span == (Span { start, end }),
    {
        Span { start, end }
    }

    /// Create an empty span located at one position.
    pub fn at(pos: Pos) -> (span: Span)
        ensures
            span == (Span { start: pos, end: pos }),
    {
        Span { start: pos, end: pos }
    }

    /// Create the smallest span that covers both this and another span.
    pub fn join(self, other: Span) -> (span: Span)
        ensures
            span == self.joined(other),
    {
        let start = if self.start.0 <= other.start.0 {
            self.start
        } else {
            other.start
        };
        let end = if self.end.0 >= other.end.0 {
            self.end
        } else {
            other.end
        };
        Span { start, end }
    }
}

/// Joining spans does not depend on their order or grouping, and the join
/// is the least span covering both operands.
pub proof fn lemma_join_is_least_cover(a: Span, b: Span, c: Span)
    ensures
        a.joined(b) == b.joined(a),
        a.joined(b).joined(c) == a.joined(b.joined(c)),
        a.joined(a) == a,
        a.joined(b).covers(a),
        a.joined(b).covers(b),
        c.covers(a) && c.covers(b) ==> c.covers(a.joined(b)),
{
}

} // verus!
