//! Source positions and half-open intervals over them.

use vstd::prelude::*;

verus! {

/// A zero-based offset into a source buffer.
#[derive(Debug, Clone, Copy, PartialEq, Eq, Structural)]
pub struct Pos(pub u32);

impl Pos {
    /// The zero offset, the default position.
    pub fn zero() -> (p: Pos)
        ensures
            p.0 == 0,
    {
        Pos(0)
    }

    /// Builds a position from a byte offset, keeping its low 32 bits.
    pub fn new(n: usize) -> (p: Pos)
        ensures
            p.0 == n as u32,
    {
        Pos(#[verifier::truncate] (n as u32))
    }

    /// Moves the position forward by `rhs` bytes.
    pub fn plus(self, rhs: usize) -> (p: Pos)
        requires
            self.0 + rhs <= u32::MAX,
        ensures
            p.0 == self.0 + rhs,
    {
        Pos(self.0 + rhs as u32)
    }

    /// Moves the position back by `rhs` bytes; the result must stay
    /// non-negative.
    pub fn minus(self, rhs: usize) -> (p: Pos)
        requires
            rhs <= self.0,
        ensures
            p.0 == self.0 - rhs,
    {
        Pos(self.0 - rhs as u32)
    }

    /// The offset as a `usize`.
    pub fn to_usize(self) -> (n: usize)
        ensures
            n == self.0,
    {
        self.0 as usize
    }
}

impl Default for Pos {
    /// The zero offset.
    fn default() -> (p: Pos)
        ensures
            p == Pos(0),
    {
        Pos(0)
    }
}

/// A half-open interval `[low, high)` of source positions. Direct
/// construction does not force `low <= high`; `merge` yields a sane
/// envelope even from degenerate operands.
#[derive(Debug, Clone, Copy, PartialEq, Eq, Structural)]
pub struct Span {
    pub low: Pos,
    pub high: Pos,
}

impl Span {
    /// The smallest span covering both operands.
    pub open spec fn spec_merge(self, other: Span) -> Span {
        Span {
            low: if self.low.0 <= other.low.0 {
                self.low
            } else {
                other.low
            },
            high: if self.high.0 >= other.high.0 {
                self.high
            } else {
                other.high
            },
        }
    }

    /// Half-open membership: `low <= pos < high`.
    pub open spec fn spec_contains(self, pos: Pos) -> bool {
        self.low.0 <= pos.0 && pos.0 < self.high.0
    }

    /// The empty span `[0, 0)`, the default.
    pub fn zero() -> (s: Span)
        ensures
            s == (Span { low: Pos(0), high: Pos(0) }),
    {
        Span { low: Pos(0), high: Pos(0) }
    }

    pub fn new(low: Pos, high: Pos) -> (s: Span)
        ensures
            s == (Span { low, high }),
    {
        Span { low, high }
    }

    /// Returns the smallest span covering both `self` and `other`.
    pub fn merge(&self, other: Span) -> (s: Span)
        ensures
            s == self.spec_merge(other),
    {
        let low = if self.low.0 <= other.low.0 {
            self.low
        } else {
            other.low
        };
        let high = if self.high.0 >= other.high.0 {
            self.high
        } else {
            other.high
        };
        Span { low, high }
    }

    /// Holds exactly when `low <= pos < high`; adjacent spans never both
    /// contain their shared boundary point.
    pub fn contains(&self, pos: Pos) -> (r: bool)
        ensures
            r == self.spec_contains(pos),
    {
        self.low.0 <= pos.0 && self.high.0 > pos.0
    }
}

impl Default for Span {
    /// The empty span `[0, 0)`.
    fn default() -> (s: Span)
        ensures
            s == (Span { low: Pos(0), high: Pos(0) }),
    {
        Span { low: Pos(0), high: Pos(0) }
    }
}

/// Merging is commutative: the envelope does not depend on the order of
/// its operands.
pub proof fn lemma_merge_commutative(a: Span, b: Span)
    ensures
        a.spec_merge(b) == b.spec_merge(a),
{
}

/// Merging is associative: a chain of merges yields one envelope however
/// it is grouped.
pub proof fn lemma_merge_associative(a: Span, b: Span, c: Span)
    ensures
        a.spec_merge(b).spec_merge(c) == a.spec_merge(b.spec_merge(c)),
{
}

/// Merging a span with itself is a no-op.
pub proof fn lemma_merge_idempotent(a: Span)
    ensures
        a.spec_merge(a) == a,
{
}

} // verus!
