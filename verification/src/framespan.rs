use crate::framenum::FrameNum;
use std::ops::Range;
use vstd::prelude::*;
use vstd::std_specs::convert::FromSpec;

verus! {

/// A half-open interval `[from, to_excl)` over frame numbers.
///
/// A span with `from == to_excl` is valid and denotes zero frames; it is
/// used as a sentinel for "no selection". A span whose bounds are out of
/// order is treated as empty by `len` and `contains`.
#[derive(Debug, Clone, PartialEq, Eq, Structural)]
pub struct FrameSpan {
    pub from: FrameNum,
    pub to_excl: FrameNum,
}

impl FrameSpan {
    /// The number of frames the span covers, saturating at zero when the
    /// bounds are out of order.
    pub open spec fn spec_len(self) -> int {
        if self.to_excl.0 >= self.from.0 {
            self.to_excl.0 - self.from.0
        } else {
            0
        }
    }

    /// Whether `f` lies inside the half-open interval.
    pub open spec fn spec_contains(self, f: FrameNum) -> bool {
        self.from.0 <= f.0 < self.to_excl.0
    }

    /// The primitive half-open integer range with the same bounds.
    pub open spec fn spec_range(self) -> Range<u64> {
        Range { start: self.from.0, end: self.to_excl.0 }
    }

    pub fn len(&self) -> (n: u64)
        ensures
            n == self.spec_len(),
    {
        if self.to_excl.0 >= self.from.0 {
            self.to_excl.0 - self.from.0
        } else {
            0
        }
    }

    pub fn contains(&self, f: FrameNum) -> (b: bool)
        ensures
            b == self.spec_contains(f),
    {
        self.from.0 <= f.0 && f.0 < self.to_excl.0
    }
}

impl From<FrameSpan> for Range<u64> {
    fn from(value: FrameSpan) -> Self {
        value.from.0..value.to_excl.0
    }
}

impl vstd::std_specs::convert::FromSpecImpl<FrameSpan> for Range<u64> {
    open spec fn obeys_from_spec() -> bool {
        true
    }

    open spec fn from_spec(v: FrameSpan) -> Range<u64> {
        v.spec_range()
    }
}

impl From<Range<u64>> for FrameSpan {
    fn from(value: Range<u64>) -> Self {
        FrameSpan { from: FrameNum(value.start), to_excl: FrameNum(value.end) }
    }
}

impl vstd::std_specs::convert::FromSpecImpl<Range<u64>> for FrameSpan {
    open spec fn obeys_from_spec() -> bool {
        true
    }

    open spec fn from_spec(v: Range<u64>) -> FrameSpan {
        FrameSpan { from: FrameNum(v.start), to_excl: FrameNum(v.end) }
    }
}

/// A well-formed span measures exactly `to_excl - from` frames, and holds
/// exactly the frame numbers from `from` up to but excluding `to_excl`.
pub proof fn lemma_span_len_contains(s: FrameSpan, f: FrameNum)
    requires
        s.to_excl.0 >= s.from.0,
    ensures
        s.spec_len() == s.to_excl.0 - s.from.0,
        s.spec_contains(f) <==> s.from.0 <= f.0 && f.0 < s.to_excl.0,
{
}

/// Converting a span to the primitive range and back yields the same span,
/// and the other way round: the two representations are interchangeable.
pub proof fn lemma_span_range_round_trip(s: FrameSpan, r: Range<u64>)
    ensures
        FrameSpan::from_spec(s.spec_range()) == s,
        FrameSpan::from_spec(r).spec_range() == r,
{
}

} // verus!
