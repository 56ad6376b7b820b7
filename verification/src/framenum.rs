use vstd::prelude::*;

verus! {

/// A non-negative frame counter, the unit of timeline addressing.
///
/// Frame numbers are totally ordered and hashable. They are distinct from
/// raw container time-base ticks: converting between the two needs a
/// stream's time base and the project's target frame rate.
#[derive(Debug, Copy, Clone, PartialEq, Eq, Hash, PartialOrd, Ord, Structural)]
pub struct FrameNum(pub u64);

} // verus!
