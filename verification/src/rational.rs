use vstd::prelude::*;

verus! {

/// An exact fraction: a signed numerator over a signed denominator.
///
/// Used for the project frame rate and for each stream's native time
/// base. A value is meaningful only when its denominator is non-zero; it
/// need not be reduced to lowest terms, and internal comparisons never go
/// through floating point, so no precision is lost.
#[derive(Debug, Copy, Clone, PartialEq, Eq, Structural)]
pub struct JadeRational {
    pub num: i32,
    pub den: i32,
}

impl JadeRational {
    /// A fraction is valid when its denominator is non-zero.
    pub open spec fn valid(self) -> bool {
        self.den != 0
    }

    /// The (numerator, denominator) pair exactly as the platform's native
    /// rational representation stores it.
    pub open spec fn spec_native_parts(self) -> (i32, i32) {
        (self.num, self.den)
    }

    /// The fraction a native (numerator, denominator) pair denotes.
    pub open spec fn spec_from_native_parts(parts: (i32, i32)) -> JadeRational {
        JadeRational { num: parts.0, den: parts.1 }
    }

    /// Supplying a zero denominator is a caller contract violation, not a
    /// recoverable failure: denominators come from a valid stream or a
    /// user-configured frame rate, both non-zero by construction.
    pub fn new(num: i32, den: i32) -> (r: Self)
        requires
            den != 0,
        ensures
            r == (JadeRational { num, den }),
            r.valid(),
    {
        JadeRational { num, den }
    }

    /// The pair handed to the native rational constructor, which stores
    /// numerator and denominator verbatim.
    pub fn native_parts(self) -> (r: (i32, i32))
        ensures
            r == self.spec_native_parts(),
    {
        (self.num, self.den)
    }

    /// Rebuild the fraction from the pair a native rational reports back.
    pub fn from_native_parts(num: i32, den: i32) -> (r: Self)
        ensures
            r == JadeRational::spec_from_native_parts((num, den)),
    {
        JadeRational { num, den }
    }
}

/// Round-tripping any valid fraction through the native pair
/// representation and back yields the same numerator and denominator.
pub proof fn lemma_native_round_trip(r: JadeRational)
    requires
        r.valid(),
    ensures
        JadeRational::spec_from_native_parts(r.spec_native_parts()) == r,
{
}

} // verus!
