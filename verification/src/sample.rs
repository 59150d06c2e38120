//! The values that a gauge can hold.

use vstd::prelude::*;

verus! {

/// One gauge value, kept in the exact form in which it was measured.
///
/// The library never rounds: a share stays a pair of integers, and a
/// fractional figure that the host reports is carried through untouched. What
/// renders a sample as a decimal number does so at exposition time.
#[derive(Clone, Copy, Debug, PartialEq, Eq, Structural)]
pub enum Sample {
    /// A whole number: a count, a number of seconds, a timestamp.
    Whole(i128),
    /// The share `part / whole`, exposed as a percentage. With `whole == 0`
    /// the share has no value, and is exposed as not-a-number.
    Percent { part: u128, whole: u128 },
    /// A fractional figure, carried as the bit pattern of a 64-bit binary
    /// floating-point number. The library never looks inside.
    Real { bits: u64 },
}

impl Sample {
    /// The sample is a percentage with a value, and that value lies between
    /// 0 and 100.
    pub open spec fn is_bounded_percent(self) -> bool {
        match self {
            Sample::Percent { part, whole } => 0 < whole && part <= whole,
            _ => false,
        }
    }

    /// The sample is a percentage whose value, `part * 100 / whole`, is at
    /// least 0 and at most 100, both as an exact ratio and rounded down.
    pub open spec fn within_hundred(self) -> bool {
        match self {
            Sample::Percent { part, whole } => 0 < whole && 0 <= part * 100 <= 100 * whole && 0
                <= Sample::percent_floor(part as int, whole as int) <= 100,
            _ => false,
        }
    }

    /// The sample is the whole number zero.
    pub open spec fn is_zero(self) -> bool {
        self == Sample::Whole(0)
    }

    /// The percentage of a share, rounded down to a whole number. Meaningful
    /// only where `whole > 0`.
    pub open spec fn percent_floor(part: int, whole: int) -> int {
        (part * 100) / whole
    }

    /// A flag as a sample: 1 for true, 0 for false.
    pub open spec fn flag(b: bool) -> Sample {
        if b {
            Sample::Whole(1)
        } else {
            Sample::Whole(0)
        }
    }

    /// A flag as a sample: 1 for true, 0 for false.
    pub fn from_flag(b: bool) -> (s: Sample)
        ensures
            s == Sample::flag(b),
    {
        if b {
            Sample::Whole(1)
        } else {
            Sample::Whole(0)
        }
    }

    /// A count as a sample.
    pub fn from_count(n: u64) -> (s: Sample)
        ensures
            s == Sample::Whole(n as i128),
    {
        Sample::Whole(n as i128)
    }
}

/// A percentage whose part does not exceed its whole lies between 0 and 100:
/// exactly, as a ratio, and so also when rounded down.
pub proof fn lemma_bounded_percent(s: Sample)
    requires
        s.is_bounded_percent(),
    ensures
        s.within_hundred(),
{
    let part = s->part as int;
    let whole = s->whole as int;
    assert(0 <= part * 100 <= 100 * whole) by (nonlinear_arith)
        requires
            0 <= part <= whole,
    ;
    assert(0 <= (part * 100) / whole <= 100) by (nonlinear_arith)
        requires
            0 <= part * 100 <= 100 * whole,
            0 < whole,
    ;
}

} // verus!
