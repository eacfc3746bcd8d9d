//! Measurements as the decoder hands them on: the reading taken from the
//! wire together with the conversion that turns it into its published unit.
//!
//! A quantity is kept exact. Readings that arrive as integers stay integers,
//! and readings that arrive as IEEE-754 single-precision numbers are carried
//! as their 32 bits, so that nothing is rounded before the value is published.

use vstd::prelude::*;

verus! {

/// Divisor that turns milli-units into base units.
pub const MILLI: u32 = 1000;

/// Divisor that turns fixed-point degrees (1e-7 degree steps) into degrees.
pub const DEGREES_E7: u32 = 10_000_000;

/// One published number, described by its reading and its conversion.
#[derive(Clone, Copy, Debug, PartialEq, Eq, Structural)]
pub enum Quantity {
    /// An integer published as it stands.
    Whole(i32),
    /// `numerator / denominator`, evaluated in single precision.
    Ratio { numerator: i32, denominator: u32 },
    /// `numerator / denominator`, evaluated in double precision.
    WideRatio { numerator: i32, denominator: u32 },
    /// `reading * 0.001`, evaluated in single precision.
    Thousandths(i32),
    /// A single-precision number, given by its bits, published unchanged.
    Single(u32),
    /// An angle in radians, given by the bits of a single-precision number,
    /// published in degrees: `angle * (180 / pi)`.
    Degrees(u32),
}

impl Quantity {
    /// A quantity can be evaluated: it never divides by zero.
    pub open spec fn wf(self) -> bool {
        match self {
            Quantity::Ratio { denominator, .. } => denominator > 0,
            Quantity::WideRatio { denominator, .. } => denominator > 0,
            _ => true,
        }
    }

    /// The exact value as a fraction `(numerator, denominator)`, for the
    /// quantities whose reading is an integer.
    pub open spec fn fraction(self) -> Option<(int, int)> {
        match self {
            Quantity::Whole(n) => Some((n as int, 1int)),
            Quantity::Ratio { numerator, denominator } => Some(
                (numerator as int, denominator as int),
            ),
            Quantity::WideRatio { numerator, denominator } => Some(
                (numerator as int, denominator as int),
            ),
            Quantity::Thousandths(n) => Some((n as int, 1000int)),
            Quantity::Single(_) => None,
            Quantity::Degrees(_) => None,
        }
    }

    /// A reading in milli-units, published in base units.
    pub open spec fn per_thousand_spec(reading: i32) -> Quantity {
        Quantity::Ratio { numerator: reading, denominator: MILLI }
    }

    /// A reading in 1e-7 degree steps, published in degrees.
    pub open spec fn degrees_e7_spec(reading: i32) -> Quantity {
        Quantity::WideRatio { numerator: reading, denominator: DEGREES_E7 }
    }

    /// The integer zero.
    pub open spec fn zero_spec() -> Quantity {
        Quantity::Whole(0)
    }

    /// Divides a reading in milli-units by one thousand.
    pub fn per_thousand(reading: i32) -> (q: Quantity)
        ensures
            q == Self::per_thousand_spec(reading),
            q.wf(),
            q.fraction() == Some((reading as int, 1000int)),
    {
        Quantity::Ratio { numerator: reading, denominator: MILLI }
    }

    /// Divides a reading in 1e-7 degree steps by ten million.
    pub fn degrees_e7(reading: i32) -> (q: Quantity)
        ensures
            q == Self::degrees_e7_spec(reading),
            q.wf(),
            q.fraction() == Some((reading as int, 10_000_000int)),
    {
        Quantity::WideRatio { numerator: reading, denominator: DEGREES_E7 }
    }

    /// The integer zero, for a field that a message does not report.
    pub fn zero() -> (q: Quantity)
        ensures
            q == Self::zero_spec(),
            q.wf(),
            q.fraction() == Some((0int, 1int)),
    {
        Quantity::Whole(0)
    }
}

} // verus!
