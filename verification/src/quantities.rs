//! Dimensioned scalars, each stored as a count of billionths of its unit.
use crate::fixed_point::{checked_scaled_product, NANO, narrowed, scaled_product};
use vstd::prelude::*;

verus! {

/// A dimensionless number, in billionths.
#[derive(Clone, Copy, Debug, PartialEq, Eq, Structural, PartialOrd, Ord, Hash)]
pub struct Ratio {
    pub nano: i64,
}

/// A time, in nanoseconds.
#[derive(Clone, Copy, Debug, PartialEq, Eq, Structural, PartialOrd, Ord, Hash)]
pub struct Time {
    pub nano: i64,
}

/// A frequency or rate, in nanohertz.
#[derive(Clone, Copy, Debug, PartialEq, Eq, Structural, PartialOrd, Ord, Hash)]
pub struct Frequency {
    pub nano: i64,
}

/// A squared time, in billionths of a square second.
#[derive(Clone, Copy, Debug, PartialEq, Eq, Structural, PartialOrd, Ord, Hash)]
pub struct TimeSquared {
    pub nano: i64,
}

impl View for Ratio {
    type V = int;

    open spec fn view(&self) -> int {
        self.nano as int
    }
}

impl View for Time {
    type V = int;

    open spec fn view(&self) -> int {
        self.nano as int
    }
}

impl View for Frequency {
    type V = int;

    open spec fn view(&self) -> int {
        self.nano as int
    }
}

impl View for TimeSquared {
    type V = int;

    open spec fn view(&self) -> int {
        self.nano as int
    }
}

impl Ratio {
    /// The ratio of `nano` billionths.
    pub fn from_nano(nano: i64) -> (r: Self)
        ensures
            r@ == nano,
    {
        Ratio { nano }
    }

    /// The ratio 0.
    pub fn zero() -> (r: Self)
        ensures
            r@ == 0,
    {
        Ratio { nano: 0 }
    }

    /// The ratio 1.
    pub fn one() -> (r: Self)
        ensures
            r@ == NANO,
    {
        Ratio { nano: NANO }
    }
}

impl Time {
    /// The time of `nano` nanoseconds.
    pub fn from_nano(nano: i64) -> (r: Self)
        ensures
            r@ == nano,
    {
        Time { nano }
    }

    /// The time 0.
    pub fn zero() -> (r: Self)
        ensures
            r@ == 0,
    {
        Time { nano: 0 }
    }

    /// One second.
    pub fn second() -> (r: Self)
        ensures
            r@ == NANO,
    {
        Time { nano: NANO }
    }

    /// The product of two times, where it can be stored.
    pub fn times(self, other: Time) -> (r: Option<TimeSquared>)
        ensures
            r.is_some() == narrowed(scaled_product(self@, other@)).is_some(),
            r matches Some(square) ==> square@ == scaled_product(self@, other@),
    {
        match checked_scaled_product(self.nano, other.nano) {
            Some(nano) => Some(TimeSquared { nano }),
            None => None,
        }
    }
}

impl Frequency {
    /// The frequency of `nano` nanohertz.
    pub fn from_nano(nano: i64) -> (r: Self)
        ensures
            r@ == nano,
    {
        Frequency { nano }
    }

    /// The frequency 0.
    pub fn zero() -> (r: Self)
        ensures
            r@ == 0,
    {
        Frequency { nano: 0 }
    }
}

impl TimeSquared {
    /// The squared time of `nano` billionths of a square second.
    pub fn from_nano(nano: i64) -> (r: Self)
        ensures
            r@ == nano,
    {
        TimeSquared { nano }
    }
}

} // verus!
