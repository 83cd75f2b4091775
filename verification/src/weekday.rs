//! Days of the week.

use vstd::prelude::*;

verus! {

/// A day of the week.
#[derive(Clone, Copy, PartialEq, Eq, Structural, Debug)]
pub enum Weekday {
    Mon,
    Tue,
    Wed,
    Thu,
    Fri,
    Sat,
    Sun,
}

impl Weekday {
    /// The day at a position in the week; positions are taken modulo 7, Monday at 0.
    pub open spec fn at(position: int) -> Weekday {
        let p = position % 7;
        if p == 0 {
            Weekday::Mon
        } else if p == 1 {
            Weekday::Tue
        } else if p == 2 {
            Weekday::Wed
        } else if p == 3 {
            Weekday::Thu
        } else if p == 4 {
            Weekday::Fri
        } else if p == 5 {
            Weekday::Sat
        } else {
            Weekday::Sun
        }
    }

    /// The day at a position in the week, taken modulo 7, Monday at 0.
    pub fn from_position(position: u64) -> (day: Weekday)
        ensures
            day == Weekday::at(position as int),
    {
        let p: u64 = position % 7;
        if p == 0 {
            Weekday::Mon
        } else if p == 1 {
            Weekday::Tue
        } else if p == 2 {
            Weekday::Wed
        } else if p == 3 {
            Weekday::Thu
        } else if p == 4 {
            Weekday::Fri
        } else if p == 5 {
            Weekday::Sat
        } else {
            Weekday::Sun
        }
    }
}

} // verus!
