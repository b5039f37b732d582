//! Calendar dates as day numbers of the proleptic Gregorian calendar.
use vstd::prelude::*;

verus! {

/// Day number of the earliest date that chrono can represent (-262143-01-01).
pub const MIN_DAY: i32 = -95746129;

/// Day number of the latest date that chrono can represent (262142-12-31).
pub const MAX_DAY: i32 = 95745399;

/// Number of seconds in a day.
pub const SECS_PER_DAY: u32 = 86400;

/// A calendar date, held as its day number counted from the common era:
/// 0001-01-01 is day 1 (a Monday), 0000-12-31 is day 0.
#[derive(Clone, Copy, Debug, PartialEq, Eq, Structural)]
pub struct Date {
    pub day: i32,
}

/// Whether `c` is an ASCII decimal digit.
pub open spec fn is_digit(c: char) -> bool {
    '0' <= c && c <= '9'
}

/// Weekday of a day number, counted from Sunday (0) to Saturday (6).
pub open spec fn weekday_of(day: int) -> int {
    day % 7
}

impl Date {
    /// The day number lies in the representable calendar range.
    pub open spec fn wf(self) -> bool {
        MIN_DAY <= self.day <= MAX_DAY
    }

    /// The date with the given day number, if that number is in range.
    pub fn from_day_number(n: i32) -> (r: Option<Date>)
        ensures
            r == (if MIN_DAY <= n <= MAX_DAY {
                Some(Date { day: n })
            } else {
                None::<Date>
            }),
    {
        if MIN_DAY <= n && n <= MAX_DAY {
            Some(Date { day: n })
        } else {
            None
        }
    }

    /// The day number of this date.
    pub fn day_number(&self) -> (r: i32)
        ensures
            r == self.day,
    {
        self.day
    }

    /// The date `n` days earlier.
    pub fn days_before(self, n: u32) -> (r: Date)
        requires
            self.wf(),
            self.day - n >= MIN_DAY,
        ensures
            r.day == self.day - n,
            r.wf(),
    {
        Date { day: (self.day as i64 - n as i64) as i32 }
    }

    /// The weekday of this date, counted from Sunday (0) to Saturday (6).
    pub fn days_from_sunday(self) -> (r: u32)
        requires
            self.wf(),
        ensures
            r == weekday_of(self.day as int),
            r < 7,
    {
        // MIN_DAY - 4 is a multiple of seven, so the shifted number keeps the weekday.
        let shifted: u32 = (self.day as i64 - (MIN_DAY as i64 - 4)) as u32;
        let r: u32 = shifted % 7;
        assert(r == weekday_of(self.day as int)) by {
            assert(MIN_DAY - 4 == -13678019 * 7);
            vstd::arithmetic::div_mod::lemma_mod_multiples_vanish(
                13678019,
                self.day as int,
                7,
            );
        }
        r
    }
}

/// A date together with a time of day, given in seconds after midnight.
#[derive(Clone, Copy, Debug, PartialEq, Eq, Structural)]
pub struct DateTime {
    pub date: Date,
    pub secs: u32,
}

impl DateTime {
    /// The date lies in range and the time lies within the day.
    pub open spec fn wf(self) -> bool {
        self.date.wf() && self.secs < SECS_PER_DAY
    }
}

/// An inclusive interval of dates.
#[derive(Clone, Copy, Debug, PartialEq, Eq, Structural)]
pub struct DateRange {
    pub from: Date,
    pub to: Date,
}

} // verus!
