use vstd::prelude::*;

verus! {

/// A calendar day in the proleptic Gregorian calendar, held as plain
/// year, month and day fields. Years are kept in 0..=9999 so that the
/// four-digit wire form of a date is total.
#[derive(Clone, Copy, PartialEq, Eq, Structural, Debug)]
pub struct Date {
    pub year: i32,
    pub month: u8,
    pub day: u8,
}

pub open spec fn spec_is_leap_year(y: int) -> bool {
    (y % 4 == 0 && y % 100 != 0) || y % 400 == 0
}

pub open spec fn spec_days_in_month(y: int, m: int) -> int {
    if m == 2 {
        if spec_is_leap_year(y) {
            29
        } else {
            28
        }
    } else if m == 4 || m == 6 || m == 9 || m == 11 {
        30
    } else {
        31
    }
}

/// The day immediately before `d`, or `None` at the very first
/// representable day.
pub open spec fn spec_prev_day(d: Date) -> Option<Date> {
    if d.day > 1 {
        Some(Date { day: (d.day - 1) as u8, ..d })
    } else if d.month > 1 {
        Some(
            Date {
                month: (d.month - 1) as u8,
                day: spec_days_in_month(d.year as int, d.month - 1) as u8,
                ..d
            },
        )
    } else if d.year > 0 {
        Some(Date { year: (d.year - 1) as i32, month: 12u8, day: 31u8 })
    } else {
        None
    }
}

impl Date {
    /// A well-formed calendar day: the month exists and the day falls
    /// inside the month.
    pub open spec fn wf(self) -> bool {
        &&& 0 <= self.year <= 9999
        &&& 1 <= self.month <= 12
        &&& 1 <= self.day <= spec_days_in_month(self.year as int, self.month as int)
    }

    pub fn leap_year(year: i32) -> (r: bool)
        requires
            year >= 0,
        ensures
            r == spec_is_leap_year(year as int),
    {
        (year % 4 == 0 && year % 100 != 0) || year % 400 == 0
    }

    pub fn days_in_month(year: i32, month: u8) -> (r: u8)
        requires
            year >= 0,
        ensures
            r as int == spec_days_in_month(year as int, month as int),
    {
        if month == 2 {
            if Self::leap_year(year) {
                29
            } else {
                28
            }
        } else if month == 4 || month == 6 || month == 9 || month == 11 {
            30
        } else {
            31
        }
    }

    /// The day as given when it is well formed, and nothing otherwise.
    pub fn new(year: i32, month: u8, day: u8) -> (r: Option<Date>)
        ensures
            r matches Some(d) ==> d == (Date { year, month, day }) && d.wf(),
            r is None ==> !(Date { year, month, day }).wf(),
    {
        if year >= 0 && year <= 9999 && month >= 1 && month <= 12 && day >= 1 && day
            <= Self::days_in_month(year, month) {
            Some(Date { year, month, day })
        } else {
            None
        }
    }

    /// The previous calendar day; the streak of a mark is judged against
    /// this day's attendance.
    pub fn prev_day(&self) -> (r: Option<Date>)
        requires
            self.wf(),
        ensures
            r == spec_prev_day(*self),
            r matches Some(p) ==> p.wf(),
    {
        if self.day > 1 {
            Some(Date { day: self.day - 1, ..*self })
        } else if self.month > 1 {
            Some(
                Date {
                    month: self.month - 1,
                    day: Self::days_in_month(self.year, self.month - 1),
                    ..*self
                },
            )
        } else if self.year > 0 {
            Some(Date { year: self.year - 1, month: 12, day: 31 })
        } else {
            None
        }
    }
}

} // verus!
