//! Calendar days, and the keys under which the device files a day's and a
//! month's energy.
use crate::text::{decimal_digits, u64_to_string};
use vstd::prelude::*;
use vstd::string::*;

verus! {

/// A day of the proleptic Gregorian calendar.
#[derive(Clone, Copy, Debug, PartialEq, Eq, Structural)]
pub struct Day {
    pub year: i32,
    pub month: u32,
    pub day: u32,
}

/// Whether `year` has a 29th of February.
pub open spec fn leap_year(year: int) -> bool {
    year % 4 == 0 && (year % 100 != 0 || year % 400 == 0)
}

/// How many days `month` has in `year`; zero where there is no such month.
pub open spec fn days_in_month(year: int, month: int) -> int {
    if month == 2 {
        if leap_year(year) {
            29
        } else {
            28
        }
    } else if month == 4 || month == 6 || month == 9 || month == 11 {
        30
    } else if 1 <= month <= 12 {
        31
    } else {
        0
    }
}

/// `n` written with two digits at least: a zero stands before a single digit.
pub open spec fn two_digits(n: nat) -> Seq<char> {
    if n < 10 {
        seq!['0'] + decimal_digits(n)
    } else {
        decimal_digits(n)
    }
}

impl Day {
    /// The calendar has this day.
    pub open spec fn valid(self) -> bool {
        1 <= self.day <= days_in_month(self.year as int, self.month as int)
    }

    /// The key of the day in the device's daily series: day, month and the
    /// last two digits of the year, each with two digits, with dots between.
    pub open spec fn key_text(self) -> Seq<char> {
        two_digits(self.day as nat) + "."@ + two_digits(self.month as nat) + "."@ + two_digits(
            ((self.year as int) % 100) as nat,
        )
    }

    /// The key of the day's month in the device's monthly series: the key
    /// of the first day of the month.
    pub open spec fn month_key_text(self) -> Seq<char> {
        "01."@ + two_digits(self.month as nat) + "."@ + two_digits(
            ((self.year as int) % 100) as nat,
        )
    }

    /// The day with the given year, month and day of the month, if the
    /// calendar has it.
    pub fn from_ymd_opt(year: i32, month: u32, day: u32) -> (r: Option<Day>)
        ensures
            r == if (Day { year, month, day }).valid() {
                Some(Day { year, month, day })
            } else {
                None
            },
    {
        let leap = year % 4 == 0 && (year % 100 != 0 || year % 400 == 0);
        let length: u32 = if month == 2 {
            if leap {
                29
            } else {
                28
            }
        } else if month == 4 || month == 6 || month == 9 || month == 11 {
            30
        } else if 1 <= month && month <= 12 {
            31
        } else {
            0
        };
        if 1 <= day && day <= length {
            Some(Day { year, month, day })
        } else {
            None
        }
    }

    /// The key of the day in the device's daily series.
    pub fn key(&self) -> (key: String)
        ensures
            key@ == self.key_text(),
    {
        let mut key = write_two_digits(self.day as u64);
        key.append(".");
        key.append(write_two_digits(self.month as u64).as_str());
        key.append(".");
        key.append(write_two_digits(self.year_of_century()).as_str());
        key
    }

    /// The key of the day's month in the device's monthly series.
    pub fn month_key(&self) -> (key: String)
        ensures
            key@ == self.month_key_text(),
    {
        let mut key = String::from_str("01.");
        key.append(write_two_digits(self.month as u64).as_str());
        key.append(".");
        key.append(write_two_digits(self.year_of_century()).as_str());
        key
    }

    /// The last two digits of the year.
    fn year_of_century(&self) -> (r: u64)
        ensures
            r == (self.year as int) % 100,
    {
        let shifted: i64 = self.year as i64 + 2147483700;
        (shifted % 100) as u64
    }
}

/// Writes `n` with two digits at least.
fn write_two_digits(n: u64) -> (s: String)
    ensures
        s@ == two_digits(n as nat),
{
    if n < 10 {
        let mut s = String::from_str("0");
        s.append(u64_to_string(n).as_str());
        proof {
            reveal_strlit("0");
            assert("0"@ =~= seq!['0']);
        }
        s
    } else {
        u64_to_string(n)
    }
}

} // verus!
