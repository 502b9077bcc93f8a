use crate::text::{decimal_digits, push_digits};
use vstd::prelude::*;

verus! {

/// The earliest year a `Date` can hold.
pub const MIN_YEAR: i32 = -262144;

/// The latest year a `Date` can hold.
pub const MAX_YEAR: i32 = 262143;

/// Whether `year` is a leap year of the proleptic Gregorian calendar.
pub open spec fn is_leap_year(year: int) -> bool {
    year % 4 == 0 && (year % 100 != 0 || year % 400 == 0)
}

/// The number of days of `month` (1 to 12) in `year`.
pub open spec fn days_in_month(year: int, month: int) -> int {
    if month == 2 {
        if is_leap_year(year) {
            29
        } else {
            28
        }
    } else if month == 4 || month == 6 || month == 9 || month == 11 {
        30
    } else {
        31
    }
}

/// Whether `year`-`month`-`day` is a calendar date within the years a `Date` can hold.
pub open spec fn is_valid_date(year: int, month: int, day: int) -> bool {
    MIN_YEAR <= year <= MAX_YEAR && 1 <= month <= 12 && 1 <= day <= days_in_month(year, month)
}

/// `n` in decimal, with zeros in front up to two digits.
pub open spec fn two_digits(n: nat) -> Seq<char> {
    if n < 10 {
        seq!['0'] + decimal_digits(n)
    } else {
        decimal_digits(n)
    }
}

/// `n` in decimal, with zeros in front up to four digits.
pub open spec fn four_digits(n: nat) -> Seq<char> {
    (if n < 1000 { seq!['0'] } else { Seq::empty() }) + (if n < 100 {
        seq!['0']
    } else {
        Seq::empty()
    }) + (if n < 10 {
        seq!['0']
    } else {
        Seq::empty()
    }) + decimal_digits(n)
}

/// A year as ISO 8601 writes it: four digits for 0 to 9999, else a sign and at least four digits.
pub open spec fn year_text(year: int) -> Seq<char> {
    if 0 <= year <= 9999 {
        four_digits(year as nat)
    } else if year < 0 {
        seq!['-'] + four_digits((-year) as nat)
    } else {
        seq!['+'] + four_digits(year as nat)
    }
}

/// The ISO 8601 text of a date: `YYYY-MM-DD`.
pub open spec fn date_text(year: int, month: nat, day: nat) -> Seq<char> {
    year_text(year) + seq!['-'] + two_digits(month) + seq!['-'] + two_digits(day)
}

/// A calendar date (proleptic Gregorian), as year, month and day.
#[derive(Clone, Copy, Debug, PartialEq, Eq, PartialOrd, Ord, Hash)]
pub struct Date {
    year: i32,
    month: u32,
    day: u32,
}

impl Date {
    /// The year.
    pub closed spec fn spec_year(&self) -> int {
        self.year as int
    }

    /// The month, 1 to 12.
    pub closed spec fn spec_month(&self) -> nat {
        self.month as nat
    }

    /// The day of the month, from 1.
    pub closed spec fn spec_day(&self) -> nat {
        self.day as nat
    }

    /// The date is a calendar date.
    pub closed spec fn wf(&self) -> bool {
        is_valid_date(self.year as int, self.month as int, self.day as int)
    }

    /// The date `year`-`month`-`day`, if it is a calendar date within the years a `Date` can hold.
    pub fn from_ymd_opt(year: i32, month: u32, day: u32) -> (r: Option<Date>)
        ensures
            r is Some <==> is_valid_date(year as int, month as int, day as int),
            r matches Some(d) ==> d.wf() && d.spec_year() == year && d.spec_month() == month
                && d.spec_day() == day,
    {
        if year < MIN_YEAR || year > MAX_YEAR || month < 1 || month > 12 || day < 1 {
            return None;
        }
        let leap = year % 4 == 0 && (year % 100 != 0 || year % 400 == 0);
        let days: u32 = if month == 2 {
            if leap {
                29
            } else {
                28
            }
        } else if month == 4 || month == 6 || month == 9 || month == 11 {
            30
        } else {
            31
        };
        if day > days {
            None
        } else {
            Some(Date { year, month, day })
        }
    }

    /// The year.
    pub fn year(&self) -> (r: i32)
        ensures
            r == self.spec_year(),
    {
        self.year
    }

    /// The month, 1 to 12.
    pub fn month(&self) -> (r: u32)
        ensures
            r == self.spec_month(),
    {
        self.month
    }

    /// The day of the month, from 1.
    pub fn day(&self) -> (r: u32)
        ensures
            r == self.spec_day(),
    {
        self.day
    }

    /// Appends the ISO 8601 text of the date, `YYYY-MM-DD`.
    pub fn push_text(&self, out: &mut String)
        ensures
            final(out)@ == old(out)@ + date_text(
                self.spec_year(),
                self.spec_month(),
                self.spec_day(),
            ),
    {
        proof {
            reveal_strlit("0");
            reveal_strlit("-");
            reveal_strlit("+");
        }
        let y = self.year;
        let magnitude: u64 = if y < 0 {
            (0i64 - y as i64) as u64
        } else {
            y as u64
        };
        if y < 0 {
            out.append("-");
        } else if y > 9999 {
            out.append("+");
        }
        let ghost start = out@;
        if magnitude < 1000 {
            out.append("0");
        }
        if magnitude < 100 {
            out.append("0");
        }
        if magnitude < 10 {
            out.append("0");
        }
        push_digits(out, magnitude);
        assert(out@ =~= start + four_digits(magnitude as nat));
        out.append("-");
        push_two_digits(out, self.month as u64);
        out.append("-");
        push_two_digits(out, self.day as u64);
        assert(out@ =~= old(out)@ + date_text(self.spec_year(), self.spec_month(), self.spec_day()));
    }
}

fn push_two_digits(out: &mut String, n: u64)
    ensures
        final(out)@ == old(out)@ + two_digits(n as nat),
{
    proof {
        reveal_strlit("0");
    }
    if n < 10 {
        out.append("0");
    }
    push_digits(out, n);
    assert(final(out)@ =~= old(out)@ + two_digits(n as nat));
}

/// Team size bounds (minimum and maximum).
#[derive(Clone, Copy, Debug, Default, PartialEq, Eq, PartialOrd, Ord, Hash, Structural)]
pub struct TeamSize {
    /// Minimum team size
    pub min: i64,
    /// Maximum team size
    pub max: i64,
}

/// The simple result of a match for one opponent.
#[derive(Clone, Copy, Debug, PartialEq, Eq, PartialOrd, Ord, Hash, Structural)]
pub enum MatchResultSimple {
    /// A win (the service's 1).
    Win,
    /// A draw (the service's 2).
    Draw,
    /// A loss (the service's 3).
    Loss,
}

} // verus!
