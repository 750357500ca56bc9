//! Days of the calendar, in universal time.
use crate::text;
use crate::text::zero_fill;
use vstd::prelude::*;
use vstd::string::*;

verus! {

/// Nanoseconds in a day.
pub const DAY_NANOS: u64 = 86_400_000_000_000;

/// A day of the Gregorian calendar.
#[derive(Clone, Copy, Debug, PartialEq, Eq, Structural)]
pub struct Day {
    pub year: u16,
    pub month: u8,
    pub day: u8,
}

/// Whether the year has a 29th of February.
pub open spec fn is_leap(year: int) -> bool {
    year % 4 == 0 && (year % 100 != 0 || year % 400 == 0)
}

/// How many days the year has.
pub open spec fn year_len(year: int) -> int {
    if is_leap(year) {
        366
    } else {
        365
    }
}

/// How many days the month has.
pub open spec fn month_len(year: int, month: int) -> int {
    if month == 2 {
        if is_leap(year) {
            29
        } else {
            28
        }
    } else if month == 4 || month == 6 || month == 9 || month == 11 {
        30
    } else {
        31
    }
}

/// How many days there are from the start of 1970 to the start of the year.
pub open spec fn days_before_year(year: int) -> int
    decreases year,
{
    if year <= 1970 {
        0
    } else {
        days_before_year(year - 1) + year_len(year - 1)
    }
}

/// How many days of the year come before the month.
pub open spec fn days_before_month(year: int, month: int) -> int
    decreases month,
{
    if month <= 1 {
        0
    } else {
        days_before_month(year, month - 1) + month_len(year, month - 1)
    }
}

/// Whether there is such a day, in 1970 or later.
pub open spec fn is_date(d: Day) -> bool {
    &&& 1970 <= d.year
    &&& 1 <= d.month <= 12
    &&& 1 <= d.day <= month_len(d.year as int, d.month as int)
}

/// How many days there are from the first of January 1970 to `d`.
pub open spec fn day_number(d: Day) -> int {
    days_before_year(d.year as int) + days_before_month(d.year as int, d.month as int) + d.day - 1
}

/// The day that a time falls on, `wall` in nanoseconds since the epoch.
pub open spec fn date_at(wall: u64) -> Day {
    choose|d: Day| #[trigger] is_date(d) && day_number(d) == wall as int / DAY_NANOS as int
}

/// `d` as year, month and day: four, two and two digits.
pub open spec fn day_text(d: Day) -> Seq<char> {
    text::zero_filled(d.year as nat, 4) + "-"@ + text::zero_filled(d.month as nat, 2) + "-"@
        + text::zero_filled(d.day as nat, 2)
}

fn leap(year: u16) -> (r: bool)
    ensures
        r == is_leap(year as int),
{
    year % 4 == 0 && (year % 100 != 0 || year % 400 == 0)
}

fn days_in_year(year: u16) -> (r: u64)
    ensures
        r == year_len(year as int),
{
    if leap(year) {
        366
    } else {
        365
    }
}

fn days_in_month(year: u16, month: u8) -> (r: u64)
    ensures
        r == month_len(year as int, month as int),
{
    if month == 2 {
        if leap(year) {
            29
        } else {
            28
        }
    } else if month == 4 || month == 6 || month == 9 || month == 11 {
        30
    } else {
        31
    }
}

/// The day that a time falls on, `wall` in nanoseconds since the epoch.
pub fn day_of(wall: u64) -> (r: Day)
    ensures
        is_date(r),
        day_number(r) == wall as int / DAY_NANOS as int,
        r == date_at(wall),
{
    let total: u64 = wall / DAY_NANOS;
    let mut year: u16 = 1970;
    let mut left: u64 = total;
    while left >= days_in_year(year)
        invariant
            1970 <= year,
            total <= 213_504,
            days_before_year(year as int) + left == total,
            365 * (year - 1970) + left <= total,
        decreases left,
    {
        left = left - days_in_year(year);
        year = year + 1;
    }
    let ghost of_year = left as int;
    let mut month: u8 = 1;
    proof {
        reveal_with_fuel(days_before_month, 13);
    }
    while left >= days_in_month(year, month)
        invariant
            1 <= month <= 12,
            days_before_month(year as int, month as int) + left == of_year,
            of_year < year_len(year as int),
            days_before_month(year as int, 12) + 31 == year_len(year as int),
        decreases left,
    {
        left = left - days_in_month(year, month);
        month = month + 1;
    }
    let found = Day { year, month, day: (left + 1) as u8 };
    proof {
        assert(is_date(found) && day_number(found) == wall as int / DAY_NANOS as int);
        law_days_are_told_apart(found, date_at(wall));
    }
    found
}

/// Writes the day as year, month and day.
pub fn day_format(d: Day) -> (r: String)
    ensures
        r@ == day_text(d),
{
    zero_fill(d.year as u64, 4).concat("-").concat(zero_fill(d.month as u64, 2).as_str()).concat(
        "-",
    ).concat(zero_fill(d.day as u64, 2).as_str())
}

proof fn lemma_years_in_order(a: int, b: int)
    requires
        1970 <= a < b,
    ensures
        days_before_year(a) + year_len(a) <= days_before_year(b),
    decreases b - a,
{
    if a + 1 < b {
        lemma_years_in_order(a, b - 1);
    }
}

proof fn lemma_months_in_order(year: int, a: int, b: int)
    requires
        1 <= a < b,
    ensures
        days_before_month(year, a) + month_len(year, a) <= days_before_month(year, b),
    decreases b - a,
{
    if a + 1 < b {
        lemma_months_in_order(year, a, b - 1);
    }
}

proof fn lemma_day_is_in_its_year(d: Day)
    requires
        is_date(d),
    ensures
        days_before_year(d.year as int) <= day_number(d) < days_before_year(d.year as int)
            + year_len(d.year as int),
{
    reveal_with_fuel(days_before_month, 13);
    if d.month > 1 {
        lemma_months_in_order(d.year as int, 1, d.month as int);
    }
    if d.month < 12 {
        lemma_months_in_order(d.year as int, d.month as int, 12);
    }
}

/// Two different days are a different number of days away from the epoch, so
/// a time falls on one day only.
pub proof fn law_days_are_told_apart(a: Day, b: Day)
    requires
        is_date(a),
        is_date(b),
        day_number(a) == day_number(b),
    ensures
        a == b,
{
    lemma_day_is_in_its_year(a);
    lemma_day_is_in_its_year(b);
    if a.year < b.year {
        lemma_years_in_order(a.year as int, b.year as int);
    } else if b.year < a.year {
        lemma_years_in_order(b.year as int, a.year as int);
    } else if a.month < b.month {
        lemma_months_in_order(a.year as int, a.month as int, b.month as int);
    } else if b.month < a.month {
        lemma_months_in_order(a.year as int, b.month as int, a.month as int);
    }
}

/// The calendar: which years have a day more, how many days each month has,
/// and that the months of a year make up the year.
pub proof fn law_calendar(year: int)
    ensures
        year % 4 != 0 ==> year_len(year) == 365,
        year % 4 == 0 && year % 100 != 0 ==> year_len(year) == 366,
        year % 100 == 0 && year % 400 != 0 ==> year_len(year) == 365,
        year % 400 == 0 ==> year_len(year) == 366,
        month_len(year, 1) == 31,
        month_len(year, 2) == year_len(year) - 337,
        month_len(year, 3) == 31,
        month_len(year, 4) == 30,
        month_len(year, 5) == 31,
        month_len(year, 6) == 30,
        month_len(year, 7) == 31,
        month_len(year, 8) == 31,
        month_len(year, 9) == 30,
        month_len(year, 10) == 31,
        month_len(year, 11) == 30,
        month_len(year, 12) == 31,
        days_before_month(year, 12) + 31 == year_len(year),
{
    reveal_with_fuel(days_before_month, 13);
}

/// Counting the days: the first of January 1970 is the start, and the count
/// goes up by one from each day to the next, over the ends of months and years.
pub proof fn law_days_are_counted_one_by_one(d: Day, next: Day)
    requires
        is_date(d),
        ({
            let y = d.year as int;
            let m = d.month as int;
            ||| d.day < month_len(y, m) && next == (Day { day: (d.day + 1) as u8, ..d })
            ||| d.day == month_len(y, m) && m < 12 && next == (Day {
                month: (m + 1) as u8,
                day: 1,
                ..d
            })
            ||| d.day == month_len(y, m) && m == 12 && d.year < u16::MAX && next == (Day {
                year: (y + 1) as u16,
                month: 1,
                day: 1,
            })
        }),
    ensures
        is_date(next),
        day_number(next) == day_number(d) + 1,
        day_number(Day { year: 1970, month: 1, day: 1 }) == 0,
{
    reveal_with_fuel(days_before_month, 13);
    reveal_with_fuel(days_before_year, 2);
}

/// A day is written as its year, month and day with at least four, two and two
/// digits and a hyphen between them.
pub proof fn law_day_is_written_in_digits(d: Day)
    ensures
        day_text(d) == text::zero_filled(d.year as nat, 4) + seq!['-'] + text::zero_filled(
            d.month as nat,
            2,
        ) + seq!['-'] + text::zero_filled(d.day as nat, 2),
{
    reveal_strlit("-");
    assert("-"@ =~= seq!['-']);
}

/// A time falls on the day whose number of days since the epoch have passed
/// then, each with its 86,400 seconds, while the next has not.
pub proof fn law_time_falls_on_its_day(d: Day, wall: u64)
    requires
        1970 <= d.year,
        1 <= d.month <= 12,
        1 <= d.day <= month_len(d.year as int, d.month as int),
        day_number(d) * 86_400_000_000_000 <= wall < (day_number(d) + 1) * 86_400_000_000_000,
    ensures
        date_at(wall) == d,
{
    let n = day_number(d);
    assert(wall as int / DAY_NANOS as int == n) by {
        assert(n * 86_400_000_000_000 <= wall < n * 86_400_000_000_000 + 86_400_000_000_000);
    }
    assert(is_date(d));
    let found = date_at(wall);
    assert(is_date(found) && day_number(found) == n);
    law_days_are_told_apart(found, d);
}

} // verus!
