//! The proleptic Gregorian calendar, as far as the statistics and the
//! history lookup need it.

use chrono::{Datelike, NaiveDate};
use vstd::prelude::*;
use vstd::string::*;

use crate::text::{decimal, push_decimal};

verus! {

/// The first year in which `chrono` has dates.
pub const MIN_YEAR: i32 = -262_143;

/// The last year in which `chrono` has dates.
pub const MAX_YEAR: i32 = 262_142;

/// The year against which a month and a day are checked: a leap year, so
/// that 29 February is a day of the calendar whatever the current year is.
pub const REFERENCE_YEAR: i32 = 2024;

/// The leap-year rule of the Gregorian calendar.
pub open spec fn is_gregorian_leap(year: int) -> bool {
    (year % 4 == 0 && year % 100 != 0) || year % 400 == 0
}

/// The number of days of a year.
pub open spec fn days_in_year(year: int) -> int {
    if is_gregorian_leap(year) {
        366
    } else {
        365
    }
}

/// The number of days of a month, for `1 <= month <= 12`.
pub open spec fn days_in_month(year: int, month: int) -> int {
    if month == 2 {
        if is_gregorian_leap(year) {
            29
        } else {
            28
        }
    } else if month == 4 || month == 6 || month == 9 || month == 11 {
        30
    } else {
        31
    }
}

/// The number of days of the year that lie before the first of `month`.
pub open spec fn days_before_month(year: int, month: int) -> int
    decreases month,
{
    if month <= 1 {
        0
    } else {
        days_before_month(year, month - 1) + days_in_month(year, month - 1)
    }
}

/// Whether the calendar has this day, in the years that `chrono` covers.
pub open spec fn date_exists(year: int, month: int, day: int) -> bool {
    &&& MIN_YEAR <= year <= MAX_YEAR
    &&& 1 <= month <= 12
    &&& 1 <= day <= days_in_month(year, month)
}

/// The place of a day in its year, counted from 1.
pub open spec fn day_of_year(year: int, month: int, day: int) -> int {
    days_before_month(year, month) + day
}

/// Whether a month and a day name a day of the reference year.
pub open spec fn month_day_exists(month: int, day: int) -> bool {
    date_exists(REFERENCE_YEAR as int, month, day)
}

/// The days of the calendar that lie before 1 January of `year`, counted
/// from 1 January of the year 1, which is a Monday.
pub open spec fn days_before_year(year: int) -> int {
    365 * (year - 1) + (year - 1) / 4 - (year - 1) / 100 + (year - 1) / 400
}

/// The day of the week of a day, from 0 for Monday to 6 for Sunday.
pub open spec fn weekday_index(year: int, month: int, day: int) -> int {
    (days_before_year(year) + day_of_year(year, month, day) - 1) % 7
}

/// The place in `year` of the Thursday of the week, Monday to Sunday, in
/// which a day lies. It is below 1 where that Thursday falls in the year
/// before, and above the length of the year where it falls in the year
/// after.
pub open spec fn thursday_of_week(year: int, month: int, day: int) -> int {
    day_of_year(year, month, day) - weekday_index(year, month, day) + 3
}

/// The ISO 8601 week of a day. Weeks start on Monday, and week 1 of a year
/// is the week with its first Thursday: so a week belongs to the year of
/// its Thursday, and its number is the count of that year's Thursdays up
/// to its own.
pub open spec fn iso_week(year: int, month: int, day: int) -> int {
    let thursday = thursday_of_week(year, month, day);
    if thursday < 1 {
        (thursday + days_in_year(year - 1) - 1) / 7 + 1
    } else if thursday > days_in_year(year) {
        1
    } else {
        (thursday - 1) / 7 + 1
    }
}

/// Asks `chrono::NaiveDate::from_ymd_opt` whether it finds a date. Its
/// documentation has it return `None` where the day does not exist, where
/// the month or the day is invalid, and where the year is out of range: the
/// contract says the same through `date_exists`.
#[verifier::external_body]
pub(crate) fn date_is_constructible(year: i32, month: u32, day: u32) -> (r: bool)
    ensures
        r == date_exists(year as int, month as int, day as int),
{
    NaiveDate::from_ymd_opt(year, month, day).is_some()
}

/// `chrono::Datelike::ordinal` of an existing date: the day of the year,
/// starting from 1.
#[verifier::external_body]
pub(crate) fn ordinal_of(year: i32, month: u32, day: u32) -> (r: u32)
    requires
        date_exists(year as int, month as int, day as int),
    ensures
        r == day_of_year(year as int, month as int, day as int),
{
    NaiveDate::from_ymd_opt(year, month, day).unwrap().ordinal()
}

/// `chrono::Datelike::iso_week` of an existing date, and of that
/// `chrono::IsoWeek::week`: the number of the ISO 8601 week in which the
/// date lies.
#[verifier::external_body]
pub(crate) fn iso_week_of(year: i32, month: u32, day: u32) -> (r: u32)
    requires
        date_exists(year as int, month as int, day as int),
    ensures
        r == iso_week(year as int, month as int, day as int),
{
    NaiveDate::from_ymd_opt(year, month, day).unwrap().iso_week().week()
}

/// Whether 29 February exists in `year`. Within the years that `chrono`
/// covers this is the Gregorian rule; outside them no date exists.
pub fn is_leap_year(year: i32) -> (r: bool)
    ensures
        r == (MIN_YEAR <= year <= MAX_YEAR && is_gregorian_leap(year as int)),
{
    date_is_constructible(year, 2, 29)
}

/// Whether the calendar has the day `year`-`month`-`day`.
pub fn is_valid_date(year: i32, month: u32, day: u32) -> (r: bool)
    ensures
        r == date_exists(year as int, month as int, day as int),
{
    date_is_constructible(year, month, day)
}

/// Whether `month` and `day` name a day of the reference year.
pub fn is_valid_month_day(month: u32, day: u32) -> (r: bool)
    ensures
        r == month_day_exists(month as int, day as int),
{
    date_is_constructible(REFERENCE_YEAR, month, day)
}

/// The day of the year of an existing date, counted from 1; `None` where
/// the calendar has no such day.
pub fn ordinal(year: i32, month: u32, day: u32) -> (r: Option<u32>)
    ensures
        r == if date_exists(year as int, month as int, day as int) {
            Some(day_of_year(year as int, month as int, day as int) as u32)
        } else {
            None
        },
{
    if date_is_constructible(year, month, day) {
        Some(ordinal_of(year, month, day))
    } else {
        None
    }
}

/// A year is a leap year exactly if it has a 29 February.
pub proof fn lemma_leap_iff_february_29(year: int)
    requires
        MIN_YEAR <= year <= MAX_YEAR,
    ensures
        is_gregorian_leap(year) <==> date_exists(year, 2, 29),
{
}

/// A year is a leap year exactly if its 31 December is day 366.
pub proof fn lemma_leap_iff_december_31_is_366(year: int)
    ensures
        is_gregorian_leap(year) <==> day_of_year(year, 12, 31) == 366,
        day_of_year(year, 12, 31) == days_in_year(year),
{
    reveal_with_fuel(days_before_month, 13);
}

/// The day of the year lies between 1 and the length of the year.
pub proof fn lemma_day_of_year_bounds(year: int, month: int, day: int)
    requires
        1 <= month <= 12,
        1 <= day <= days_in_month(year, month),
    ensures
        1 <= day_of_year(year, month, day) <= days_in_year(year),
        day_of_year(year, month, day) == days_in_year(year) <==> (month == 12 && day == 31),
{
    reveal_with_fuel(days_before_month, 13);
}

/// The ISO 8601 week of a day lies between 1 and 53.
pub proof fn lemma_iso_week_bounds(year: int, month: int, day: int)
    requires
        1 <= month <= 12,
        1 <= day <= days_in_month(year, month),
    ensures
        1 <= iso_week(year, month, day) <= 53,
{
    lemma_day_of_year_bounds(year, month, day);
}

/// A month and a day of the calendar, as mathematical integers.
pub struct MonthDayView {
    pub month: int,
    pub day: int,
}

/// A month and a day that name a day of the reference year.
#[derive(Clone, Copy, Debug)]
pub struct MonthDay {
    month: u32,
    day: u32,
}

impl View for MonthDay {
    type V = MonthDayView;

    closed spec fn view(&self) -> MonthDayView {
        MonthDayView { month: self.month as int, day: self.day as int }
    }
}

/// The English name of a month, for `1 <= month <= 12`.
pub open spec fn month_name_text(month: int) -> Seq<char> {
    if month == 1 {
        "January"@
    } else if month == 2 {
        "February"@
    } else if month == 3 {
        "March"@
    } else if month == 4 {
        "April"@
    } else if month == 5 {
        "May"@
    } else if month == 6 {
        "June"@
    } else if month == 7 {
        "July"@
    } else if month == 8 {
        "August"@
    } else if month == 9 {
        "September"@
    } else if month == 10 {
        "October"@
    } else if month == 11 {
        "November"@
    } else {
        "December"@
    }
}

/// The heading under which a day is shown: the name of the month, one
/// space, and the day of the month without padding.
pub open spec fn header_date_text(md: MonthDayView) -> Seq<char> {
    month_name_text(md.month) + seq![' '] + decimal(md.day as nat)
}

impl MonthDay {
    /// Every value names a day of the reference year.
    #[verifier::type_invariant]
    pub open spec fn is_valid(self) -> bool {
        month_day_exists(self@.month, self@.day)
    }

    /// The pair `month`, `day`, where the reference year has that day.
    pub fn new(month: u32, day: u32) -> (r: Option<MonthDay>)
        ensures
            r is Some <==> month_day_exists(month as int, day as int),
            r matches Some(md) ==> md@ == (MonthDayView { month: month as int, day: day as int }),
    {
        if is_valid_month_day(month, day) {
            Some(MonthDay { month, day })
        } else {
            None
        }
    }

    /// The month, from 1 to 12.
    pub fn month(&self) -> (r: u32)
        ensures
            r == self@.month,
            1 <= r <= 12,
    {
        proof {
            use_type_invariant(self);
        }
        self.month
    }

    /// The day of the month, from 1 to 31.
    pub fn day(&self) -> (r: u32)
        ensures
            r == self@.day,
            1 <= r <= days_in_month(REFERENCE_YEAR as int, self@.month),
    {
        proof {
            use_type_invariant(self);
        }
        self.day
    }

    /// The English name of the month.
    pub fn month_name(&self) -> (r: &'static str)
        ensures
            r@ == month_name_text(self@.month),
    {
        match self.month {
            1 => "January",
            2 => "February",
            3 => "March",
            4 => "April",
            5 => "May",
            6 => "June",
            7 => "July",
            8 => "August",
            9 => "September",
            10 => "October",
            11 => "November",
            _ => "December",
        }
    }

    /// The heading under which the day is shown, such as `March 15` or
    /// `July 4`.
    pub fn header_date(&self) -> (r: String)
        ensures
            r@ == header_date_text(self@),
    {
        let mut out = String::from_str(self.month_name());
        out.push(' ');
        push_decimal(&mut out, self.day as u64);
        out
    }
}

} // verus!
