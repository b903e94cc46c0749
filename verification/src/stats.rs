//! Statistics of a moment: how far the day and the year have gone.

use vstd::prelude::*;

use crate::calendar::{
    date_exists, date_is_constructible, day_of_year, days_in_year, is_gregorian_leap, iso_week,
    iso_week_of, lemma_day_of_year_bounds, lemma_iso_week_bounds, ordinal_of,
};

verus! {

/// The number of seconds of a day.
pub const SECONDS_PER_DAY: u32 = 86_400;

/// A moment as mathematical values: the date and the time of day on the
/// local clock, and the Unix timestamp of the moment in seconds.
pub struct LocalDateTimeView {
    pub year: int,
    pub month: int,
    pub day: int,
    pub hour: int,
    pub minute: int,
    pub second: int,
    pub unix_timestamp: int,
}

/// Whether the date is a day of the calendar and the time a time of day.
pub open spec fn is_local_date_time(now: LocalDateTimeView) -> bool {
    &&& date_exists(now.year, now.month, now.day)
    &&& 0 <= now.hour < 24
    &&& 0 <= now.minute < 60
    &&& 0 <= now.second < 60
}

/// The seconds that have passed since midnight on the local clock.
pub open spec fn seconds_into_day(now: LocalDateTimeView) -> int {
    now.hour * 3600 + now.minute * 60 + now.second
}

/// A moment: a date and a time of day on the local clock, with the Unix
/// timestamp of the moment.
#[derive(Clone, Copy, Debug)]
pub struct LocalDateTime {
    year: i32,
    month: u32,
    day: u32,
    hour: u32,
    minute: u32,
    second: u32,
    unix_timestamp: i64,
}

impl View for LocalDateTime {
    type V = LocalDateTimeView;

    closed spec fn view(&self) -> LocalDateTimeView {
        LocalDateTimeView {
            year: self.year as int,
            month: self.month as int,
            day: self.day as int,
            hour: self.hour as int,
            minute: self.minute as int,
            second: self.second as int,
            unix_timestamp: self.unix_timestamp as int,
        }
    }
}

impl LocalDateTime {
    /// The date is a day of the calendar and the time a time of day.
    #[verifier::type_invariant]
    pub open spec fn is_valid(self) -> bool {
        is_local_date_time(self@)
    }

    /// The moment with these parts; `None` where the calendar has no such
    /// day or the day no such time.
    pub fn new(
        year: i32,
        month: u32,
        day: u32,
        hour: u32,
        minute: u32,
        second: u32,
        unix_timestamp: i64,
    ) -> (r: Option<LocalDateTime>)
        ensures
            r is Some <==> is_local_date_time(
                LocalDateTimeView {
                    year: year as int,
                    month: month as int,
                    day: day as int,
                    hour: hour as int,
                    minute: minute as int,
                    second: second as int,
                    unix_timestamp: unix_timestamp as int,
                },
            ),
            r matches Some(now) ==> now@ == (LocalDateTimeView {
                year: year as int,
                month: month as int,
                day: day as int,
                hour: hour as int,
                minute: minute as int,
                second: second as int,
                unix_timestamp: unix_timestamp as int,
            }),
    {
        if date_is_constructible(year, month, day) && hour < 24 && minute < 60 && second < 60 {
            Some(LocalDateTime { year, month, day, hour, minute, second, unix_timestamp })
        } else {
            None
        }
    }
}

/// A part of a whole, both counted in the same unit: `elapsed` of `total`.
pub struct ProgressView {
    pub elapsed: int,
    pub total: int,
}

impl ProgressView {
    /// Whether the part, as a percentage of the whole, is at least `bound`.
    pub open spec fn percent_at_least(self, bound: int) -> bool {
        100 * self.elapsed >= bound * self.total
    }

    /// Whether the part, as a percentage of the whole, is at most `bound`.
    pub open spec fn percent_at_most(self, bound: int) -> bool {
        100 * self.elapsed <= bound * self.total
    }

    /// Whether the part, as a percentage of the whole, is below `bound`.
    pub open spec fn percent_below(self, bound: int) -> bool {
        100 * self.elapsed < bound * self.total
    }

    /// The cells of a bar of `width` cells that stand for the part: the
    /// share `elapsed / total` of `width`, rounded to the nearest whole
    /// number, a half upwards.
    pub open spec fn filled_cells(self, width: int) -> int {
        (2 * self.elapsed * width + self.total) / (2 * self.total)
    }
}

/// How far something has gone: a part of a whole that is not empty. The
/// share is kept exactly; no rounding occurs before it is shown.
#[derive(Clone, Copy, Debug)]
pub struct Progress {
    elapsed: u32,
    total: u32,
}

impl View for Progress {
    type V = ProgressView;

    closed spec fn view(&self) -> ProgressView {
        ProgressView { elapsed: self.elapsed as int, total: self.total as int }
    }
}

impl Progress {
    /// The whole is not empty and the part is no larger than the whole.
    #[verifier::type_invariant]
    pub open spec fn is_valid(self) -> bool {
        0 <= self@.elapsed <= self@.total && 0 < self@.total
    }

    /// `elapsed` of `total`; `None` where `total` is 0 or less than
    /// `elapsed`.
    pub fn new(elapsed: u32, total: u32) -> (r: Option<Progress>)
        ensures
            r is Some <==> elapsed <= total && 0 < total,
            r matches Some(p) ==> p@ == (ProgressView {
                elapsed: elapsed as int,
                total: total as int,
            }),
    {
        if elapsed <= total && 0 < total {
            Some(Progress { elapsed, total })
        } else {
            None
        }
    }

    /// The part.
    pub fn elapsed(&self) -> (r: u32)
        ensures
            r == self@.elapsed,
            r <= self@.total,
    {
        proof {
            use_type_invariant(self);
        }
        self.elapsed
    }

    /// The whole.
    pub fn total(&self) -> (r: u32)
        ensures
            r == self@.total,
            r > 0,
    {
        proof {
            use_type_invariant(self);
        }
        self.total
    }

    /// The cells of a bar of `width` cells: those that stand for the part,
    /// and those that are left.
    pub fn bar_cells(&self, width: u32) -> (r: (u32, u32))
        ensures
            r.0 == self@.filled_cells(width as int),
            r.0 + r.1 == width,
    {
        proof {
            use_type_invariant(self);
        }
        let elapsed = self.elapsed as u128;
        let total = self.total as u128;
        let cells = width as u128;
        assert(elapsed * cells <= total * cells) by (nonlinear_arith)
            requires
                elapsed <= total,
                0 <= cells,
        ;
        assert(total * cells <= 0x1_0000_0000 * 0x1_0000_0000) by (nonlinear_arith)
            requires
                0 <= total < 0x1_0000_0000,
                0 <= cells < 0x1_0000_0000,
        ;
        let part = elapsed * cells;
        let filled = (2 * part + total) / (2 * total);
        assert(filled <= cells) by (nonlinear_arith)
            requires
                filled == (2 * part + total) / (2 * total),
                part <= total * cells,
                0 < total,
                0 <= part,
        ;
        assert(2 * (elapsed * cells) == 2 * elapsed * cells) by (nonlinear_arith);
        let filled = filled as u32;
        (filled, width - filled)
    }
}

/// The statistics of a moment.
#[derive(Clone, Copy, Debug)]
#[must_use]
pub struct TimeStats {
    /// The day of the year, from 1.
    pub day_of_year: u32,
    /// The number of days of the year: 365 or 366.
    pub total_days_in_year: u32,
    /// The seconds since local midnight, of the seconds of a day.
    pub day_progress: Progress,
    /// The day of the year, of the days of the year.
    pub year_progress: Progress,
    /// The ISO 8601 week of the year.
    pub week_of_year: u32,
    /// Whether the year is a leap year.
    pub is_leap: bool,
    /// The Unix timestamp, in seconds.
    pub unix_timestamp: i64,
}

/// Whether `stats` are the statistics of the moment `now`, given the ISO
/// week in which it lies.
pub open spec fn is_statistics_of(stats: TimeStats, now: LocalDateTimeView, week: int) -> bool {
    &&& stats.is_leap == is_gregorian_leap(now.year)
    &&& stats.total_days_in_year == days_in_year(now.year)
    &&& stats.day_of_year == day_of_year(now.year, now.month, now.day)
    &&& stats.day_progress@ == (ProgressView {
        elapsed: seconds_into_day(now),
        total: SECONDS_PER_DAY as int,
    })
    &&& stats.year_progress@ == (ProgressView {
        elapsed: day_of_year(now.year, now.month, now.day),
        total: days_in_year(now.year),
    })
    &&& stats.week_of_year == week
    &&& stats.unix_timestamp == now.unix_timestamp
}

/// The statistics of the moment `now`, which lies in the ISO week
/// `week_of_year`.
pub fn statistics_in_week(now: &LocalDateTime, week_of_year: u32) -> (r: TimeStats)
    ensures
        is_statistics_of(r, now@, week_of_year as int),
{
    proof {
        use_type_invariant(now);
        lemma_day_of_year_bounds(now@.year, now@.month, now@.day);
    }
    let is_leap = date_is_constructible(now.year, 2, 29);
    let seconds_into_day = now.hour * 3600 + now.minute * 60 + now.second;
    let day_of_year = ordinal_of(now.year, now.month, now.day);
    let total_days_in_year: u32 = if is_leap {
        366
    } else {
        365
    };
    TimeStats {
        day_of_year,
        total_days_in_year,
        day_progress: Progress { elapsed: seconds_into_day, total: SECONDS_PER_DAY },
        year_progress: Progress { elapsed: day_of_year, total: total_days_in_year },
        week_of_year,
        is_leap,
        unix_timestamp: now.unix_timestamp,
    }
}

/// The statistics of the moment `now`: the day of the year and the length
/// of the year, how far the day and the year have gone, the ISO week,
/// whether the year is a leap year, and the Unix timestamp.
pub fn compute_time_statistics(now: &LocalDateTime) -> (r: TimeStats)
    ensures
        is_statistics_of(r, now@, iso_week(now@.year, now@.month, now@.day)),
        1 <= r.week_of_year <= 53,
{
    proof {
        use_type_invariant(now);
        lemma_iso_week_bounds(now@.year, now@.month, now@.day);
    }
    let week_of_year = iso_week_of(now.year, now.month, now.day);
    statistics_in_week(now, week_of_year)
}

/// The share of the day that has passed is at least 0 % and below 100 %,
/// at 23:59:59 too. It is 0 % at midnight and at no other time.
pub proof fn lemma_day_progress_range(stats: TimeStats, now: LocalDateTimeView, week: int)
    requires
        is_local_date_time(now),
        is_statistics_of(stats, now, week),
    ensures
        stats.day_progress@.percent_at_least(0),
        stats.day_progress@.percent_below(100),
        stats.day_progress@.percent_at_most(0) <==> (now.hour == 0 && now.minute == 0 && now.second
            == 0),
{
}

/// The share of the year that has passed is above 0 % and at most 100 %.
/// It is 100 % on 31 December and below 100 % on every other day.
pub proof fn lemma_year_progress_range(stats: TimeStats, now: LocalDateTimeView, week: int)
    requires
        is_local_date_time(now),
        is_statistics_of(stats, now, week),
    ensures
        !stats.year_progress@.percent_at_most(0),
        stats.year_progress@.percent_at_most(100),
        stats.year_progress@.percent_below(100) <==> !(now.month == 12 && now.day == 31),
{
    lemma_day_of_year_bounds(now.year, now.month, now.day);
}

/// The statistics call a year a leap year exactly if the Gregorian rule
/// does, and give it 366 days exactly then.
pub proof fn lemma_leap_flag(stats: TimeStats, now: LocalDateTimeView, week: int)
    requires
        is_local_date_time(now),
        is_statistics_of(stats, now, week),
    ensures
        stats.is_leap <==> (now.year % 4 == 0 && now.year % 100 != 0) || now.year % 400 == 0,
        stats.is_leap <==> stats.total_days_in_year == 366,
        !stats.is_leap <==> stats.total_days_in_year == 365,
        1 <= stats.day_of_year <= stats.total_days_in_year,
{
    lemma_day_of_year_bounds(now.year, now.month, now.day);
}

} // verus!
