//! What the user asks of the history lookup, and the day that it means.

use vstd::prelude::*;
use vstd::string::*;

use crate::cache::{CacheKey, CacheKeyView};
use crate::calendar::{month_day_exists, MonthDay, MonthDayView};
use crate::error::{HistoryError, HistoryErrorView};
use crate::history::Category;
use crate::language::{folded, is_folded_lang_code, is_lang_code, parse_lang_code};
use crate::text::{padded2, push_padded2};

verus! {

/// The value that stands where one may be given: the given one, or else
/// that of today.
pub open spec fn given_or_today(given: Option<u32>, today: u32) -> int {
    match given {
        Some(value) => value as int,
        None => today as int,
    }
}

/// The day that is looked up. A month or a day that is given is taken, each
/// by itself; what is not given is that of today. The pair must name a day
/// of the reference year, in which 29 February exists, and is rejected as
/// an `InvalidDate` otherwise.
pub fn resolve_date(month: Option<u32>, day: Option<u32>, today_month: u32, today_day: u32) -> (r:
    Result<MonthDay, HistoryError>)
    ensures
        r is Ok <==> month_day_exists(
            given_or_today(month, today_month),
            given_or_today(day, today_day),
        ),
        r matches Ok(date) ==> date@ == (MonthDayView {
            month: given_or_today(month, today_month),
            day: given_or_today(day, today_day),
        }),
        r matches Err(error) ==> error@ == (HistoryErrorView::InvalidDate {
            month: given_or_today(month, today_month),
            day: given_or_today(day, today_day),
        }),
{
    let month = match month {
        Some(value) => value,
        None => today_month,
    };
    let day = match day {
        Some(value) => value,
        None => today_day,
    };
    match MonthDay::new(month, day) {
        Some(date) => Ok(date),
        None => Err(HistoryError::InvalidDate { month, day }),
    }
}

/// A request for the history of a day, as the user states it.
#[derive(Debug)]
pub struct HistoryQuery {
    category: Category,
    language: String,
    month: Option<u32>,
    day: Option<u32>,
}

/// A `HistoryQuery` as mathematical values.
pub struct HistoryQueryView {
    pub category: Category,
    pub language: Seq<char>,
    pub month: Option<u32>,
    pub day: Option<u32>,
}

impl View for HistoryQuery {
    type V = HistoryQueryView;

    closed spec fn view(&self) -> HistoryQueryView {
        HistoryQueryView {
            category: self.category,
            language: self.language@,
            month: self.month,
            day: self.day,
        }
    }
}

/// Whether a month and a day, where both are given, name a day of the
/// reference year.
pub open spec fn given_date_exists(month: Option<u32>, day: Option<u32>) -> bool {
    month is Some && day is Some ==> month_day_exists(month->0 as int, day->0 as int)
}

impl HistoryQuery {
    /// The language is two lowercase ASCII letters, and a month and a day
    /// that are both given name a day of the reference year.
    #[verifier::type_invariant]
    pub open spec fn is_valid(self) -> bool {
        &&& is_folded_lang_code(self@.language)
        &&& given_date_exists(self@.month, self@.day)
    }

    /// The query for a category in a language, with the month and the day
    /// where the user gives them. The language is checked first and kept in
    /// lowercase; then the date, where both parts are given.
    pub fn new(category: Category, language: &str, month: Option<u32>, day: Option<u32>) -> (r:
        Result<HistoryQuery, HistoryError>)
        ensures
            r is Ok <==> is_lang_code(language@) && given_date_exists(month, day),
            r matches Ok(query) ==> query@ == (HistoryQueryView {
                category,
                language: folded(language@),
                month,
                day,
            }),
            r matches Err(error) ==> error@ == if !is_lang_code(language@) {
                HistoryErrorView::InvalidLanguageCode(language@)
            } else {
                HistoryErrorView::InvalidDate { month: month->0 as int, day: day->0 as int }
            },
    {
        let code = match parse_lang_code(language) {
            Ok(code) => code,
            Err(_) => {
                return Err(HistoryError::InvalidLanguageCode(String::from_str(language)));
            },
        };
        match (month, day) {
            (Some(m), Some(d)) => {
                if MonthDay::new(m, d).is_none() {
                    return Err(HistoryError::InvalidDate { month: m, day: d });
                }
            },
            _ => {},
        }
        Ok(HistoryQuery { category, language: code, month, day })
    }

    /// The category that is asked for.
    pub fn category(&self) -> (r: Category)
        ensures
            r == self@.category,
    {
        self.category
    }

    /// The language, in lowercase.
    pub fn language(&self) -> (r: &str)
        ensures
            r@ == self@.language,
            is_folded_lang_code(r@),
    {
        proof {
            use_type_invariant(self);
        }
        self.language.as_str()
    }

    /// The month, where the user gave one.
    pub fn month(&self) -> (r: Option<u32>)
        ensures
            r == self@.month,
    {
        self.month
    }

    /// The day of the month, where the user gave one.
    pub fn day(&self) -> (r: Option<u32>)
        ensures
            r == self@.day,
    {
        self.day
    }

    /// The day that the query means on a day whose month and day of the
    /// month are `today_month` and `today_day`.
    pub fn resolve_date(&self, today_month: u32, today_day: u32) -> (r: Result<
        MonthDay,
        HistoryError,
    >)
        ensures
            r is Ok <==> month_day_exists(
                given_or_today(self@.month, today_month),
                given_or_today(self@.day, today_day),
            ),
            r matches Ok(date) ==> date@ == (MonthDayView {
                month: given_or_today(self@.month, today_month),
                day: given_or_today(self@.day, today_day),
            }),
            r matches Err(error) ==> error@ == (HistoryErrorView::InvalidDate {
                month: given_or_today(self@.month, today_month),
                day: given_or_today(self@.day, today_day),
            }),
    {
        resolve_date(self.month, self.day, today_month, today_day)
    }

    /// The key under which the lookup of `date` for this query is kept.
    pub fn cache_key(&self, date: &MonthDay) -> (r: CacheKey)
        ensures
            r@ == (CacheKeyView {
                language: self@.language,
                category: self@.category,
                month: date@.month,
                day: date@.day,
            }),
    {
        CacheKey {
            language: self.language.clone(),
            category: self.category,
            month: date.month(),
            day: date.day(),
        }
    }
}

/// What is shown while the lookup under `key` runs.
pub open spec fn progress_text(key: CacheKeyView) -> Seq<char> {
    "Fetching "@ + key.category.name_text() + " for "@ + padded2(key.month as nat, '0') + seq!['-']
        + padded2(key.day as nat, '0') + " ("@ + key.language + ")"@
}

/// What is shown while the lookup under `key` runs: the category, the month
/// and the day in two digits each, and the language.
pub fn progress_message(key: &CacheKey) -> (r: String)
    ensures
        r@ == progress_text(key@),
{
    let mut out = String::from_str("Fetching ");
    out.append(key.category.name());
    out.append(" for ");
    push_padded2(&mut out, key.month as u64, '0');
    out.push('-');
    push_padded2(&mut out, key.day as u64, '0');
    out.append(" (");
    out.append(key.language.as_str());
    out.append(")");
    assert(out@ =~= progress_text(key@));
    out
}

} // verus!
