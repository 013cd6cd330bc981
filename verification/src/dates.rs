use vstd::prelude::*;

use crate::status::{refused, ApiError, Status};

verus! {

/// The day number (counted from 1 January of year 1, which is day 1, as
/// `chrono::NaiveDate::num_days_from_ce` counts) of the earliest date that a
/// date can be: 1 January 262143 BCE.
pub open spec fn min_day() -> int {
    -95746129
}

/// The day number of the latest date that a date can be: 31 December 262142.
pub open spec fn max_day() -> int {
    95745399
}

/// A calendar date, held as its day number.
#[derive(Debug, Clone, Copy, PartialEq, Eq, Structural)]
pub struct Date {
    pub days_from_ce: i32,
}

impl Date {
    /// The day number lies within the calendar's range.
    pub open spec fn in_range(self) -> bool {
        min_day() <= self.days_from_ce <= max_day()
    }

    /// The date with day number `days`, where the calendar reaches it.
    pub fn from_days(days: i32) -> (r: Option<Date>)
        ensures
            (min_day() <= days <= max_day()) ==> r == Some(Date { days_from_ce: days }),
            !(min_day() <= days <= max_day()) ==> r is None,
    {
        if -95746129 <= days && days <= 95745399 {
            Some(Date { days_from_ce: days })
        } else {
            None
        }
    }

    /// The date `n` days later (earlier where `n` is negative).  The result
    /// must lie within the calendar, else date arithmetic would overflow.
    pub fn plus_days(self, n: i32) -> (r: Date)
        requires
            min_day() <= self.days_from_ce + n <= max_day(),
        ensures
            r.days_from_ce == self.days_from_ce + n,
            r.in_range(),
    {
        Date { days_from_ce: self.days_from_ce + n }
    }
}

/// The day number of the date that a text denotes in the form `%Y-%m-%d`, as
/// `chrono::NaiveDate::parse_from_str` reads it, or `None` where it denotes
/// none.
pub uninterp spec fn ymd_text_day(s: Seq<char>) -> Option<i32>;

/// Calls `chrono::NaiveDate::parse_from_str` with the format `%Y-%m-%d` and
/// gives the date's day number.  Claimed: the result is `ymd_text_day` of the
/// text, a function of the text alone, and a date that chrono gives lies in
/// its range (`NaiveDate::MIN` to `NaiveDate::MAX`).
#[verifier::external_body]
fn ymd_date(s: &str) -> (r: Option<i32>)
    ensures
        r == ymd_text_day(s@),
        r matches Some(d) ==> min_day() <= d <= max_day(),
{
    match chrono::NaiveDate::parse_from_str(s, "%Y-%m-%d") {
        Ok(d) => Some(chrono::Datelike::num_days_from_ce(&d)),
        Err(_) => None,
    }
}

/// The date of a request path, given what reading it gave: `400` where the
/// text is no date.
pub fn date_from_parsed(parsed: Option<i32>) -> (r: Result<Date, ApiError>)
    ensures
        parsed matches Some(d) ==> r == Ok::<Date, ApiError>(Date { days_from_ce: d }),
        parsed is None ==> refused(r, Status::BadRequest, "Invalid date format. Use YYYY-MM-DD"@),
{
    match parsed {
        Some(d) => Ok(Date { days_from_ce: d }),
        None => Err(ApiError::new(Status::BadRequest, "Invalid date format. Use YYYY-MM-DD")),
    }
}

/// The date of a request path written `YYYY-MM-DD`: `400` where the text is
/// no date.
pub fn parse_path_date(s: &str) -> (r: Result<Date, ApiError>)
    ensures
        ymd_text_day(s@) matches Some(d) ==> r == Ok::<Date, ApiError>(
            Date { days_from_ce: d },
        ),
        ymd_text_day(s@) is None ==> refused(r, Status::BadRequest, "Invalid date format. Use YYYY-MM-DD"@),
        r matches Ok(d) ==> d.in_range(),
{
    let parsed = ymd_date(s);
    date_from_parsed(parsed)
}

// ---------------------------------------------------------------------------
// Weekly windows
// ---------------------------------------------------------------------------

/// A week of days, both ends included.
#[derive(Debug, Clone, Copy, PartialEq, Eq, Structural)]
pub struct WeekWindow {
    pub start: Date,
    pub end: Date,
}

/// The number of weeks that the weekly overview covers.
pub open spec fn weeks_shown() -> int {
    4
}

/// The last day of the `k`-th week shown (the oldest is `k == 0`): the
/// latest ends on `today`, each other a week before the next.
pub open spec fn week_end_day(today: int, k: int) -> int {
    today - 7 * (weeks_shown() - 1 - k)
}

/// The first day of the `k`-th week shown: six days before its last.
pub open spec fn week_start_day(today: int, k: int) -> int {
    week_end_day(today, k) - 6
}

/// The four weeks of the weekly overview, oldest first, the last ending
/// `today`.  Each earlier day must lie within the calendar.
pub fn weekly_windows(today: Date) -> (r: Vec<WeekWindow>)
    requires
        today.in_range(),
        min_day() <= today.days_from_ce - 27,
    ensures
        r.len() == weeks_shown(),
        forall|k: int|
            0 <= k < weeks_shown() ==> (#[trigger] r@[k]).end.days_from_ce == week_end_day(
                today.days_from_ce as int,
                k,
            ) && r@[k].start.days_from_ce == week_start_day(today.days_from_ce as int, k),
{
    let mut r: Vec<WeekWindow> = Vec::new();
    let mut i: i32 = 3;
    while i >= 0
        invariant
            -1 <= i <= 3,
            today.in_range(),
            min_day() <= today.days_from_ce - 27,
            r.len() == 3 - i,
            forall|k: int|
                0 <= k < 3 - i ==> (#[trigger] r@[k]).end.days_from_ce == week_end_day(
                    today.days_from_ce as int,
                    k,
                ) && r@[k].start.days_from_ce == week_start_day(today.days_from_ce as int, k),
        decreases i + 1,
    {
        let end = today.plus_days(0 - i * 7);
        let start = end.plus_days(-6);
        r.push(WeekWindow { start, end });
        i = i - 1;
    }
    r
}

/// The weeks of the overview tile a run of 28 days: each lasts seven days,
/// each begins the day after the one before it ends, and the latest ends on
/// the day of the overview.
pub proof fn lemma_weekly_windows_tile(today: int)
    ensures
        forall|k: int|
            0 <= k < weeks_shown() ==> #[trigger] week_end_day(today, k) - week_start_day(today, k)
                == 6,
        forall|k: int|
            0 <= k < weeks_shown() - 1 ==> #[trigger] week_start_day(today, k + 1) == week_end_day(
                today,
                k,
            ) + 1,
        week_end_day(today, weeks_shown() - 1) == today,
        week_start_day(today, 0) == today - 27,
{
}

} // verus!
