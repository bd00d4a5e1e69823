//! Calendar dates and the ISO weeks they fall in.
//!
//! The calendar itself is chrono's. A date is kept as the number of its day,
//! counted in the proleptic Gregorian calendar with 1 January of the year 1 as
//! day 1, so that stepping through a year week by week is plain arithmetic.

use crate::cohort::YearWeek;
use chrono::Datelike;
use vstd::prelude::*;

verus! {

/// chrono's error for a text that is no date.
#[verifier::external_type_specification]
#[verifier::external_body]
pub struct ExParseError(chrono::ParseError);

/// The day number that chrono gives to a calendar date, `None` where the
/// calendar has no such date or chrono cannot hold it.
pub uninterp spec fn calendar_day_number(year: int, month: int, day: int) -> Option<int>;

/// The ISO year and ISO week in which chrono places the day with a given
/// number, `None` where chrono cannot hold that day.
pub uninterp spec fn iso_week_of_day(day_number: int) -> Option<(int, int)>;

/// The day number of the date that chrono reads out of `text` under the
/// strftime pattern `format`, `None` where it reads none.
pub uninterp spec fn parsed_day_number(text: Seq<char>, format: Seq<char>) -> Option<int>;

/// `chrono::NaiveDate::from_ymd_opt`, followed by `Datelike::num_days_from_ce`
/// on the date it found. Nothing is claimed beyond the result being a fixed
/// function of the three numbers.
#[verifier::external_body]
fn day_number_from_ymd(year: i32, month: u32, day: u32) -> (number: Option<i32>)
    ensures
        calendar_day_number(year as int, month as int, day as int) == match number {
            Some(n) => Some(n as int),
            None => None,
        },
{
    chrono::NaiveDate::from_ymd_opt(year, month, day).map(|date| date.num_days_from_ce())
}

/// `chrono::NaiveDate::from_num_days_from_ce_opt`, followed by
/// `Datelike::iso_week` and the year and week of what it returns. Claimed: the
/// pair is a fixed function of the day number.
#[verifier::external_body]
fn iso_week_from_day_number(day_number: i32) -> (found: Option<(i32, u32)>)
    ensures
        iso_week_of_day(day_number as int) == match found {
            Some((year, week)) => Some((year as int, week as int)),
            None => None,
        },
{
    chrono::NaiveDate::from_num_days_from_ce_opt(day_number).map(
        |date|
            {
                let week = date.iso_week();
                (week.year(), week.week())
            },
    )
}

/// `chrono::NaiveDate::parse_from_str`, followed by
/// `Datelike::num_days_from_ce` on the date it read. Claimed: whether a date
/// is read, and which, is a fixed function of the two strings.
#[verifier::external_body]
fn day_number_from_text(text: &str, format: &str) -> (number: Result<i32, chrono::ParseError>)
    ensures
        parsed_day_number(text@, format@) == match number {
            Ok(n) => Some(n as int),
            Err(_) => None,
        },
{
    chrono::NaiveDate::parse_from_str(text, format).map(|date| date.num_days_from_ce())
}

/// The week that an ISO year and week number name. A year before the year
/// zero is kept as the two's complement of its number.
pub open spec fn year_week_from_iso(year: int, week: int) -> YearWeek {
    YearWeek { year: (year as i32) as u32, week: week as u32 }
}

/// The ISO week into which a day falls, by its number.
pub open spec fn year_week_of_day(day_number: int) -> Option<YearWeek> {
    match iso_week_of_day(day_number) {
        Some((year, week)) => Some(year_week_from_iso(year, week)),
        None => None,
    }
}

/// A calendar date.
#[derive(Debug, PartialEq, Eq, Structural, Hash, Clone, Copy)]
pub struct Date {
    /// The day's number, 1 January of the year 1 being day 1.
    pub days_from_ce: i32,
}

/// What went wrong when a date was read.
#[derive(Debug, PartialEq, Eq, Structural, Clone, Copy)]
pub enum DateError {
    /// The text is no date in the form year-month-day.
    BadDate,
}

impl Date {
    /// The ISO week that the date falls in, if chrono's calendar reaches it.
    pub open spec fn spec_year_week(self) -> Option<YearWeek> {
        year_week_of_day(self.days_from_ce as int)
    }

    /// The date of a day given by year, month and day of the month.
    pub fn from_ymd(year: i32, month: u32, day: u32) -> (date: Option<Date>)
        ensures
            date matches Some(d) ==> calendar_day_number(year as int, month as int, day as int)
                == Some(d.days_from_ce as int),
            date is None <==> calendar_day_number(year as int, month as int, day as int) is None,
    {
        match day_number_from_ymd(year, month, day) {
            Some(days_from_ce) => Some(Date { days_from_ce }),
            None => None,
        }
    }

    /// The ISO week that the date falls in.
    pub fn year_week(&self) -> (week: Option<YearWeek>)
        ensures
            week == self.spec_year_week(),
    {
        match iso_week_from_day_number(self.days_from_ce) {
            Some((year, week)) => Some(YearWeek::from_iso(year, week)),
            None => None,
        }
    }
}

impl YearWeek {
    /// The week that chrono's ISO year and week number name.
    pub fn from_iso(year: i32, week: u32) -> (year_week: YearWeek)
        ensures
            year_week == year_week_from_iso(year as int, week as int),
    {
        YearWeek { year: #[verifier::truncate] (year as u32), week }
    }
}

/// Reads a date written as year-month-day, such as `2021-03-01`.
pub fn deserialize_date(text: &str) -> (date: Result<Date, DateError>)
    ensures
        date matches Ok(d) ==> parsed_day_number(text@, "%Y-%m-%d"@) == Some(
            d.days_from_ce as int,
        ),
        date is Err <==> parsed_day_number(text@, "%Y-%m-%d"@) is None,
        date is Err ==> date == Err::<Date, DateError>(DateError::BadDate),
{
    match day_number_from_text(text, "%Y-%m-%d") {
        Ok(days_from_ce) => Ok(Date { days_from_ce }),
        Err(_) => Err(DateError::BadDate),
    }
}

/// The ISO weeks of the days `first`, `first + 7`, `first + 14` and so on, at
/// most `count` of them. The walk ends early at the first day that has no
/// week, or whose successor a week later has none.
pub open spec fn weekly_steps(first: int, count: nat) -> Seq<YearWeek>
    decreases count,
{
    if count == 0 || first + 7 > i32::MAX {
        Seq::empty()
    } else {
        match (year_week_of_day(first), year_week_of_day(first + 7)) {
            (Some(week), Some(_)) => seq![week] + weekly_steps(first + 7, (count - 1) as nat),
            _ => Seq::empty(),
        }
    }
}

/// The ISO weeks of the days `first`, `first + 7`, `first + 14` and so on, up
/// to the first of them that comes after `last`. The walk also ends at the
/// first day that has no week, or whose successor a week later has none.
pub open spec fn weekly_steps_until(first: int, last: YearWeek) -> Seq<YearWeek>
    decreases i32::MAX - first,
{
    if first + 7 > i32::MAX {
        Seq::empty()
    } else {
        match (year_week_of_day(first), year_week_of_day(first + 7)) {
            (Some(week), Some(_)) => if week.not_after(last) {
                seq![week] + weekly_steps_until(first + 7, last)
            } else {
                Seq::empty()
            },
            _ => Seq::empty(),
        }
    }
}

/// The week that a walk through the weeks lists for a day, given the ISO year
/// and week that the calendar found for it and for the day a week later: the
/// week of the day, where both days have one.
pub open spec fn spec_week_of_step(found: Option<(int, int)>, following: Option<(int, int)>) -> Option<
    YearWeek,
> {
    match (found, following) {
        (Some((year, week)), Some(_)) => Some(year_week_from_iso(year, week)),
        _ => None,
    }
}

/// The week that a walk through the weeks lists for a day, given the ISO year
/// and week found for it and for the day a week later.
pub fn week_of_step(found: Option<(i32, u32)>, following: Option<(i32, u32)>) -> (week: Option<
    YearWeek,
>)
    ensures
        week == spec_week_of_step(
            match found {
                Some((year, week)) => Some((year as int, week as int)),
                None => None,
            },
            match following {
                Some((year, week)) => Some((year as int, week as int)),
                None => None,
            },
        ),
{
    match (found, following) {
        (Some((year, week)), Some(_)) => Some(YearWeek::from_iso(year, week)),
        _ => None,
    }
}

/// The week of `day`, where the walk through the weeks goes on past it.
fn step_week(day: i32) -> (week: Option<YearWeek>)
    ensures
        week == if day + 7 > i32::MAX {
            None
        } else {
            match (year_week_of_day(day as int), year_week_of_day(day + 7)) {
                (Some(this), Some(_)) => Some(this),
                _ => None,
            }
        },
{
    if day > i32::MAX - 7 {
        return None;
    }
    week_of_step(iso_week_from_day_number(day), iso_week_from_day_number(day + 7))
}

/// The ISO weeks of `count` days a week apart, the first of them `start`.
pub fn weeks_from(start: Date, count: usize) -> (weeks: Vec<YearWeek>)
    ensures
        weeks@ == weekly_steps(start.days_from_ce as int, count as nat),
{
    let mut weeks: Vec<YearWeek> = Vec::new();
    let mut day: i32 = start.days_from_ce;
    let mut left: usize = count;
    while left > 0
        invariant
            weeks@ + weekly_steps(day as int, left as nat) == weekly_steps(
                start.days_from_ce as int,
                count as nat,
            ),
        decreases left,
    {
        match step_week(day) {
            Some(week) => {
                proof {
                    assert(weeks@.push(week) + weekly_steps(day + 7, (left - 1) as nat) =~= weeks@
                        + weekly_steps(day as int, left as nat));
                }
                weeks.push(week);
                day = day + 7;
                left = left - 1;
            },
            None => {
                assert(weeks@ + Seq::<YearWeek>::empty() =~= weeks@);
                return weeks;
            },
        }
    }
    assert(weeks@ + Seq::<YearWeek>::empty() =~= weeks@);
    weeks
}

/// The ISO weeks of the days a week apart from `start` on, as long as they do
/// not come after `last`.
pub fn weeks_from_until(start: Date, last: YearWeek) -> (weeks: Vec<YearWeek>)
    ensures
        weeks@ == weekly_steps_until(start.days_from_ce as int, last),
{
    let mut weeks: Vec<YearWeek> = Vec::new();
    let mut day: i32 = start.days_from_ce;
    loop
        invariant
            weeks@ + weekly_steps_until(day as int, last) == weekly_steps_until(
                start.days_from_ce as int,
                last,
            ),
        decreases i32::MAX - day,
    {
        match step_week(day) {
            Some(week) => {
                if week <= last {
                    proof {
                        assert(weeks@.push(week) + weekly_steps_until(day + 7, last) =~= weeks@
                            + weekly_steps_until(day as int, last));
                    }
                    weeks.push(week);
                    day = day + 7;
                } else {
                    assert(weeks@ + Seq::<YearWeek>::empty() =~= weeks@);
                    return weeks;
                }
            },
            None => {
                assert(weeks@ + Seq::<YearWeek>::empty() =~= weeks@);
                return weeks;
            },
        }
    }
}

/// The weeks of the reporting year: those of the 51 days a week apart of which
/// 1 January 2021 is the first.
pub fn weeks_of_2021() -> (weeks: Vec<YearWeek>)
    ensures
        weeks@ == match calendar_day_number(2021, 1, 1) {
            Some(first) => weekly_steps(first, 51),
            None => Seq::empty(),
        },
{
    match Date::from_ymd(2021, 1, 1) {
        Some(start) => weeks_from(start, 51),
        None => Vec::new(),
    }
}

/// The weeks from that of 1 January 2021 up to `max`, `max` included.
pub fn weeks(max: YearWeek) -> (weeks: Vec<YearWeek>)
    ensures
        weeks@ == match calendar_day_number(2021, 1, 1) {
            Some(first) => weekly_steps_until(first, max),
            None => Seq::empty(),
        },
{
    match Date::from_ymd(2021, 1, 1) {
        Some(start) => weeks_from_until(start, max),
        None => Vec::new(),
    }
}

} // verus!
