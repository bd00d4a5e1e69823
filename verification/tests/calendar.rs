use vaxstats::calendar::{
    deserialize_date, week_of_step, weeks, weeks_from, weeks_from_until, weeks_of_2021, Date,
    DateError,
};
use vaxstats::cohort::YearWeek;

fn week(year: u32, week: u32) -> YearWeek {
    YearWeek { year, week }
}

#[test]
fn first_of_january_2021_is_in_the_last_week_of_2020() {
    let date = Date::from_ymd(2021, 1, 1).unwrap();
    assert_eq!(date.year_week(), Some(week(2020, 53)));
}

#[test]
fn first_monday_of_2021_opens_week_one() {
    let date = Date::from_ymd(2021, 1, 4).unwrap();
    assert_eq!(date.year_week(), Some(week(2021, 1)));
    let sunday = Date::from_ymd(2021, 1, 10).unwrap();
    assert_eq!(sunday.year_week(), Some(week(2021, 1)));
    let next = Date::from_ymd(2021, 1, 11).unwrap();
    assert_eq!(next.year_week(), Some(week(2021, 2)));
}

#[test]
fn day_numbers_count_from_the_year_one() {
    assert_eq!(Date::from_ymd(1, 1, 1).unwrap().days_from_ce, 1);
    assert_eq!(Date::from_ymd(1970, 1, 1).unwrap().days_from_ce, 719_163);
    assert_eq!(Date::from_ymd(2021, 1, 1).unwrap().days_from_ce, 737_791);
}

#[test]
fn dates_that_do_not_exist_are_turned_down() {
    assert_eq!(Date::from_ymd(2021, 2, 29), None);
    assert_eq!(Date::from_ymd(2021, 13, 1), None);
    assert_eq!(Date::from_ymd(2021, 0, 1), None);
    assert_eq!(Date::from_ymd(2021, 4, 31), None);
    assert!(Date::from_ymd(2020, 2, 29).is_some());
}

#[test]
fn a_day_beyond_the_calendar_has_no_week() {
    assert_eq!(Date { days_from_ce: i32::MAX }.year_week(), None);
    assert_eq!(Date { days_from_ce: i32::MIN }.year_week(), None);
}

#[test]
fn week_of_a_year_before_zero_keeps_the_bits_of_the_year() {
    assert_eq!(YearWeek::from_iso(2021, 7), week(2021, 7));
    assert_eq!(YearWeek::from_iso(-1, 7), week(u32::MAX, 7));
    assert_eq!(YearWeek::from_iso(0, 1), week(0, 1));
}

#[test]
fn date_text_is_read_as_year_month_day() {
    assert_eq!(deserialize_date("2021-03-08"), Ok(Date::from_ymd(2021, 3, 8).unwrap()));
    assert_eq!(deserialize_date("2021-12-14"), Ok(Date::from_ymd(2021, 12, 14).unwrap()));
    assert_eq!(
        deserialize_date("2021-03-08").unwrap().year_week(),
        Some(week(2021, 10))
    );
}

#[test]
fn bad_date_text_is_an_error() {
    assert_eq!(deserialize_date(""), Err(DateError::BadDate));
    assert_eq!(deserialize_date("08.03.2021"), Err(DateError::BadDate));
    assert_eq!(deserialize_date("2021-02-30"), Err(DateError::BadDate));
    assert_eq!(deserialize_date("2021-03-08 12:00"), Err(DateError::BadDate));
    assert_eq!(deserialize_date("yesterday"), Err(DateError::BadDate));
}

#[test]
fn weeks_of_2021_are_51_from_the_week_of_new_year() {
    let all = weeks_of_2021();
    assert_eq!(all.len(), 51);
    assert_eq!(all[0], week(2020, 53));
    assert_eq!(all[1], week(2021, 1));
    assert_eq!(all[2], week(2021, 2));
    assert_eq!(all[50], week(2021, 50));
    for index in 1..51 {
        assert_eq!(all[index], week(2021, index as u32));
    }
}

#[test]
fn weeks_up_to_a_week_include_it() {
    assert_eq!(
        weeks(week(2021, 3)),
        vec![week(2020, 53), week(2021, 1), week(2021, 2), week(2021, 3)]
    );
    assert_eq!(weeks(week(2020, 53)), vec![week(2020, 53)]);
}

#[test]
fn weeks_up_to_a_week_before_the_start_are_none() {
    assert_eq!(weeks(week(2020, 52)), Vec::<YearWeek>::new());
    assert_eq!(weeks(week(2019, 1)), Vec::<YearWeek>::new());
}

#[test]
fn weeks_up_to_the_end_of_2021_cross_into_no_other_year() {
    let all = weeks(week(2021, 52));
    assert_eq!(all.len(), 53);
    assert_eq!(all[52], week(2021, 52));
    let longer = weeks(week(2022, 1));
    assert_eq!(longer.len(), 54);
    assert_eq!(longer[53], week(2022, 1));
}

#[test]
fn weeks_from_a_day_step_by_seven_days() {
    let start = Date::from_ymd(2016, 2, 27).unwrap();
    assert_eq!(
        weeks_from(start, 4),
        vec![week(2016, 8), week(2016, 9), week(2016, 10), week(2016, 11)]
    );
    assert_eq!(weeks_from(start, 0), Vec::<YearWeek>::new());
    assert_eq!(weeks_from(start, 1), vec![week(2016, 8)]);
}

#[test]
fn weeks_from_a_day_until_a_week() {
    let start = Date::from_ymd(2016, 2, 27).unwrap();
    assert_eq!(
        weeks_from_until(start, week(2016, 10)),
        vec![week(2016, 8), week(2016, 9), week(2016, 10)]
    );
    assert_eq!(weeks_from_until(start, week(2016, 7)), Vec::<YearWeek>::new());
}

#[test]
fn weeks_from_a_day_without_a_week_are_none() {
    assert_eq!(weeks_from(Date { days_from_ce: i32::MAX }, 3), Vec::<YearWeek>::new());
    assert_eq!(weeks_from(Date { days_from_ce: i32::MAX - 3 }, 3), Vec::<YearWeek>::new());
    assert_eq!(
        weeks_from_until(Date { days_from_ce: i32::MAX }, week(u32::MAX, 53)),
        Vec::<YearWeek>::new()
    );
}

#[test]
fn a_step_lists_the_week_of_a_day_that_has_a_successor() {
    assert_eq!(week_of_step(Some((2021, 7)), Some((2021, 8))), Some(week(2021, 7)));
    assert_eq!(week_of_step(Some((2020, 53)), Some((2021, 1))), Some(week(2020, 53)));
    assert_eq!(week_of_step(Some((-1, 7)), Some((-1, 8))), Some(week(u32::MAX, 7)));
    assert_eq!(week_of_step(Some((2021, 7)), None), None);
    assert_eq!(week_of_step(None, Some((2021, 8))), None);
    assert_eq!(week_of_step(None, None), None);
}

#[test]
fn the_walk_ends_a_week_before_the_last_day_of_the_calendar() {
    let last = Date::from_ymd(262142, 12, 31).unwrap();
    assert!(last.year_week().is_some());
    assert_eq!(weeks_from(last, 1), Vec::<YearWeek>::new());
    let week_before = Date { days_from_ce: last.days_from_ce - 7 };
    assert_eq!(weeks_from(week_before, 5).len(), 1);
    let two_before = Date { days_from_ce: last.days_from_ce - 14 };
    assert_eq!(weeks_from(two_before, 5).len(), 2);
    assert_eq!(weeks_from_until(two_before, week(u32::MAX, 53)).len(), 2);
}
