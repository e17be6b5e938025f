use day_applet::date::{days_after, get_calendar_first, Date, Weekday};

fn date(year: i16, month: i8, day: i8) -> Date {
    Date { year, month, day }
}

#[test]
fn days_are_counted_over_months_and_leap_days() {
    assert_eq!(days_after(date(2024, 2, 28), 1), Some(date(2024, 2, 29)));
    assert_eq!(days_after(date(2023, 2, 28), 1), Some(date(2023, 3, 1)));
    assert_eq!(days_after(date(2024, 3, 1), -1), Some(date(2024, 2, 29)));
    assert_eq!(days_after(date(1900, 2, 28), 1), Some(date(1900, 3, 1)));
    assert_eq!(days_after(date(2000, 2, 28), 1), Some(date(2000, 2, 29)));
    assert_eq!(days_after(date(2023, 12, 31), 366), Some(date(2024, 12, 31)));
    assert_eq!(days_after(date(2024, 5, 5), 0), Some(date(2024, 5, 5)));
}

#[test]
fn days_end_with_the_last_year() {
    assert_eq!(days_after(date(9999, 12, 31), 1), None);
    assert_eq!(days_after(date(-9999, 1, 1), -1), None);
    assert_eq!(days_after(date(-9999, 1, 1), 7_304_483), Some(date(9999, 12, 31)));
    assert_eq!(days_after(date(-9999, 1, 1), 7_304_484), None);
}

#[test]
fn calendar_starts_with_the_first_day_of_the_week() {
    // 1 February 2024 was a Thursday.
    let first = |from| get_calendar_first(2024, 2, from);
    assert_eq!(first(Weekday::Monday), Some(date(2024, 1, 29)));
    assert_eq!(first(Weekday::Tuesday), Some(date(2024, 1, 30)));
    assert_eq!(first(Weekday::Wednesday), Some(date(2024, 1, 31)));
    assert_eq!(first(Weekday::Thursday), Some(date(2024, 2, 1)));
    assert_eq!(first(Weekday::Friday), Some(date(2024, 1, 26)));
    assert_eq!(first(Weekday::Saturday), Some(date(2024, 1, 27)));
    assert_eq!(first(Weekday::Sunday), Some(date(2024, 1, 28)));
}

#[test]
fn first_month_has_no_days_before_it() {
    let found: Vec<Option<Date>> = vec![
        Weekday::Monday,
        Weekday::Tuesday,
        Weekday::Wednesday,
        Weekday::Thursday,
        Weekday::Friday,
        Weekday::Saturday,
        Weekday::Sunday,
    ]
    .into_iter()
    .map(|from| get_calendar_first(-9999, 1, from))
    .collect();
    assert_eq!(found.iter().filter(|d| d.is_some()).count(), 1);
    assert!(found.contains(&Some(date(-9999, 1, 1))));
}

#[test]
fn weekdays_count_from_monday() {
    assert_eq!(Weekday::Monday.days_from_monday(), 0);
    assert_eq!(Weekday::Sunday.days_from_monday(), 6);
}
