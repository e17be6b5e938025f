//! Civil dates of the proleptic Gregorian calendar.

use vstd::prelude::*;

verus! {

/// A day of the week.
#[derive(Clone, Copy, PartialEq, Eq, Structural, Debug)]
pub enum Weekday {
    Monday,
    Tuesday,
    Wednesday,
    Thursday,
    Friday,
    Saturday,
    Sunday,
}

impl Weekday {
    /// Days from Monday to this day.
    pub open spec fn from_monday(self) -> int {
        match self {
            Weekday::Monday => 0,
            Weekday::Tuesday => 1,
            Weekday::Wednesday => 2,
            Weekday::Thursday => 3,
            Weekday::Friday => 4,
            Weekday::Saturday => 5,
            Weekday::Sunday => 6,
        }
    }

    /// Days from Monday to this day.
    pub fn days_from_monday(self) -> (days: i32)
        ensures
            days == self.from_monday(),
            0 <= days < 7,
    {
        match self {
            Weekday::Monday => 0,
            Weekday::Tuesday => 1,
            Weekday::Wednesday => 2,
            Weekday::Thursday => 3,
            Weekday::Friday => 4,
            Weekday::Saturday => 5,
            Weekday::Sunday => 6,
        }
    }
}

/// A year, a month from 1 and a day of the month from 1.
#[derive(Clone, Copy, PartialEq, Eq, Structural, Debug)]
pub struct Date {
    pub year: i16,
    pub month: i8,
    pub day: i8,
}

/// A local date and time of day, to the second.
#[derive(Clone, Copy, PartialEq, Eq, Structural, Debug)]
pub struct Zoned {
    pub date: Date,
    pub hour: i8,
    pub minute: i8,
    pub second: i8,
}

pub open spec fn is_leap_year(year: int) -> bool {
    year % 4 == 0 && (year % 100 != 0 || year % 400 == 0)
}

pub open spec fn days_in_month(year: int, month: int) -> int {
    if month == 2 {
        if is_leap_year(year) {
            29
        } else {
            28
        }
    } else if month == 4 || month == 6 || month == 9 || month == 11 {
        30
    } else {
        31
    }
}

/// Days of `year` that precede `month`.
pub open spec fn days_before_month(year: int, month: int) -> int
    decreases month,
{
    if month <= 1 {
        0
    } else {
        days_before_month(year, month - 1) + days_in_month(year, month - 1)
    }
}

/// Days from 1 January of year 1 to 1 January of `year`.
pub open spec fn days_before_year(year: int) -> int {
    365 * (year - 1) + (year - 1) / 4 - (year - 1) / 100 + (year - 1) / 400
}

/// The smallest ordinal of a date, that of 1 January -9999.
pub open spec fn min_ordinal() -> int {
    days_before_year(-9999) + 1
}

/// The largest ordinal of a date, that of 31 December 9999.
pub open spec fn max_ordinal() -> int {
    days_before_year(10000)
}

/// The weekday of the day with this ordinal. Day 1 was a Monday.
pub open spec fn ordinal_from_monday(ordinal: int) -> int {
    (ordinal - 1) % 7
}

impl Date {
    /// The date exists, and its year is in `-9999..=9999`.
    pub open spec fn valid(self) -> bool {
        &&& -9999 <= self.year <= 9999
        &&& 1 <= self.month <= 12
        &&& 1 <= self.day <= days_in_month(self.year as int, self.month as int)
    }

    /// The number of the day, counted from 1 for 1 January of year 1.
    pub open spec fn ordinal(self) -> int {
        days_before_year(self.year as int) + days_before_month(
            self.year as int,
            self.month as int,
        ) + self.day
    }

    /// The first day of the date's month.
    pub open spec fn month_start(self) -> Date {
        Date { year: self.year, month: self.month, day: 1 }
    }

    /// The same day of the next month, or its last day where it is shorter.
    /// `None` after December 9999.
    pub open spec fn month_after(self) -> Option<Date> {
        let year = if self.month == 12 {
            self.year + 1
        } else {
            self.year as int
        };
        let month = if self.month == 12 {
            1
        } else {
            self.month + 1
        };
        constrained(year, month, self.day as int)
    }

    /// The same day of the previous month, or its last day where it is shorter.
    /// `None` before January -9999.
    pub open spec fn month_before(self) -> Option<Date> {
        let year = if self.month == 1 {
            self.year - 1
        } else {
            self.year as int
        };
        let month = if self.month == 1 {
            12
        } else {
            self.month - 1
        };
        constrained(year, month, self.day as int)
    }

    /// The given day of the date's month, where the month has it.
    pub open spec fn day_of_same_month(self, day: i8) -> Option<Date> {
        let date = Date { year: self.year, month: self.month, day };
        if date.valid() {
            Some(date)
        } else {
            None
        }
    }
}

/// Day `day` of a month, or the last day of the month where it is shorter.
pub open spec fn constrained(year: int, month: int, day: int) -> Option<Date> {
    let last = days_in_month(year, month);
    if -9999 <= year <= 9999 {
        Some(
            Date {
                year: year as i16,
                month: month as i8,
                day: (if day <= last {
                    day
                } else {
                    last
                }) as i8,
            },
        )
    } else {
        None
    }
}

impl Zoned {
    /// The date exists and the time is one that a clock shows.
    pub open spec fn valid(self) -> bool {
        &&& self.date.valid()
        &&& 0 <= self.hour < 24
        &&& 0 <= self.minute < 60
        &&& 0 <= self.second < 60
    }
}

/// `jiff::civil::Date::checked_add` with a span of whole days: the date that many
/// days later, or earlier where `days` is negative. It fails exactly where the
/// result lies outside of the years `-9999..=9999`.
#[verifier::external_body]
fn checked_add_days(date: Date, days: i32) -> (sum: Option<Date>)
    requires
        date.valid(),
        -7304484 <= days <= 7304484,
    ensures
        sum is Some <==> min_ordinal() <= date.ordinal() + days <= max_ordinal(),
        sum matches Some(d) ==> d.valid() && d.ordinal() == date.ordinal() + days,
{
    let start = jiff::civil::Date::new(date.year, date.month, date.day).ok()?;
    let end = start.checked_add(jiff::ToSpan::days(days)).ok()?;
    Some(Date { year: end.year(), month: end.month(), day: end.day() })
}

/// `jiff::civil::Date::checked_add` with a span of one month: the same day of the
/// next month, or its last day where it is shorter. It fails exactly where that
/// month lies after the year 9999.
#[verifier::external_body]
pub(crate) fn checked_add_month(date: Date) -> (sum: Option<Date>)
    requires
        date.valid(),
    ensures
        sum == date.month_after(),
{
    let start = jiff::civil::Date::new(date.year, date.month, date.day).ok()?;
    let end = start.checked_add(jiff::ToSpan::month(1)).ok()?;
    Some(Date { year: end.year(), month: end.month(), day: end.day() })
}

/// `jiff::civil::Date::checked_sub` with a span of one month: the same day of the
/// previous month, or its last day where it is shorter. It fails exactly where
/// that month lies before the year -9999.
#[verifier::external_body]
pub(crate) fn checked_sub_month(date: Date) -> (difference: Option<Date>)
    requires
        date.valid(),
    ensures
        difference == date.month_before(),
{
    let start = jiff::civil::Date::new(date.year, date.month, date.day).ok()?;
    let end = start.checked_sub(jiff::ToSpan::month(1)).ok()?;
    Some(Date { year: end.year(), month: end.month(), day: end.day() })
}

/// `jiff::civil::DateWith::build` after `day`: the given day of the date's month.
/// It fails exactly where the month does not have that day.
#[verifier::external_body]
pub(crate) fn with_day(date: Date, day: i8) -> (changed: Option<Date>)
    requires
        date.valid(),
    ensures
        changed == date.day_of_same_month(day),
{
    let start = jiff::civil::Date::new(date.year, date.month, date.day).ok()?;
    let end = start.with().day(day).build().ok()?;
    Some(Date { year: end.year(), month: end.month(), day: end.day() })
}

/// `jiff::civil::Date::weekday`: the day of the week of a date.
#[verifier::external_body]
pub(crate) fn weekday_of(date: Date) -> (weekday: Weekday)
    requires
        date.valid(),
    ensures
        weekday.from_monday() == ordinal_from_monday(date.ordinal()),
{
    let date = jiff::civil::Date::new(date.year, date.month, date.day).unwrap();
    match date.weekday() {
        jiff::civil::Weekday::Monday => Weekday::Monday,
        jiff::civil::Weekday::Tuesday => Weekday::Tuesday,
        jiff::civil::Weekday::Wednesday => Weekday::Wednesday,
        jiff::civil::Weekday::Thursday => Weekday::Thursday,
        jiff::civil::Weekday::Friday => Weekday::Friday,
        jiff::civil::Weekday::Saturday => Weekday::Saturday,
        jiff::civil::Weekday::Sunday => Weekday::Sunday,
    }
}

/// The date with this ordinal.
pub open spec fn date_at(ordinal: int) -> Date {
    choose|date: Date| date.valid() && #[trigger] date.ordinal() == ordinal
}

/// The day on which the grid of a month starts: the last one with weekday `from` that is
/// not after the first of the month.
pub open spec fn calendar_first(month_start: Date, from: Weekday) -> int {
    month_start.ordinal() - (ordinal_from_monday(month_start.ordinal()) - from.from_monday()) % 7
}

/// The date that many days after `date`, where there is one.
pub fn days_after(date: Date, days: i32) -> (sum: Option<Date>)
    requires
        date.valid(),
        -7304484 <= days <= 7304484,
    ensures
        sum is Some <==> min_ordinal() <= date.ordinal() + days <= max_ordinal(),
        sum matches Some(d) ==> d.valid() && d.ordinal() == date.ordinal() + days && d == date_at(
            date.ordinal() + days,
        ),
{
    let sum = checked_add_days(date, days);
    proof {
        if let Some(d) = sum {
            law_date_at(d);
        }
    }
    sum
}

/// The first date of the calendar page of a month whose weeks start with `from`: the last
/// day with that weekday that is not after the first of the month. `None` where it would
/// lie before the first date of all.
pub fn get_calendar_first(year: i16, month: i8, from: Weekday) -> (first: Option<Date>)
    requires
        (Date { year, month, day: 1 }).valid(),
    ensures
        first is Some <==> min_ordinal() <= calendar_first(Date { year, month, day: 1 }, from),
        first matches Some(d) ==> d.valid() && d.ordinal() == calendar_first(
            Date { year, month, day: 1 },
            from,
        ),
{
    let start = Date { year, month, day: 1 };
    let weekday: i32 = weekday_of(start).days_from_monday();
    let offset: i32 = (weekday + 7 - from.days_from_monday()) % 7;
    proof {
        law_ordinal_bounds(start);
        assert(offset == (weekday - from.from_monday()) % 7);
    }
    days_after(start, 0 - offset)
}

/// A date is the one with its ordinal.
pub proof fn law_date_at(date: Date)
    requires
        date.valid(),
    ensures
        date_at(date.ordinal()) == date,
{
    let chosen = date_at(date.ordinal());
    assert(chosen.valid() && chosen.ordinal() == date.ordinal());
    law_ordinal_orders(date, chosen);
}

/// Every ordinal between the first and the last one is that of a date.
pub proof fn law_every_ordinal(ordinal: int)
    requires
        min_ordinal() <= ordinal <= max_ordinal(),
    ensures
        date_at(ordinal).valid(),
        date_at(ordinal).ordinal() == ordinal,
    decreases ordinal - min_ordinal(),
{
    if ordinal == min_ordinal() {
        let first = Date { year: (-9999) as i16, month: 1, day: 1 };
        assert(first.valid() && first.ordinal() == ordinal);
    } else {
        law_every_ordinal(ordinal - 1);
        let before = date_at(ordinal - 1);
        let (year, month) = (before.year as int, before.month as int);
        lemma_year_length(year);
        let date = if before.day < days_in_month(year, month) {
            Date { year: before.year, month: before.month, day: (before.day + 1) as i8 }
        } else if month < 12 {
            Date { year: before.year, month: (month + 1) as i8, day: 1 }
        } else {
            Date { year: (year + 1) as i16, month: 1, day: 1 }
        };
        assert(date.valid() && date.ordinal() == ordinal);
    }
}

/// The first day of a calendar page has the weekday that weeks start with, and lies at
/// most six days before the first of the month.
pub proof fn law_calendar_first(month_start: Date, from: Weekday)
    ensures
        ordinal_from_monday(calendar_first(month_start, from)) == from.from_monday(),
        month_start.ordinal() - 6 <= calendar_first(month_start, from) <= month_start.ordinal(),
{
}

/// The next month and then the previous one lead back to the month, and to the day where
/// both months have it.
pub proof fn law_month_there_and_back(date: Date)
    requires
        date.valid(),
        date.month_after() is Some,
    ensures
        date.month_after()->0.valid(),
        date.month_after()->0.month_before() is Some,
        ({
            let next = date.month_after()->0;
            let back = next.month_before()->0;
            &&& back.valid()
            &&& back.year == date.year && back.month == date.month
            &&& back.day == next.day
            &&& back.day <= date.day
            &&& date.day <= days_in_month(next.year as int, next.month as int) ==> back == date
        }),
{
}

/// The previous month and then the next one lead back to the month, and to the day where
/// both months have it.
pub proof fn law_month_back_and_there(date: Date)
    requires
        date.valid(),
        date.month_before() is Some,
    ensures
        date.month_before()->0.valid(),
        date.month_before()->0.month_after() is Some,
        ({
            let previous = date.month_before()->0;
            let back = previous.month_after()->0;
            &&& back.valid()
            &&& back.year == date.year && back.month == date.month
            &&& back.day == previous.day
            &&& back.day <= date.day
            &&& date.day <= days_in_month(previous.year as int, previous.month as int) ==> back
                == date
        }),
{
}

/// A year has 365 days, and one more where it is a leap year.
proof fn lemma_year_length(year: int)
    ensures
        days_before_year(year + 1) == days_before_year(year) + (if is_leap_year(year) {
            366int
        } else {
            365
        }),
        days_before_month(year, 12) + 31 == (if is_leap_year(year) {
            366int
        } else {
            365
        }),
{
    reveal_with_fuel(days_before_month, 13);
}

/// Of the years of a century every fourth is a leap year, and of the years that begin one
/// every fourth too.
pub proof fn law_leap_years(century: int, rest: int)
    requires
        0 <= rest < 100,
    ensures
        rest != 0 ==> (is_leap_year(100 * century + rest) <==> rest % 4 == 0),
        rest == 0 ==> (is_leap_year(100 * century + rest) <==> century % 4 == 0),
{
}

/// Months of 31 and of 30 days take turns, and two of 31 meet in July and August. February
/// takes what is left of the year, which the months fill in their order.
pub proof fn law_month_lengths(year: int, month: int)
    requires
        1 <= month <= 12,
    ensures
        month != 2 ==> days_in_month(year, month) == 30 + (month + month / 8) % 2,
        month == 2 ==> days_in_month(year, month) == (if is_leap_year(year) {
            29int
        } else {
            28
        }),
        days_before_month(year, 1) == 0,
        days_before_month(year, month + 1) - days_before_month(year, month) == days_in_month(
            year,
            month,
        ),
        month == 12 ==> days_before_month(year, month + 1) == days_before_year(year + 1)
            - days_before_year(year),
{
    lemma_year_length(year);
}

/// After 400 years the weekdays come back: the years 2001, 2401 and so on, and those before
/// them in the same steps, begin on a Monday.
pub proof fn law_weekdays_come_back(spans: int)
    ensures
        days_before_year(2001 + 400 * (spans + 1)) - days_before_year(2001 + 400 * spans)
            == 146097,
        ordinal_from_monday(days_before_year(2001 + 400 * spans) + 1)
            == Weekday::Monday.from_monday(),
{
    assert((2000 + 400 * spans) / 4 == 500 + 100 * spans);
    assert((2000 + 400 * spans) / 100 == 20 + 4 * spans);
    assert((2000 + 400 * spans) / 400 == 5 + spans);
}

/// From one day to the next the weekday moves on by one. The next day has the next number of
/// the month, or is the first of the next month.
pub proof fn law_day_after_day(date: Date, next: Date)
    requires
        date.valid(),
        next.valid(),
        next.ordinal() == date.ordinal() + 1,
    ensures
        ordinal_from_monday(next.ordinal()) == (ordinal_from_monday(date.ordinal()) + 1) % 7,
        next.day != 1 ==> next.year == date.year && next.month == date.month && next.day == date.day
            + 1,
        next.day == 1 ==> date.day == days_in_month(date.year as int, date.month as int),
        next.day == 1 && next.month != 1 ==> next.year == date.year && next.month == date.month + 1,
        next.day == 1 && next.month == 1 ==> next.year == date.year + 1 && date.month == 12,
{
    let (year, month) = (date.year as int, date.month as int);
    lemma_year_length(year);
    let after = if date.day < days_in_month(year, month) {
        Date { year: date.year, month: date.month, day: (date.day + 1) as i8 }
    } else if month < 12 {
        Date { year: date.year, month: (month + 1) as i8, day: 1 }
    } else {
        Date { year: (year + 1) as i16, month: 1, day: 1 }
    };
    assert(after.ordinal() == next.ordinal());
    law_ordinal_bounds(next);
    assert(after.valid());
    law_ordinal_orders(after, next);
}

/// The weekdays come in their order, one day apart.
pub proof fn law_weekdays_in_order()
    ensures
        Weekday::Monday.from_monday() == 0,
        Weekday::Tuesday.from_monday() == Weekday::Monday.from_monday() + 1,
        Weekday::Wednesday.from_monday() == Weekday::Tuesday.from_monday() + 1,
        Weekday::Thursday.from_monday() == Weekday::Wednesday.from_monday() + 1,
        Weekday::Friday.from_monday() == Weekday::Thursday.from_monday() + 1,
        Weekday::Saturday.from_monday() == Weekday::Friday.from_monday() + 1,
        Weekday::Sunday.from_monday() == Weekday::Saturday.from_monday() + 1,
{
}

/// The days before a month grow with the month.
proof fn lemma_months_grow(year: int, month: int, later: int)
    requires
        1 <= month < later,
    ensures
        days_before_month(year, month) + days_in_month(year, month) <= days_before_month(
            year,
            later,
        ),
    decreases later,
{
    if later > month + 1 {
        lemma_months_grow(year, month, later - 1);
    }
}

/// The days before a year grow with the year.
proof fn lemma_years_grow(year: int, later: int)
    requires
        year < later,
    ensures
        days_before_year(year + 1) <= days_before_year(later),
    decreases later - year,
{
    if later > year + 1 {
        lemma_years_grow(year, later - 1);
        lemma_year_length(later - 1);
    }
}

/// A date lies within its year.
proof fn lemma_within_year(date: Date)
    requires
        date.valid(),
    ensures
        days_before_year(date.year as int) < date.ordinal() <= days_before_year(date.year + 1),
{
    let (year, month) = (date.year as int, date.month as int);
    lemma_year_length(year);
    if month > 1 {
        lemma_months_grow(year, 1, month);
    }
    if month < 12 {
        lemma_months_grow(year, month, 12);
    }
}

/// `a` comes before `b` by year, month and day.
pub open spec fn precedes(a: Date, b: Date) -> bool {
    a.year < b.year || (a.year == b.year && (a.month < b.month || (a.month == b.month && a.day
        < b.day)))
}

/// Ordinals order the dates as year, month and day do.
pub proof fn law_ordinal_orders(a: Date, b: Date)
    requires
        a.valid(),
        b.valid(),
    ensures
        a.ordinal() < b.ordinal() <==> precedes(a, b),
        a.ordinal() == b.ordinal() <==> a == b,
{
    if precedes(a, b) {
        lemma_precedes(a, b);
    } else if precedes(b, a) {
        lemma_precedes(b, a);
    }
}

proof fn lemma_precedes(a: Date, b: Date)
    requires
        a.valid(),
        b.valid(),
        precedes(a, b),
    ensures
        a.ordinal() < b.ordinal(),
{
    lemma_within_year(a);
    lemma_within_year(b);
    if a.year < b.year {
        lemma_years_grow(a.year as int, b.year as int);
    } else if a.month < b.month {
        lemma_months_grow(a.year as int, a.month as int, b.month as int);
    }
}

/// Every date's ordinal lies between the first and the last one.
pub proof fn law_ordinal_bounds(date: Date)
    requires
        date.valid(),
    ensures
        min_ordinal() <= date.ordinal() <= max_ordinal(),
{
    lemma_within_year(date);
    if date.year > -9999 {
        lemma_years_grow(-9999, date.year as int);
        lemma_year_length(-9999);
    }
    if date.year < 9999 {
        lemma_years_grow(date.year as int, 10000);
    }
}

} // verus!
