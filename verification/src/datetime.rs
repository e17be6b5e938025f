//! Dates and times as text, in the words of a locale.

use vstd::prelude::*;
use crate::date::days_in_month;
use icu::calendar::cal::Persian;
use icu::datetime::fieldsets::{E, MD, MDET, MDT, T, YMD};
use icu::datetime::input::{Date as IcuDate, DateTime as IcuDateTime, Time};
use icu::datetime::options::TimePrecision as IcuPrecision;
use icu::datetime::{DateTimeFormatter, DateTimeFormatterPreferences};
use icu::locale::preferences::extensions::unicode::keywords::CalendarAlgorithm;
use icu::locale::preferences::extensions::unicode::keywords::HourCycle as IcuCycle;
use icu::locale::Locale;

verus! {

/// A date and a time of day of the Gregorian calendar.
#[derive(Clone, Copy, PartialEq, Eq, Structural, Debug)]
pub struct DateTime {
    pub year: i32,
    pub month: u8,
    pub day: u8,
    pub hour: u8,
    pub minute: u8,
    pub second: u8,
}

impl DateTime {
    /// The date exists in the years `-9999..=9999`, and the time is one that a clock shows.
    pub open spec fn valid(self) -> bool {
        &&& -9999 <= self.year <= 9999
        &&& 1 <= self.month <= 12
        &&& 1 <= self.day <= days_in_month(self.year as int, self.month as int)
        &&& self.hour < 24
        &&& self.minute < 60
        &&& self.second < 60
    }

    /// The second, where it is shown.
    pub open spec fn shown_second(self, precision: TimePrecision) -> Option<int> {
        match precision {
            TimePrecision::Minute => None,
            TimePrecision::Full => Some(self.second as int),
        }
    }
}

/// A date of the Persian calendar: a year, a month from 1 and a day of the month from 1.
#[derive(Clone, Copy, PartialEq, Eq, Structural, Debug)]
pub struct PersianDate {
    pub year: i32,
    pub month: u8,
    pub day: u8,
}

/// How long a text may be.
#[derive(Clone, Copy, PartialEq, Eq, Structural, Debug)]
pub enum Length {
    Long,
    Short,
}

/// Whether the hours of a day go up to 12 or up to 23.
#[derive(Clone, Copy, PartialEq, Eq, Structural, Debug)]
pub enum HourCycle {
    H12,
    H23,
}

/// How much of a time is shown: hours and minutes, or all that a formatter shows where nothing
/// is asked for, which is seconds too.
#[derive(Clone, Copy, PartialEq, Eq, Structural, Debug)]
pub enum TimePrecision {
    Minute,
    Full,
}

/// The text that an optional string holds.
pub open spec fn opt_text(text: Option<String>) -> Option<Seq<char>> {
    match text {
        Some(t) => Some(t@),
        None => None,
    }
}

/// What `icu::locale::Locale::try_from_str` makes of a tag: the locale's own tag, `None` where
/// it is not that of a locale.
pub uninterp spec fn locale_tag(tag: Seq<char>) -> Option<Seq<char>>;

/// Two or three small letters, the form of a tag that is a language alone.
pub open spec fn is_language(tag: Seq<char>) -> bool {
    2 <= tag.len() <= 3 && forall|i: int| 0 <= i < tag.len() ==> 'a' <= #[trigger] tag[i] <= 'z'
}

/// `icu::locale::Locale::try_from_str`: the locale that `tag` stands for, by its own tag. Two or
/// three small letters are the tag of a locale, and its own.
#[verifier::external_body]
pub(crate) fn parse_locale(tag: &str) -> (locale: Option<String>)
    ensures
        opt_text(locale) == locale_tag(tag@),
        is_language(tag@) ==> opt_text(locale) == Some(tag@),
{
    Some(Locale::try_from_str(tag).ok()?.to_string())
}

/// What `icu::datetime::DateTimeFormatter` writes with the field set `E`: the weekday.
pub uninterp spec fn weekday_text(
    locale: Seq<char>,
    length: Length,
    year: int,
    month: int,
    day: int,
) -> Option<Seq<char>>;

/// `icu::datetime::DateTimeFormatter` with the field set `E`: the weekday, in the words of the
/// locale. `None` where the locale or the formatter is refused. The time of day does not
/// matter.
#[verifier::external_body]
pub(crate) fn format_weekday(
    locale: &str,
    length: Length,
    datetime: DateTime,
) -> (text: Option<String>)
    requires
        datetime.valid(),
    ensures
        opt_text(text) == weekday_text(
            locale@,
            length,
            datetime.year as int,
            datetime.month as int,
            datetime.day as int,
        ),
{
    let prefs = DateTimeFormatterPreferences::from(Locale::try_from_str(locale).ok()?);
    let fields = match length {
        Length::Long => E::long(),
        Length::Short => E::short(),
    };
    let formatter = DateTimeFormatter::try_new(prefs, fields).ok()?;
    let date = IcuDate::try_new_gregorian(datetime.year, datetime.month, datetime.day).ok()?;
    let time = Time::try_new(datetime.hour, datetime.minute, datetime.second, 0).ok()?;
    Some(formatter.format(&IcuDateTime { date, time }).to_string())
}

/// What `icu::datetime::DateTimeFormatter` writes with the field set `YMD`: the whole date at
/// full length.
pub uninterp spec fn date_text(
    locale: Seq<char>,
    year: int,
    month: int,
    day: int,
) -> Option<Seq<char>>;

/// `icu::datetime::DateTimeFormatter` with the field set `YMD`: the whole date at full length,
/// in the words of the locale. `None` where the locale or the formatter is refused. The time of
/// day does not matter.
#[verifier::external_body]
pub(crate) fn format_date(
    locale: &str,
    datetime: DateTime,
) -> (text: Option<String>)
    requires
        datetime.valid(),
    ensures
        opt_text(text) == date_text(
            locale@,
            datetime.year as int,
            datetime.month as int,
            datetime.day as int,
        ),
{
    let prefs = DateTimeFormatterPreferences::from(Locale::try_from_str(locale).ok()?);
    let formatter = DateTimeFormatter::try_new(prefs, YMD::long()).ok()?;
    let date = IcuDate::try_new_gregorian(datetime.year, datetime.month, datetime.day).ok()?;
    let time = Time::try_new(datetime.hour, datetime.minute, datetime.second, 0).ok()?;
    Some(formatter.format(&IcuDateTime { date, time }).to_string())
}

/// What `icu::datetime::DateTimeFormatter` writes with the field set `MD`: the month and the
/// day at medium length.
pub uninterp spec fn month_day_text(
    locale: Seq<char>,
    cycle: HourCycle,
    year: int,
    month: int,
    day: int,
) -> Option<Seq<char>>;

/// `icu::datetime::DateTimeFormatter` with the field set `MD`: the month and the day at medium
/// length, in the words of the locale. `None` where the locale or the formatter is refused. The
/// time of day does not matter.
#[verifier::external_body]
pub(crate) fn format_month_day(
    locale: &str,
    cycle: HourCycle,
    datetime: DateTime,
) -> (text: Option<String>)
    requires
        datetime.valid(),
    ensures
        opt_text(text) == month_day_text(
            locale@,
            cycle,
            datetime.year as int,
            datetime.month as int,
            datetime.day as int,
        ),
{
    let mut prefs = DateTimeFormatterPreferences::from(Locale::try_from_str(locale).ok()?);
    prefs.hour_cycle = Some(match cycle {
        HourCycle::H12 => IcuCycle::H12,
        HourCycle::H23 => IcuCycle::H23,
    });
    let formatter = DateTimeFormatter::try_new(prefs, MD::medium()).ok()?;
    let date = IcuDate::try_new_gregorian(datetime.year, datetime.month, datetime.day).ok()?;
    let time = Time::try_new(datetime.hour, datetime.minute, datetime.second, 0).ok()?;
    Some(formatter.format(&IcuDateTime { date, time }).to_string())
}

/// What `icu::datetime::DateTimeFormatter` writes with the field set `T`: the time at medium
/// length.
pub uninterp spec fn time_text(
    locale: Seq<char>,
    cycle: HourCycle,
    hour: int,
    minute: int,
    second: Option<int>,
) -> Option<Seq<char>>;

/// `icu::datetime::DateTimeFormatter` with the field set `T`: the time at medium length, in the
/// words of the locale. `None` where the locale or the formatter is refused. The date does not
/// matter, nor does the second where it is not shown.
#[verifier::external_body]
pub(crate) fn format_time(
    locale: &str,
    cycle: HourCycle,
    precision: TimePrecision,
    datetime: DateTime,
) -> (text: Option<String>)
    requires
        datetime.valid(),
    ensures
        opt_text(text) == time_text(
            locale@,
            cycle,
            datetime.hour as int,
            datetime.minute as int,
            datetime.shown_second(precision),
        ),
{
    let mut prefs = DateTimeFormatterPreferences::from(Locale::try_from_str(locale).ok()?);
    prefs.hour_cycle = Some(match cycle {
        HourCycle::H12 => IcuCycle::H12,
        HourCycle::H23 => IcuCycle::H23,
    });
    let mut fields = T::medium();
    fields.time_precision = match precision {
        TimePrecision::Minute => Some(IcuPrecision::Minute),
        TimePrecision::Full => None,
    };
    let formatter = DateTimeFormatter::try_new(prefs, fields).ok()?;
    let date = IcuDate::try_new_gregorian(datetime.year, datetime.month, datetime.day).ok()?;
    let time = Time::try_new(datetime.hour, datetime.minute, datetime.second, 0).ok()?;
    Some(formatter.format(&IcuDateTime { date, time }).to_string())
}

/// What `icu::datetime::DateTimeFormatter` writes with the field set `MDT`: the month, the day
/// and the time at medium length.
pub uninterp spec fn month_day_time_text(
    locale: Seq<char>,
    cycle: HourCycle,
    year: int,
    month: int,
    day: int,
    hour: int,
    minute: int,
    second: Option<int>,
) -> Option<Seq<char>>;

/// `icu::datetime::DateTimeFormatter` with the field set `MDT`: the month, the day and the time
/// at medium length, in the words of the locale. `None` where the locale or the formatter is
/// refused. The second does not matter where it is not shown.
#[verifier::external_body]
pub(crate) fn format_month_day_time(
    locale: &str,
    cycle: HourCycle,
    precision: TimePrecision,
    datetime: DateTime,
) -> (text: Option<String>)
    requires
        datetime.valid(),
    ensures
        opt_text(text) == month_day_time_text(
            locale@,
            cycle,
            datetime.year as int,
            datetime.month as int,
            datetime.day as int,
            datetime.hour as int,
            datetime.minute as int,
            datetime.shown_second(precision),
        ),
{
    let mut prefs = DateTimeFormatterPreferences::from(Locale::try_from_str(locale).ok()?);
    prefs.hour_cycle = Some(match cycle {
        HourCycle::H12 => IcuCycle::H12,
        HourCycle::H23 => IcuCycle::H23,
    });
    let mut fields = MDT::medium();
    fields.time_precision = match precision {
        TimePrecision::Minute => Some(IcuPrecision::Minute),
        TimePrecision::Full => None,
    };
    let formatter = DateTimeFormatter::try_new(prefs, fields).ok()?;
    let date = IcuDate::try_new_gregorian(datetime.year, datetime.month, datetime.day).ok()?;
    let time = Time::try_new(datetime.hour, datetime.minute, datetime.second, 0).ok()?;
    Some(formatter.format(&IcuDateTime { date, time }).to_string())
}

/// What `icu::datetime::DateTimeFormatter` writes with the field set `MDET`: the weekday, the
/// month, the day and the time at medium length.
pub uninterp spec fn weekday_time_text(
    locale: Seq<char>,
    cycle: HourCycle,
    year: int,
    month: int,
    day: int,
    hour: int,
    minute: int,
    second: Option<int>,
) -> Option<Seq<char>>;

/// `icu::datetime::DateTimeFormatter` with the field set `MDET`: the weekday, the month, the
/// day and the time at medium length, in the words of the locale. `None` where the locale or
/// the formatter is refused. The second does not matter where it is not shown.
#[verifier::external_body]
pub(crate) fn format_weekday_time(
    locale: &str,
    cycle: HourCycle,
    precision: TimePrecision,
    datetime: DateTime,
) -> (text: Option<String>)
    requires
        datetime.valid(),
    ensures
        opt_text(text) == weekday_time_text(
            locale@,
            cycle,
            datetime.year as int,
            datetime.month as int,
            datetime.day as int,
            datetime.hour as int,
            datetime.minute as int,
            datetime.shown_second(precision),
        ),
{
    let mut prefs = DateTimeFormatterPreferences::from(Locale::try_from_str(locale).ok()?);
    prefs.hour_cycle = Some(match cycle {
        HourCycle::H12 => IcuCycle::H12,
        HourCycle::H23 => IcuCycle::H23,
    });
    let mut fields = MDET::medium();
    fields.time_precision = match precision {
        TimePrecision::Minute => Some(IcuPrecision::Minute),
        TimePrecision::Full => None,
    };
    let formatter = DateTimeFormatter::try_new(prefs, fields).ok()?;
    let date = IcuDate::try_new_gregorian(datetime.year, datetime.month, datetime.day).ok()?;
    let time = Time::try_new(datetime.hour, datetime.minute, datetime.second, 0).ok()?;
    Some(formatter.format(&IcuDateTime { date, time }).to_string())
}

/// What `icu::datetime::DateTimeFormatter` writes with the field set `MDET`: the weekday, the
/// month, the day and the time to the minute at short length.
pub uninterp spec fn short_weekday_time_text(
    locale: Seq<char>,
    cycle: HourCycle,
    year: int,
    month: int,
    day: int,
    hour: int,
    minute: int,
) -> Option<Seq<char>>;

/// `icu::datetime::DateTimeFormatter` with the field set `MDET`: the weekday, the month, the
/// day and the time to the minute at short length, in the words of the locale. `None` where the
/// locale or the formatter is refused. The second does not matter.
#[verifier::external_body]
pub(crate) fn format_short_weekday_time(
    locale: &str,
    cycle: HourCycle,
    datetime: DateTime,
) -> (text: Option<String>)
    requires
        datetime.valid(),
    ensures
        opt_text(text) == short_weekday_time_text(
            locale@,
            cycle,
            datetime.year as int,
            datetime.month as int,
            datetime.day as int,
            datetime.hour as int,
            datetime.minute as int,
        ),
{
    let mut prefs = DateTimeFormatterPreferences::from(Locale::try_from_str(locale).ok()?);
    prefs.hour_cycle = Some(match cycle {
        HourCycle::H12 => IcuCycle::H12,
        HourCycle::H23 => IcuCycle::H23,
    });
    let fields = MDET::short().with_time_precision(IcuPrecision::Minute);
    let formatter = DateTimeFormatter::try_new(prefs, fields).ok()?;
    let date = IcuDate::try_new_gregorian(datetime.year, datetime.month, datetime.day).ok()?;
    let time = Time::try_new(datetime.hour, datetime.minute, datetime.second, 0).ok()?;
    Some(formatter.format(&IcuDateTime { date, time }).to_string())
}

/// The date of the Persian calendar on which `icu` puts a Gregorian date.
pub uninterp spec fn persian_date(year: int, month: int, day: int) -> Option<PersianDate>;

/// `icu::calendar::Date::to_calendar` with the Persian calendar: the date there, by its year,
/// its month and its day. `None` where the Gregorian date is refused.
#[verifier::external_body]
pub(crate) fn to_persian(year: i32, month: u8, day: u8) -> (persian: Option<PersianDate>)
    ensures
        persian == persian_date(year as int, month as int, day as int),
{
    let gregorian = IcuDate::try_new_gregorian(year, month, day).ok()?;
    let date = gregorian.to_calendar(Persian);
    let (year, month, day) = (date.era_year().year, date.month().ordinal, date.day_of_month().0);
    Some(PersianDate { year, month, day })
}

/// What `icu::datetime::DateTimeFormatter` writes with the field set `YMD` for a date of the
/// Persian calendar: the whole date at full length.
pub uninterp spec fn persian_date_text(
    locale: Seq<char>,
    year: int,
    month: int,
    day: int,
) -> Option<Seq<char>>;

/// `icu::datetime::DateTimeFormatter` with the field set `YMD` and the Persian calendar: the
/// whole date at full length in the words of the locale. `None` where the locale, the formatter
/// or the date is refused.
#[verifier::external_body]
pub(crate) fn format_persian_date(locale: &str, year: i32, month: u8, day: u8) -> (text: Option<
    String,
>)
    ensures
        opt_text(text) == persian_date_text(locale@, year as int, month as int, day as int),
{
    let mut prefs = DateTimeFormatterPreferences::from(Locale::try_from_str(locale).ok()?);
    prefs.calendar_algorithm = Some(CalendarAlgorithm::Persian);
    let formatter = DateTimeFormatter::try_new(prefs, YMD::long()).ok()?;
    let gregorian = IcuDate::try_new_gregorian(year, month, day).ok()?;
    let date = gregorian.to_calendar(Persian);
    let time = Time::try_new(0, 0, 0, 0).ok()?;
    Some(formatter.format(&IcuDateTime { date, time }).to_string())
}

} // verus!
