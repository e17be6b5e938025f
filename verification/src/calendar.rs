//! The calendar page.

use vstd::prelude::*;
use crate::controls::{icon_button, icon_row, IconButton, IconButtonView};
use crate::date::{
    calendar_first, date_at, days_after, get_calendar_first, law_calendar_first, law_date_at,
    law_every_ordinal, law_ordinal_bounds, max_ordinal, min_ordinal, ordinal_from_monday,
    weekday_of, Date, Weekday, Zoned,
};
use crate::datetime::{
    date_text, format_date, format_persian_date, format_short_weekday_time, format_weekday,
    opt_text, parse_locale, persian_date, persian_date_text, short_weekday_time_text, to_persian,
    weekday_text, DateTime, HourCycle, Length, PersianDate,
};
use crate::text::{
    after_last, clock_display_name, farsi_decimal, replaced, signed_decimal, signed_decimal_string,
    texts, to_farsi_digits,
};
use crate::window::{window_after, Message, Reading, Window, WindowView};

verus! {

broadcast use vstd::string::group_string_axioms;

/// How the button of a day looks.
#[derive(Clone, Copy, PartialEq, Eq, Structural, Debug)]
pub enum ButtonStyle {
    Suggested,
    Standard,
    Text,
}

/// The button of a day.
#[derive(Debug)]
pub struct DateButton {
    pub label: String,
    pub style: ButtonStyle,
    /// The day of the Persian calendar, below the label.
    pub farsi: Option<String>,
    pub on_press: Option<Message>,
}

/// What a `DateButton` holds.
pub struct DateButtonView {
    pub label: Seq<char>,
    pub style: ButtonStyle,
    pub farsi: Option<Seq<char>>,
    pub on_press: Option<Message>,
}

impl View for DateButton {
    type V = DateButtonView;

    open spec fn view(&self) -> DateButtonView {
        DateButtonView {
            label: self.label@,
            style: self.style,
            farsi: opt_text(self.farsi),
            on_press: self.on_press,
        }
    }
}

/// The button of day `day`. The selected day stands out, then today. Only the days of the
/// month on show can be pressed.
pub open spec fn date_button_view(
    day: i8,
    is_month: bool,
    is_day: bool,
    is_today: bool,
    persian_day: Option<u8>,
) -> DateButtonView {
    DateButtonView {
        label: signed_decimal(day as int),
        style: if is_day {
            ButtonStyle::Suggested
        } else if is_today {
            ButtonStyle::Standard
        } else {
            ButtonStyle::Text
        },
        farsi: match persian_day {
            Some(day) => Some(farsi_decimal(day as nat)),
            None => None,
        },
        on_press: if is_month {
            Some(Message::SelectDay(day))
        } else {
            None
        },
    }
}

/// The button of day `day`.
pub fn date_button(
    day: i8,
    is_month: bool,
    is_day: bool,
    is_today: bool,
    persian_day: Option<u8>,
) -> (button: DateButton)
    ensures
        button@ == date_button_view(day, is_month, is_day, is_today, persian_day),
{
    let style = if is_day {
        ButtonStyle::Suggested
    } else if is_today {
        ButtonStyle::Standard
    } else {
        ButtonStyle::Text
    };
    let farsi = match persian_day {
        Some(day) => Some(to_farsi_digits(day)),
        None => None,
    };
    let on_press = if is_month {
        Some(Message::SelectDay(day))
    } else {
        None
    };
    DateButton { label: signed_decimal_string(day), style, farsi, on_press }
}

/// The head of a column of the calendar.
#[derive(Debug)]
pub enum HeaderCell {
    Logo,
    Caption(String),
}

/// What a `HeaderCell` holds.
pub enum HeaderView {
    Logo,
    Caption(Seq<char>),
}

impl View for HeaderCell {
    type V = HeaderView;

    open spec fn view(&self) -> HeaderView {
        match self {
            HeaderCell::Logo => HeaderView::Logo,
            HeaderCell::Caption(text) => HeaderView::Caption(text@),
        }
    }
}

/// The calendar of a month, seven days to a week.
#[derive(Debug)]
pub struct CalendarGrid {
    pub header: Vec<HeaderCell>,
    pub weeks: Vec<Vec<DateButton>>,
}

/// What a `CalendarGrid` holds.
#[verifier::ext_equal]
pub struct GridView {
    pub header: Seq<HeaderView>,
    pub weeks: Seq<Seq<DateButtonView>>,
}

/// What a row of buttons holds.
pub open spec fn buttons(row: Seq<DateButton>) -> Seq<DateButtonView> {
    row.map_values(|b: DateButton| b@)
}

impl View for CalendarGrid {
    type V = GridView;

    open spec fn view(&self) -> GridView {
        GridView {
            header: self.header@.map_values(|h: HeaderCell| h@),
            weeks: self.weeks@.map_values(|w: Vec<DateButton>| buttons(w@)),
        }
    }
}

/// A date with the time of day of `time`.
pub open spec fn datetime_of(date: Date, time: Zoned) -> DateTime {
    DateTime {
        year: date.year as i32,
        month: date.month as u8,
        day: date.day as u8,
        hour: time.hour as u8,
        minute: time.minute as u8,
        second: time.second as u8,
    }
}

/// The weekday of a date in the words of a locale.
pub open spec fn weekday_text_of(locale: Seq<char>, length: Length, date: Date) -> Option<
    Seq<char>,
> {
    weekday_text(locale, length, date.year as int, date.month as int, date.day as int)
}

/// A date in the words of a locale.
pub open spec fn date_text_of(locale: Seq<char>, date: Date) -> Option<Seq<char>> {
    date_text(locale, date.year as int, date.month as int, date.day as int)
}

/// The date of the Persian calendar on which a date falls.
pub open spec fn persian_date_of(date: Date) -> Option<PersianDate> {
    persian_date(date.year as int, date.month as int, date.day as int)
}

/// The day of the Persian calendar on which a date falls.
pub open spec fn persian_day_of(date: Date) -> Option<u8> {
    match persian_date_of(date) {
        Some(persian) => Some(persian.day),
        None => None,
    }
}

impl WindowView {
    /// The day with which a week starts.
    pub open spec fn first_weekday(self) -> Weekday {
        if self.config.show_persian_calendar {
            Weekday::Friday
        } else if self.config.first_day_of_week == 0 {
            Weekday::Monday
        } else if self.config.first_day_of_week == 1 {
            Weekday::Tuesday
        } else if self.config.first_day_of_week == 2 {
            Weekday::Wednesday
        } else if self.config.first_day_of_week == 3 {
            Weekday::Thursday
        } else if self.config.first_day_of_week == 4 {
            Weekday::Friday
        } else if self.config.first_day_of_week == 5 {
            Weekday::Saturday
        } else {
            Weekday::Sunday
        }
    }

    /// The ordinal of the first day of the calendar.
    pub open spec fn grid_start(self) -> int {
        calendar_first(self.date_selected.month_start(), self.first_weekday())
    }

    /// The date at position `index` of the calendar.
    pub open spec fn grid_date(self, index: int) -> Date {
        date_at(self.grid_start() + index)
    }

    /// The caption of the column of `date`.
    pub open spec fn caption(self, date: Date) -> Option<Seq<char>> {
        weekday_text_of(self.locale, Length::Short, date)
    }

    /// The head of the column of `date`. Tuesdays have the logo.
    pub open spec fn header_cell(self, date: Date) -> HeaderView {
        if ordinal_from_monday(date.ordinal()) == Weekday::Tuesday.from_monday() {
            HeaderView::Logo
        } else {
            HeaderView::Caption(self.caption(date)->0)
        }
    }

    /// The head of the column of `date` can be written.
    pub open spec fn has_header_cell(self, date: Date) -> bool {
        ordinal_from_monday(date.ordinal()) == Weekday::Tuesday.from_monday() || self.caption(
            date,
        ) is Some
    }

    /// The button of `date`.
    pub open spec fn day_cell(self, date: Date) -> DateButtonView {
        date_button_view(
            date.day,
            date.month_start() == self.date_selected.month_start(),
            date == self.date_selected,
            date == self.date_today,
            if self.config.show_persian_calendar {
                persian_day_of(date)
            } else {
                None
            },
        )
    }

    /// The button of `date` can be written.
    pub open spec fn has_day_cell(self, date: Date) -> bool {
        self.config.show_persian_calendar ==> persian_day_of(date) is Some
    }

    /// The calendar of the selected month: the weekdays, and six weeks of days.
    pub open spec fn calendar_grid(self) -> GridView {
        GridView {
            header: Seq::new(7, |i: int| self.header_cell(self.grid_date(i))),
            weeks: Seq::new(
                6,
                |w: int| Seq::new(7, |i: int| self.day_cell(self.grid_date(7 * w + i))),
            ),
        }
    }

    /// Every date of the calendar exists.
    pub open spec fn has_grid_dates(self) -> bool {
        min_ordinal() <= self.grid_start() && self.grid_start() + 41 <= max_ordinal()
    }

    /// Every date of the calendar exists, and the texts for them can be written.
    pub open spec fn has_calendar_grid(self) -> bool {
        &&& self.has_grid_dates()
        &&& forall|i: int| 0 <= i < 7 ==> self.has_header_cell(#[trigger] self.grid_date(i))
        &&& forall|i: int| 0 <= i < 42 ==> self.has_day_cell(#[trigger] self.grid_date(i))
    }
}

impl Window {
    /// `date` with the time of day of the applet.
    pub fn create_datetime(&self, date: &Date) -> (datetime: DateTime)
        requires
            self@.wf(),
            date.valid(),
        ensures
            datetime == datetime_of(*date, self@.now),
    {
        DateTime {
            year: date.year as i32,
            month: date.month as u8,
            day: date.day as u8,
            hour: self.now.hour as u8,
            minute: self.now.minute as u8,
            second: self.now.second as u8,
        }
    }

    /// The date and time that a clock shows.
    pub fn create_datetime_for_zoned(&self, zoned: &Zoned) -> (datetime: DateTime)
        requires
            zoned.valid(),
        ensures
            datetime == datetime_of(zoned.date, *zoned),
    {
        DateTime {
            year: zoned.date.year as i32,
            month: zoned.date.month as u8,
            day: zoned.date.day as u8,
            hour: zoned.hour as u8,
            minute: zoned.minute as u8,
            second: zoned.second as u8,
        }
    }

    fn first_weekday(&self) -> (weekday: Weekday)
        ensures
            weekday == self@.first_weekday(),
    {
        if self.config.show_persian_calendar {
            Weekday::Friday
        } else {
            match self.config.first_day_of_week {
                0 => Weekday::Monday,
                1 => Weekday::Tuesday,
                2 => Weekday::Wednesday,
                3 => Weekday::Thursday,
                4 => Weekday::Friday,
                5 => Weekday::Saturday,
                _ => Weekday::Sunday,
            }
        }
    }

    fn header_cell(&self, date: Date) -> (cell: Option<HeaderCell>)
        requires
            self@.wf(),
            date.valid(),
        ensures
            cell is Some <==> self@.has_header_cell(date),
            cell matches Some(c) ==> c@ == self@.header_cell(date),
    {
        if weekday_of(date) == Weekday::Tuesday {
            Some(HeaderCell::Logo)
        } else {
            let datetime = self.create_datetime(&date);
            match format_weekday(self.locale.as_str(), Length::Short, datetime) {
                Some(text) => Some(HeaderCell::Caption(text)),
                None => None,
            }
        }
    }

    fn day_cell(&self, date: Date) -> (cell: Option<DateButton>)
        requires
            self@.wf(),
            date.valid(),
        ensures
            cell is Some <==> self@.has_day_cell(date),
            cell matches Some(c) ==> c@ == self@.day_cell(date),
    {
        let is_month = date.year == self.date_selected.year && date.month
            == self.date_selected.month;
        let is_day = date == self.date_selected;
        let is_today = date == self.date_today;
        let persian_day = if self.config.show_persian_calendar {
            match self.date_to_persian_icu(&date) {
                Some(persian) => Some(persian.day),
                None => {
                    return None;
                },
            }
        } else {
            None
        };
        Some(date_button(date.day, is_month, is_day, is_today, persian_day))
    }

    /// The date of the Persian calendar on which a date falls.
    pub fn date_to_persian_icu(&self, date: &Date) -> (persian: Option<PersianDate>)
        requires
            date.valid(),
        ensures
            persian == persian_date_of(*date),
    {
        to_persian(date.year as i32, date.month as u8, date.day as u8)
    }

    /// Seven days of the calendar from `first` on, of which the first is at position
    /// `start`.
    fn week(&self, first: Date, start: i32) -> (row: Option<Vec<DateButton>>)
        requires
            self@.wf(),
            first.valid(),
            first.ordinal() == self@.grid_start(),
            first.ordinal() + 41 <= max_ordinal(),
            0 <= start <= 35,
        ensures
            row is Some <==> forall|i: int|
                start <= i < start + 7 ==> self@.has_day_cell(#[trigger] self@.grid_date(i)),
            row matches Some(r) ==> buttons(r@) == Seq::new(
                7,
                |i: int| self@.day_cell(self@.grid_date(start + i)),
            ),
    {
        let mut row: Vec<DateButton> = Vec::new();
        let mut i: i32 = 0;
        while i < 7
            invariant
                self@.wf(),
                first.valid(),
                first.ordinal() == self@.grid_start(),
                first.ordinal() + 41 <= max_ordinal(),
                0 <= start <= 35,
                0 <= i <= 7,
                row.len() == i,
                forall|j: int|
                    start <= j < start + i ==> self@.has_day_cell(#[trigger] self@.grid_date(j)),
                forall|j: int|
                    0 <= j < i ==> (#[trigger] row@[j])@ == self@.day_cell(
                        self@.grid_date(start + j),
                    ),
            decreases 7 - i,
        {
            proof {
                law_ordinal_bounds(first);
            }
            let date = match days_after(first, start + i) {
                Some(date) => date,
                None => {
                    return None;
                },
            };
            assert(date == self@.grid_date(start + i));
            match self.day_cell(date) {
                Some(cell) => row.push(cell),
                None => {
                    return None;
                },
            }
            i += 1;
        }
        assert(buttons(row@) == Seq::new(7, |i: int| self@.day_cell(self@.grid_date(start + i))));
        Some(row)
    }

    /// The calendar of the selected month, `None` where it would need a date that does not
    /// exist or a text that cannot be written.
    pub fn calendar_grid(&self) -> (grid: Option<CalendarGrid>)
        requires
            self@.wf(),
        ensures
            grid is Some <==> self@.has_calendar_grid(),
            grid matches Some(g) ==> g@ == self@.calendar_grid(),
    {
        let first_day = match get_calendar_first(
            self.date_selected.year,
            self.date_selected.month,
            self.first_weekday(),
        ) {
            Some(date) => date,
            None => {
                return None;
            },
        };
        assert(first_day.ordinal() == self@.grid_start());
        if days_after(first_day, 41).is_none() {
            proof {
                law_ordinal_bounds(first_day);
            }
            return None;
        }
        let mut header: Vec<HeaderCell> = Vec::new();
        let mut i: i32 = 0;
        while i < 7
            invariant
                self@.wf(),
                first_day.valid(),
                first_day.ordinal() == self@.grid_start(),
                min_ordinal() <= first_day.ordinal(),
                first_day.ordinal() + 41 <= max_ordinal(),
                0 <= i <= 7,
                header.len() == i,
                forall|j: int|
                    0 <= j < i ==> self@.has_header_cell(#[trigger] self@.grid_date(j)),
                forall|j: int|
                    0 <= j < i ==> (#[trigger] header@[j])@ == self@.header_cell(
                        self@.grid_date(j),
                    ),
            decreases 7 - i,
        {
            let date = match days_after(first_day, i) {
                Some(date) => date,
                None => {
                    return None;
                },
            };
            assert(date == self@.grid_date(i as int));
            match self.header_cell(date) {
                Some(cell) => header.push(cell),
                None => {
                    return None;
                },
            }
            i += 1;
        }
        let mut weeks: Vec<Vec<DateButton>> = Vec::new();
        let mut w: i32 = 0;
        while w < 6
            invariant
                self@.wf(),
                first_day.valid(),
                first_day.ordinal() == self@.grid_start(),
                first_day.ordinal() + 41 <= max_ordinal(),
                0 <= w <= 6,
                weeks.len() == w,
                forall|j: int|
                    0 <= j < 7 * w ==> self@.has_day_cell(#[trigger] self@.grid_date(j)),
                forall|v: int|
                    0 <= v < w ==> buttons((#[trigger] weeks@[v])@) == Seq::new(
                        7,
                        |i: int| self@.day_cell(self@.grid_date(7 * v + i)),
                    ),
            decreases 6 - w,
        {
            match self.week(first_day, 7 * w) {
                Some(row) => weeks.push(row),
                None => {
                    return None;
                },
            }
            w += 1;
        }
        let grid = CalendarGrid { header, weeks };
        assert(grid@.header == self@.calendar_grid().header);
        assert(grid@.weeks == self@.calendar_grid().weeks);
        Some(grid)
    }
}

/// The name of a time zone's place, as in "New York".
pub open spec fn place_name(tz_name: Seq<char>) -> Seq<char> {
    replaced(after_last(tz_name, '/'), '_', ' ')
}

/// A clock of another time zone.
#[derive(Debug)]
pub struct ClockRow {
    pub label: String,
    pub time: String,
}

/// What a `ClockRow` holds.
pub struct ClockRowView {
    pub label: Seq<char>,
    pub time: Seq<char>,
}

impl View for ClockRow {
    type V = ClockRowView;

    open spec fn view(&self) -> ClockRowView {
        ClockRowView { label: self.label@, time: self.time@ }
    }
}

/// The rows of the clocks `names` that have a time, in order.
pub open spec fn clock_row_views(names: Seq<Seq<char>>, times: Seq<Option<Seq<char>>>) -> Seq<
    ClockRowView,
>
    decreases times.len(),
{
    if times.len() == 0 {
        Seq::empty()
    } else {
        let rest = clock_row_views(names, times.drop_last());
        match times.last() {
            Some(time) => rest.push(
                ClockRowView { label: place_name(names[times.len() - 1]).push(':'), time },
            ),
            None => rest,
        }
    }
}

/// What optional strings hold.
pub open spec fn opt_texts(strings: Seq<Option<String>>) -> Seq<Option<Seq<char>>> {
    strings.map_values(|s: Option<String>| opt_text(s))
}

/// What the rows of clocks hold.
pub open spec fn rows_of(rows: Seq<ClockRow>) -> Seq<ClockRowView> {
    rows.map_values(|r: ClockRow| r@)
}

/// The rows of the clocks `names` that have a time, in order.
pub fn clock_rows(names: &Vec<String>, times: Vec<Option<String>>) -> (rows: Vec<ClockRow>)
    requires
        names.len() == times.len(),
    ensures
        rows_of(rows@) == clock_row_views(texts(names@), opt_texts(times@)),
{
    let ghost all = opt_texts(times@);
    let mut rows: Vec<ClockRow> = Vec::new();
    let mut i: usize = 0;
    assert(rows_of(rows@) == clock_row_views(texts(names@), all.take(0)));
    while i < times.len()
        invariant
            i <= times.len(),
            names.len() == times.len(),
            all == opt_texts(times@),
            rows_of(rows@) == clock_row_views(texts(names@), all.take(i as int)),
        decreases times.len() - i,
    {
        let ghost before = rows@;
        assert(all.take(i + 1).drop_last() == all.take(i as int));
        if let Some(time) = &times[i] {
            let mut label = clock_display_name(names[i].as_str());
            label.push(':');
            rows.push(ClockRow { label, time: time.clone() });
            assert(rows_of(rows@) == rows_of(before).push(rows@.last()@));
        }
        i += 1;
    }
    assert(all.take(i as int) == all);
    rows
}

impl WindowView {
    /// How hours are counted.
    pub open spec fn hour_cycle(self) -> HourCycle {
        if self.config.military_time {
            HourCycle::H23
        } else {
            HourCycle::H12
        }
    }

    /// The weekday, the date and the time that a clock shows.
    pub open spec fn clock_time(self, zoned: Zoned) -> Option<Seq<char>> {
        short_weekday_time_text(
            self.locale,
            self.hour_cycle(),
            zoned.date.year as int,
            zoned.date.month as int,
            zoned.date.day as int,
            zoned.hour as int,
            zoned.minute as int,
        )
    }

    /// A date of the Persian calendar, in Persian.
    pub open spec fn shamsi_date(self, date: Date) -> Option<Seq<char>> {
        persian_date_text("fa"@, date.year as int, date.month as int, date.day as int)
    }

    /// The times of the clocks that have a reading.
    pub open spec fn clock_times(self, readings: Seq<Option<Zoned>>) -> Seq<Option<Seq<char>>> {
        readings.map_values(
            |r: Option<Zoned>|
                match r {
                    Some(zoned) => self.clock_time(zoned),
                    None => None,
                },
        )
    }

    /// The times of the clocks that have a reading can be written.
    pub open spec fn has_clock_times(self, readings: Seq<Option<Zoned>>) -> bool {
        forall|i: int|
            0 <= i < readings.len() && (#[trigger] readings[i]) is Some ==> self.clock_time(
                readings[i]->0,
            ) is Some
    }
}

impl Window {
    /// How hours are counted.
    pub fn hour_cycle(&self) -> (cycle: HourCycle)
        ensures
            cycle == self@.hour_cycle(),
    {
        if self.config.military_time {
            HourCycle::H23
        } else {
            HourCycle::H12
        }
    }

    /// The weekday, the date and the time that a clock shows.
    pub fn format_clock_time(&self, zoned: &Zoned) -> (text: Option<String>)
        requires
            zoned.valid(),
        ensures
            opt_text(text) == self@.clock_time(*zoned),
    {
        let datetime = self.create_datetime_for_zoned(zoned);
        format_short_weekday_time(self.locale.as_str(), self.hour_cycle(), datetime)
    }

    /// A date of the Persian calendar, in Persian.
    pub fn format_shamsi_date(&self, date: &Date) -> (text: Option<String>)
        requires
            date.valid(),
        ensures
            opt_text(text) == self@.shamsi_date(*date),
    {
        proof {
            reveal_strlit("fa");
        }
        let locale = match parse_locale("fa") {
            Some(tag) => tag,
            None => self.locale.clone(),
        };
        format_persian_date(locale.as_str(), date.year as i32, date.month as u8, date.day as u8)
    }

    /// The times of the clocks that have a reading, `None` where one cannot be written.
    pub fn clock_times(&self, readings: &Vec<Option<Zoned>>) -> (times: Option<Vec<Option<String>>>)
        requires
            forall|i: int| 0 <= i < readings.len() && (#[trigger] readings@[i]) is Some
                ==> readings@[i]->0.valid(),
        ensures
            times is Some <==> self@.has_clock_times(readings@),
            times matches Some(t) ==> opt_texts(t@) == self@.clock_times(readings@),
    {
        let mut times: Vec<Option<String>> = Vec::new();
        let mut i: usize = 0;
        while i < readings.len()
            invariant
                i <= readings.len(),
                forall|j: int| 0 <= j < readings.len() && (#[trigger] readings@[j]) is Some
                    ==> readings@[j]->0.valid(),
                times.len() == i,
                forall|j: int|
                    0 <= j < i && (#[trigger] readings@[j]) is Some ==> self@.clock_time(
                        readings@[j]->0,
                    ) is Some,
                forall|j: int|
                    0 <= j < i ==> opt_text(#[trigger] times@[j]) == self@.clock_times(
                        readings@,
                    )[j],
            decreases readings.len() - i,
        {
            match readings[i] {
                Some(zoned) => match self.format_clock_time(&zoned) {
                    Some(time) => times.push(Some(time)),
                    None => {
                        assert(readings@[i as int] is Some);
                        return None;
                    },
                },
                None => times.push(None),
            }
            i += 1;
        }
        assert(opt_texts(times@) == self@.clock_times(readings@));
        Some(times)
    }
}

/// The buttons that turn to another month.
pub open spec fn month_button_views() -> Seq<IconButtonView> {
    seq![
        IconButtonView { icon: "go-previous-symbolic"@, on_press: Message::PreviousMonth },
        IconButtonView { icon: "go-next-symbolic"@, on_press: Message::NextMonth },
    ]
}

/// The buttons that lead to the other pages.
pub open spec fn page_button_views() -> Seq<IconButtonView> {
    seq![
        IconButtonView {
            icon: "accessories-clock-symbolic"@,
            on_press: Message::ToggleStopwatch,
        },
        IconButtonView { icon: "alarm-symbolic"@, on_press: Message::ToggleTimer },
        IconButtonView {
            icon: "preferences-system-symbolic"@,
            on_press: Message::ToggleSettings,
        },
    ]
}

/// The buttons that turn to another month.
fn month_buttons() -> (buttons: Vec<IconButton>)
    ensures
        icon_row(buttons@) == month_button_views(),
{
    let buttons = vec![
        icon_button("go-previous-symbolic", Message::PreviousMonth),
        icon_button("go-next-symbolic", Message::NextMonth),
    ];
    assert(icon_row(buttons@) == month_button_views());
    buttons
}

/// The buttons that lead to the other pages.
fn page_buttons() -> (buttons: Vec<IconButton>)
    ensures
        icon_row(buttons@) == page_button_views(),
{
    let buttons = vec![
        icon_button("accessories-clock-symbolic", Message::ToggleStopwatch),
        icon_button("alarm-symbolic", Message::ToggleTimer),
        icon_button("preferences-system-symbolic", Message::ToggleSettings),
    ];
    assert(icon_row(buttons@) == page_button_views());
    buttons
}

/// The calendar page.
#[derive(Debug)]
pub struct CalendarPage {
    /// The buttons that turn to another month.
    pub month_buttons: Vec<IconButton>,
    /// The buttons that lead to the other pages.
    pub page_buttons: Vec<IconButton>,
    pub date: String,
    pub day_of_week: String,
    /// The date of the Persian calendar.
    pub shamsi: Option<String>,
    pub grid: CalendarGrid,
    /// There are clocks of other time zones.
    pub has_clocks: bool,
    pub clocks: Vec<ClockRow>,
}

impl WindowView {
    /// All texts of the calendar page can be written.
    pub open spec fn has_calendar_page(self, readings: Seq<Option<Zoned>>) -> bool {
        &&& date_text_of(self.locale, self.date_selected) is Some
        &&& weekday_text_of(self.locale, Length::Long, self.date_selected) is Some
        &&& self.config.show_persian_calendar ==> self.shamsi_date(self.date_selected) is Some
        &&& self.has_calendar_grid()
        &&& self.has_clock_times(readings)
    }
}

impl CalendarPage {
    /// The page shows the selected date of `window`, its month, and the clocks that have a
    /// reading.
    pub open spec fn shows(self, window: WindowView, readings: Seq<Option<Zoned>>) -> bool {
        &&& icon_row(self.month_buttons@) == month_button_views()
        &&& icon_row(self.page_buttons@) == page_button_views()
        &&& Some(self.date@) == date_text_of(window.locale, window.date_selected)
        &&& Some(self.day_of_week@) == weekday_text_of(
            window.locale,
            Length::Long,
            window.date_selected,
        )
        &&& opt_text(self.shamsi) == (if window.config.show_persian_calendar {
            window.shamsi_date(window.date_selected)
        } else {
            None
        })
        &&& self.grid@ == window.calendar_grid()
        &&& self.has_clocks == (window.config.additional_clocks.len() > 0)
        &&& rows_of(self.clocks@) == clock_row_views(
            window.config.additional_clocks,
            window.clock_times(readings),
        )
    }
}

impl Window {
    /// The calendar page: the selected date, its month, and the clocks, for which `readings`
    /// has the time where the time zone is known. `None` where a text cannot be written.
    pub fn calendar_view(&self, readings: &Vec<Option<Zoned>>) -> (page: Option<CalendarPage>)
        requires
            self@.wf(),
            readings.len() == self@.config.additional_clocks.len(),
            forall|i: int| 0 <= i < readings.len() && (#[trigger] readings@[i]) is Some
                ==> readings@[i]->0.valid(),
        ensures
            page is Some <==> self@.has_calendar_page(readings@),
            page matches Some(p) ==> p.shows(self@, readings@),
    {
        let datetime = self.create_datetime(&self.date_selected);
        let date = match format_date(self.locale.as_str(), datetime) {
            Some(text) => text,
            None => {
                return None;
            },
        };
        let day_of_week = match format_weekday(self.locale.as_str(), Length::Long, datetime) {
            Some(text) => text,
            None => {
                return None;
            },
        };
        let shamsi = if self.config.show_persian_calendar {
            match self.format_shamsi_date(&self.date_selected) {
                Some(text) => Some(text),
                None => {
                    return None;
                },
            }
        } else {
            None
        };
        let grid = match self.calendar_grid() {
            Some(grid) => grid,
            None => {
                return None;
            },
        };
        let times = match self.clock_times(readings) {
            Some(times) => times,
            None => {
                return None;
            },
        };
        assert(opt_texts(times@).len() == readings.len());
        let clocks = clock_rows(&self.config.additional_clocks, times);
        let has_clocks = self.config.additional_clocks.len() > 0;
        Some(
            CalendarPage {
                month_buttons: month_buttons(),
                page_buttons: page_buttons(),
                date,
                day_of_week,
                shamsi,
                grid,
                has_clocks,
                clocks,
            },
        )
    }
}

/// A clock of another time zone shows its time to the minute: what it reads does not change
/// with the second, nor with the time of the applet, and the hours are counted as the settings
/// say.
pub proof fn law_clock_to_the_minute(a: WindowView, b: WindowView, x: Zoned, y: Zoned)
    requires
        a.locale == b.locale,
        a.config.military_time == b.config.military_time,
        x.date == y.date,
        x.hour == y.hour,
        x.minute == y.minute,
    ensures
        a.clock_time(x) == b.clock_time(y),
        a.hour_cycle() == (if a.config.military_time {
            HourCycle::H23
        } else {
            HourCycle::H12
        }),
{
}

/// The date of the Persian calendar depends on the date alone, not on the locale, the settings
/// or the time of the applet.
pub proof fn law_shamsi_by_date(a: WindowView, b: WindowView, date: Date)
    ensures
        a.shamsi_date(date) == b.shamsi_date(date),
{
}

/// The calendar shows 42 days in a row, and each column has one weekday: its first one has
/// the weekday that weeks start with.
pub proof fn law_grid_in_a_row(window: WindowView, index: int)
    requires
        window.has_grid_dates(),
        0 <= index < 42,
    ensures
        window.grid_date(index).valid(),
        window.grid_date(index).ordinal() == window.grid_start() + index,
        ordinal_from_monday(window.grid_date(index).ordinal()) == (
        window.first_weekday().from_monday() + index) % 7,
        ordinal_from_monday(window.grid_date(index).ordinal()) == ordinal_from_monday(
            window.grid_date(index % 7).ordinal(),
        ),
{
    let start = window.grid_start();
    law_every_ordinal(start + index);
    law_every_ordinal(start + index % 7);
    assert((start - 1) % 7 == window.first_weekday().from_monday()) by {
        law_calendar_first(window.date_selected.month_start(), window.first_weekday());
    }
    lemma_week_position(start - 1, index);
}

/// A step by `index` days moves the weekday as a step by its remainder does.
proof fn lemma_week_position(start: int, index: int)
    requires
        0 <= index,
    ensures
        (start + index) % 7 == (start % 7 + index) % 7,
        (start + index) % 7 == (start + index % 7) % 7,
{
}

/// Every day of the selected month has one place in its calendar, and no more.
pub proof fn law_grid_shows_month(window: WindowView, day: i8)
    requires
        window.date_selected.valid(),
        window.has_grid_dates(),
        window.date_selected.day_of_same_month(day) is Some,
    ensures
        ({
            let date = window.date_selected.day_of_same_month(day)->0;
            let index = date.ordinal() - window.grid_start();
            &&& 0 <= index < 42
            &&& window.grid_date(index) == date
            &&& forall|i: int| 0 <= i < 42 && #[trigger] window.grid_date(i) == date ==> i == index
        }),
{
    let date = window.date_selected.day_of_same_month(day)->0;
    let index = date.ordinal() - window.grid_start();
    law_calendar_first(window.date_selected.month_start(), window.first_weekday());
    law_date_at(date);
    assert forall|i: int| 0 <= i < 42 && #[trigger] window.grid_date(i) == date implies i
        == index by {
        law_grid_in_a_row(window, i);
    }
}

/// Exactly the days of the selected month can be pressed, and the day that was pressed is
/// then the selected one.
pub proof fn law_press_selects(window: WindowView, index: int, reading: Reading)
    requires
        window.date_selected.valid(),
        window.has_grid_dates(),
        0 <= index < 42,
    ensures
        ({
            let date = window.grid_date(index);
            let pressed = window.day_cell(date).on_press;
            &&& pressed is Some <==> date.month_start() == window.date_selected.month_start()
            &&& pressed matches Some(message) ==> window_after(
                window,
                message,
                reading,
            ).date_selected == date
        }),
{
    law_grid_in_a_row(window, index);
}

/// One button of the calendar stands for the selected day.
pub proof fn law_one_day_selected(window: WindowView)
    requires
        window.date_selected.valid(),
        window.has_grid_dates(),
    ensures
        exists|i: int| 0 <= i < 42 && #[trigger] window.day_cell(window.grid_date(i)).style
            == ButtonStyle::Suggested,
        forall|i: int, j: int|
            0 <= i < 42 && 0 <= j < 42 && (#[trigger] window.day_cell(window.grid_date(i))).style
                == ButtonStyle::Suggested && (#[trigger] window.day_cell(
                window.grid_date(j),
            )).style == ButtonStyle::Suggested ==> i == j,
{
    let date = window.date_selected;
    let index = date.ordinal() - window.grid_start();
    law_grid_shows_month(window, date.day);
    assert(window.day_cell(window.grid_date(index)).style == ButtonStyle::Suggested);
}

} // verus!
