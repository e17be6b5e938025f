use day_applet::calendar::{clock_rows, date_button, ButtonStyle, HeaderCell};
use day_applet::config::TimeAppletConfig;
use day_applet::date::{Date, Zoned};
use day_applet::datetime::{DateTime, HourCycle, PersianDate};
use day_applet::window::{Message, Reading, Window};

fn config() -> TimeAppletConfig {
    TimeAppletConfig {
        military_time: false,
        show_seconds: false,
        first_day_of_week: 0,
        show_date_in_top_panel: true,
        show_weekday: false,
        additional_clocks: Vec::new(),
        show_persian_calendar: false,
    }
}

fn date(year: i16, month: i8, day: i8) -> Date {
    Date { year, month, day }
}

fn now() -> Zoned {
    Zoned { date: date(2024, 2, 29), hour: 13, minute: 5, second: 9 }
}

fn window(locale: &str) -> Window {
    Window::init(locale.to_string(), now(), config())
}

/// The window of a config on a date.
fn window_on(locale: &str, selected: Date, config: TimeAppletConfig) -> Window {
    Window::init(locale.to_string(), Zoned { date: selected, ..now() }, config)
}

fn persian() -> TimeAppletConfig {
    TimeAppletConfig { show_persian_calendar: true, ..config() }
}

fn send(window: &mut Window, message: Message) {
    let reading = Reading { instant: 0, now: now(), zoned: None, new_id: 1 };
    window.update(message, reading);
}

fn captions(window: &Window) -> Vec<String> {
    let grid = window.calendar_grid().expect("grid");
    grid.header
        .iter()
        .map(|cell| match cell {
            HeaderCell::Logo => "*".to_string(),
            HeaderCell::Caption(text) => text.clone(),
        })
        .collect()
}

fn labels(window: &Window) -> Vec<String> {
    let grid = window.calendar_grid().expect("grid");
    grid.weeks.iter().flatten().map(|b| b.label.clone()).collect()
}

#[test]
fn grid_shows_six_weeks() {
    let w = window("en-US");
    let grid = w.calendar_grid().expect("grid");
    assert_eq!(grid.header.len(), 7);
    assert_eq!(grid.weeks.len(), 6);
    assert!(grid.weeks.iter().all(|week| week.len() == 7));
    let labels = labels(&w);
    assert_eq!(labels[..5], ["29", "30", "31", "1", "2"]);
    assert_eq!(labels[31], "29");
    assert_eq!(labels[32], "1");
    assert_eq!(labels[41], "10");
}

#[test]
fn weeks_start_with_the_chosen_day() {
    let mut w = window("en-US");
    assert_eq!(captions(&w), ["Mon", "*", "Wed", "Thu", "Fri", "Sat", "Sun"]);
    send(&mut w, Message::SetFirstDayOfWeek(6));
    assert_eq!(captions(&w), ["Sun", "Mon", "*", "Wed", "Thu", "Fri", "Sat"]);
    assert_eq!(labels(&w)[0], "28");
    send(&mut w, Message::SetFirstDayOfWeek(200));
    assert_eq!(captions(&w)[0], "Sun");
    send(&mut w, Message::SetFirstDayOfWeek(3));
    assert_eq!(labels(&w)[0], "1");
    send(&mut w, Message::SetFirstDayOfWeek(1));
    assert_eq!(captions(&w)[0], "*");
}

#[test]
fn persian_weeks_start_on_friday() {
    let mut w = window("en-US");
    send(&mut w, Message::SetShowPersianCalendar(true));
    assert_eq!(captions(&w)[0], "Fri");
    assert_eq!(labels(&w)[0], "26");
}

#[test]
fn captions_are_in_the_words_of_the_locale() {
    assert_eq!(captions(&window("de-DE")), ["Mo", "*", "Mi", "Do", "Fr", "Sa", "So"]);
}

#[test]
fn selected_day_stands_out_before_today() {
    let mut w = window("en-US");
    send(&mut w, Message::SelectDay(14));
    let grid = w.calendar_grid().expect("grid");
    let suggested: Vec<&str> = grid
        .weeks
        .iter()
        .flatten()
        .filter(|b| b.style == ButtonStyle::Suggested)
        .map(|b| b.label.as_str())
        .collect();
    assert_eq!(suggested, ["14"]);
    let standard: Vec<&str> = grid
        .weeks
        .iter()
        .flatten()
        .filter(|b| b.style == ButtonStyle::Standard)
        .map(|b| b.label.as_str())
        .collect();
    assert_eq!(standard, ["29"]);
}

#[test]
fn days_of_the_month_can_be_pressed() {
    let mut w = window("en-US");
    let grid = w.calendar_grid().expect("grid");
    let mut pressed = 0;
    for button in grid.weeks.into_iter().flatten() {
        if let Some(message) = button.on_press {
            send(&mut w, message);
            pressed += 1;
            assert_eq!(w.date_selected(), date(2024, 2, pressed));
            assert_eq!(button.label, pressed.to_string());
        }
    }
    assert_eq!(pressed, 29);
}

#[test]
fn grid_ends_with_the_last_year() {
    let w = window_on("en-US", date(9999, 12, 1), config());
    assert!(w.calendar_grid().is_none());
    assert!(w.calendar_view(&Vec::new()).is_none());
    assert!(window_on("en-US", date(9999, 11, 1), config()).calendar_grid().is_some());
}

#[test]
fn unknown_locale_has_no_grid() {
    assert!(window("?").calendar_grid().is_none());
    assert!(window("?").calendar_view(&Vec::new()).is_none());
}

#[test]
fn persian_days_stand_below() {
    assert!(window("en-US").calendar_grid().expect("grid").weeks[0][0].farsi.is_none());
    let w = window_on("en-US", date(2024, 3, 1), persian());
    let grid = w.calendar_grid().expect("grid");
    let buttons: Vec<_> = grid.weeks.iter().flatten().collect();
    // Nowruz of the year 1403 was on 20 March 2024, a Wednesday; the leaf starts on the 1st.
    assert_eq!(buttons[19].label, "20");
    assert_eq!(buttons[19].farsi.as_deref(), Some("\u{06F1}"));
    assert_eq!(buttons[18].farsi.as_deref(), Some("\u{06F2}\u{06F9}"));
    assert_eq!(
        w.date_to_persian_icu(&date(2024, 3, 20)),
        Some(PersianDate { year: 1403, month: 1, day: 1 })
    );
    assert_eq!(
        w.date_to_persian_icu(&date(2024, 2, 29)),
        Some(PersianDate { year: 1402, month: 12, day: 10 })
    );
    assert_eq!(
        w.date_to_persian_icu(&date(1979, 2, 11)),
        Some(PersianDate { year: 1357, month: 11, day: 22 })
    );
}

#[test]
fn button_of_a_day() {
    let plain = date_button(5, false, false, false, None);
    assert_eq!(plain.label, "5");
    assert_eq!(plain.style, ButtonStyle::Text);
    assert!(plain.on_press.is_none() && plain.farsi.is_none());
    let today = date_button(12, true, false, true, Some(23));
    assert_eq!(today.style, ButtonStyle::Standard);
    assert_eq!(today.farsi.as_deref(), Some("\u{06F2}\u{06F3}"));
    assert!(matches!(today.on_press, Some(Message::SelectDay(12))));
    let selected = date_button(12, true, true, true, None);
    assert_eq!(selected.style, ButtonStyle::Suggested);
}

#[test]
fn datetimes_take_the_time_of_day_along() {
    let w = window("en-US");
    let expected = DateTime { year: 1999, month: 12, day: 31, hour: 13, minute: 5, second: 9 };
    assert_eq!(w.create_datetime(&date(1999, 12, 31)), expected);
    let zoned = Zoned { date: date(1999, 12, 31), hour: 1, minute: 2, second: 3 };
    let expected = DateTime { year: 1999, month: 12, day: 31, hour: 1, minute: 2, second: 3 };
    assert_eq!(w.create_datetime_for_zoned(&zoned), expected);
}

#[test]
fn clock_times_have_weekday_date_and_minutes() {
    let mut w = window("en-US");
    assert_eq!(w.hour_cycle(), HourCycle::H12);
    assert_eq!(w.format_clock_time(&now()).as_deref(), Some("Thu, 2/29, 1:05\u{202F}PM"));
    send(&mut w, Message::SetMilitaryTime(true));
    assert_eq!(w.hour_cycle(), HourCycle::H23);
    assert_eq!(w.format_clock_time(&now()).as_deref(), Some("Thu, 2/29, 13:05"));
    assert_eq!(window("?").format_clock_time(&now()), None);
}

#[test]
fn clock_times_do_not_change_with_the_second() {
    for locale in ["en-US", "de-DE", "fa-IR", "zh-TW"] {
        let w = window(locale);
        let morning = Zoned { date: date(1, 1, 1), hour: 0, minute: 0, second: 0 };
        let later = Window::init(locale.to_string(), morning, config());
        for hour in [0, 12, 13] {
            let a = Zoned { hour, minute: 0, second: 0, ..now() };
            let b = Zoned { hour, minute: 0, second: 59, ..now() };
            assert!(w.format_clock_time(&a).is_some());
            assert_eq!(w.format_clock_time(&a), later.format_clock_time(&b));
        }
    }
}

#[test]
fn shamsi_date_is_in_persian() {
    let text = window("en-US").format_shamsi_date(&date(2024, 3, 20)).expect("text");
    assert!(text.contains("\u{06F1}\u{06F4}\u{06F0}\u{06F3}"));
    assert!(text.contains("\u{0641}\u{0631}\u{0648}\u{0631}\u{062F}\u{06CC}\u{0646}"));
    assert_eq!(window("?").format_shamsi_date(&date(2024, 3, 20)), Some(text.clone()));
    let midnight = Zoned { hour: 0, ..now() };
    let mut other = Window::init("de-DE".to_string(), midnight, config());
    send(&mut other, Message::SetMilitaryTime(true));
    assert_eq!(other.format_shamsi_date(&date(2024, 3, 20)), Some(text));
}

#[test]
fn calendar_page_names_the_selected_date() {
    let mut w = window("en-US");
    send(&mut w, Message::SelectDay(14));
    let page = w.calendar_view(&Vec::new()).expect("page");
    assert_eq!(page.date, "February 14, 2024");
    assert_eq!(page.day_of_week, "Wednesday");
    assert_eq!(page.shamsi, None);
    assert!(!page.has_clocks && page.clocks.is_empty());
    assert_eq!(page.month_buttons.len(), 2);
    assert_eq!(page.month_buttons[0].icon, "go-previous-symbolic");
    assert!(matches!(page.month_buttons[0].on_press, Message::PreviousMonth));
    assert_eq!(page.month_buttons[1].icon, "go-next-symbolic");
    assert!(matches!(page.month_buttons[1].on_press, Message::NextMonth));
    assert_eq!(page.page_buttons.len(), 3);
    assert_eq!(page.page_buttons[0].icon, "accessories-clock-symbolic");
    assert!(matches!(page.page_buttons[0].on_press, Message::ToggleStopwatch));
    assert_eq!(page.page_buttons[1].icon, "alarm-symbolic");
    assert!(matches!(page.page_buttons[1].on_press, Message::ToggleTimer));
    assert_eq!(page.page_buttons[2].icon, "preferences-system-symbolic");
    assert!(matches!(page.page_buttons[2].on_press, Message::ToggleSettings));
    send(&mut w, Message::SetShowPersianCalendar(true));
    let page = w.calendar_view(&Vec::new()).expect("page");
    assert_eq!(page.shamsi, w.format_shamsi_date(&date(2024, 2, 14)));
}

#[test]
fn clocks_of_known_zones_are_listed() {
    let mut w = window("en-US");
    let additional_clocks =
        vec!["America/New_York".to_string(), "Nowhere/Zone".to_string(), "UTC".to_string()];
    send(&mut w, Message::ConfigChanged(TimeAppletConfig { additional_clocks, ..config() }));
    let utc = Zoned { date: date(2024, 3, 1), hour: 0, minute: 59, second: 0 };
    let page = w.calendar_view(&vec![Some(now()), None, Some(utc)]).expect("page");
    assert!(page.has_clocks);
    let rows: Vec<(&str, &str)> =
        page.clocks.iter().map(|r| (r.label.as_str(), r.time.as_str())).collect();
    assert_eq!(
        rows,
        [
            ("New York:", "Thu, 2/29, 1:05\u{202F}PM"),
            ("UTC:", "Fri, 3/1, 12:59\u{202F}AM"),
        ]
    );
}

#[test]
fn clock_times_of_an_unknown_locale() {
    assert_eq!(window("?").clock_times(&vec![None]), Some(vec![None]));
    assert_eq!(window("?").clock_times(&vec![Some(now())]), None);
}

#[test]
fn rows_need_a_time() {
    let names = vec!["Asia/Tokyo".to_string(), "UTC".to_string()];
    let rows = clock_rows(&names, vec![None, Some("12:00".to_string())]);
    assert_eq!(rows.len(), 1);
    assert_eq!(rows[0].label, "UTC:");
    assert_eq!(rows[0].time, "12:00");
}

#[test]
fn first_and_last_years_can_be_shown() {
    for (year, month) in [(-9999, 2), (-622, 6), (-1, 1), (0, 12), (1, 1), (621, 3), (9999, 11)] {
        let w = window_on("en-US", date(year, month, 1), persian());
        let page = w.calendar_view(&Vec::new()).expect("page");
        let farsi: Vec<_> = page.grid.weeks.iter().flatten().map(|b| b.farsi.clone()).collect();
        assert!(farsi.iter().all(|f| f.is_some()));
        assert!(page.shamsi.is_some());
    }
}

#[test]
fn locales_with_another_calendar_can_be_shown() {
    for locale in ["fa-IR", "th-TH", "ar-EG-u-ca-islamic-civil", "ja-JP-u-ca-japanese", "he-u-ca-hebrew"] {
        let w = window_on(locale, date(2024, 2, 29), persian());
        assert!(w.calendar_view(&vec![]).is_some());
        assert!(w.horizontal_layout().is_some());
        assert!(w.vertical_layout().is_some());
    }
}
