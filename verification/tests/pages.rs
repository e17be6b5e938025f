use day_applet::cities::CityEntry;
use day_applet::config::{Setting, TimeAppletConfig};
use day_applet::date::{Date, Zoned};
use day_applet::pages::{Button, PopupPage, Scroll};
use day_applet::panel::{TextClass, TextColor};
use day_applet::readout::{CENTISECOND, SECOND};
use day_applet::controls::PageHeader;
use day_applet::settings::SettingsContent;
use day_applet::window::{Message, Page, Reading, SettingsTab, Window};

fn config() -> TimeAppletConfig {
    TimeAppletConfig {
        military_time: true,
        show_seconds: false,
        first_day_of_week: 6,
        show_date_in_top_panel: true,
        show_weekday: false,
        additional_clocks: Vec::new(),
        show_persian_calendar: false,
    }
}

fn now() -> Zoned {
    let date = Date { year: 2024, month: 2, day: 29 };
    Zoned { date, hour: 13, minute: 5, second: 9 }
}

fn window() -> Window {
    Window::init("en-US".to_string(), now(), config())
}

fn send(window: &mut Window, message: Message, instant: u128) {
    window.update(message, Reading { instant, now: now(), zoned: None, new_id: 1 });
}

fn assert_header(header: &PageHeader, title: &str) {
    assert_eq!(header.title, title);
    assert_eq!(header.back.icon, "go-previous-symbolic");
}

fn buttons(row: &[Button]) -> Vec<(&str, bool, bool)> {
    row.iter().map(|b| (b.label.as_str(), b.suggested, b.on_press.is_some())).collect()
}

#[test]
fn idle_timer_can_be_set_and_started() {
    let w = window();
    let page = w.timer_view(0);
    assert_header(&page.header, "Timer");
    assert!(matches!(page.header.back.on_press, Message::ToggleTimer));
    assert_eq!(page.heading, None);
    assert_eq!(page.readout, "05:00");
    assert_eq!(page.class, TextClass::Default);
    assert_eq!(buttons(&page.controls), [("Reset", false, false), ("Start", true, true)]);
    let steppers = page.steppers.expect("steppers");
    let rows: Vec<(&str, &str, i64)> =
        steppers.iter().map(|s| (s.label.as_str(), s.value.as_str(), s.step)).collect();
    assert_eq!(rows, [("hr", "00", 3600), ("min", "05", 60), ("sec", "00", 1)]);
}

#[test]
fn steppers_show_hours_minutes_and_seconds() {
    let mut w = window();
    send(&mut w, Message::TimerAdd(i64::MAX), 0);
    send(&mut w, Message::TimerAdd(-1), 0);
    let values: Vec<String> = w.timer_steppers().into_iter().map(|s| s.value).collect();
    assert_eq!(values, ["98", "59", "59"]);
}

#[test]
fn steppers_step_up_and_down() {
    let steppers = window().timer_steppers();
    let minutes = &steppers[1];
    assert!(matches!(minutes.on_press_up(), Message::TimerHoldStart(60)));
    assert!(matches!(minutes.on_press_down(), Message::TimerHoldStart(-60)));
    assert!(matches!(minutes.on_scroll(Scroll::Up), Message::TimerAdd(60)));
    assert!(matches!(minutes.on_scroll(Scroll::Down), Message::TimerAdd(-60)));
    assert!(matches!(minutes.on_scroll(Scroll::Still), Message::TimerAdd(0)));
}

#[test]
fn empty_timer_cannot_be_started() {
    let mut w = window();
    send(&mut w, Message::TimerAdd(-300), 0);
    let page = w.timer_view(0);
    assert_eq!(page.readout, "00:00");
    assert_eq!(buttons(&page.controls), [("Reset", false, false), ("Start", true, false)]);
}

#[test]
fn running_timer_can_be_paused_and_reset() {
    let mut w = window();
    send(&mut w, Message::TimerStartPause, 0);
    let page = w.timer_view(295 * SECOND);
    assert_eq!(page.readout, "00:05");
    assert_eq!(page.class, TextClass::Color(TextColor::Red));
    assert!(page.steppers.is_none());
    assert_eq!(buttons(&page.controls), [("Reset", false, true), ("Pause", true, true)]);
    assert!(matches!(page.controls[0].on_press, Some(Message::TimerReset)));
    assert!(matches!(page.controls[1].on_press, Some(Message::TimerStartPause)));
    let over = w.timer_view(400 * SECOND);
    assert_eq!(buttons(&over.controls), [("Reset", false, true), ("Pause", true, true)]);
}

#[test]
fn paused_timer_can_be_resumed_and_reset() {
    let mut w = window();
    send(&mut w, Message::TimerStartPause, 0);
    send(&mut w, Message::TimerStartPause, 210 * SECOND);
    let page = w.timer_view(0);
    assert_eq!(page.readout, "01:30");
    assert!(page.steppers.is_none());
    assert_eq!(buttons(&page.controls), [("Reset", false, true), ("Start", true, true)]);
}

#[test]
fn finished_timer_can_only_be_dismissed() {
    let mut w = window();
    send(&mut w, Message::TimerStartPause, 0);
    send(&mut w, Message::FastTick, 300 * SECOND);
    let page = w.timer_view(300 * SECOND + SECOND / 2);
    assert_eq!(page.heading.as_deref(), Some("Time's up"));
    assert_eq!(page.readout, "00:00");
    assert_eq!(page.class, TextClass::Color(TextColor::Transparent));
    assert!(page.steppers.is_none());
    assert_eq!(buttons(&page.controls), [("Dismiss", true, true)]);
    assert!(matches!(page.controls[0].on_press, Some(Message::TimerReset)));
}

#[test]
fn fresh_stopwatch_can_only_be_started() {
    let page = window().stopwatch_view(0);
    assert_header(&page.header, "Stopwatch");
    assert!(matches!(page.header.back.on_press, Message::ToggleStopwatch));
    assert_eq!(page.readout, "00:00.00");
    assert_eq!(buttons(&page.controls), [("Reset", false, false), ("Start", true, true)]);
    assert!(page.laps.is_empty());
}

#[test]
fn running_stopwatch_takes_laps() {
    let mut w = window();
    send(&mut w, Message::StopwatchStartPause, 0);
    send(&mut w, Message::StopwatchLap, 3 * SECOND);
    send(&mut w, Message::StopwatchLap, 62 * SECOND + 7 * CENTISECOND);
    let page = w.stopwatch_view(83 * SECOND + 45 * CENTISECOND);
    assert_eq!(page.readout, "01:23.45");
    assert_eq!(buttons(&page.controls), [("Lap", false, true), ("Pause", true, true)]);
    assert!(matches!(page.controls[0].on_press, Some(Message::StopwatchLap)));
    assert!(matches!(page.controls[1].on_press, Some(Message::StopwatchStartPause)));
    let laps: Vec<(&str, &str)> =
        page.laps.iter().map(|l| (l.label.as_str(), l.time.as_str())).collect();
    assert_eq!(laps, [("Lap 1", "00:03.00"), ("Lap 2", "01:02.07")]);
}

#[test]
fn paused_stopwatch_can_be_reset() {
    let mut w = window();
    send(&mut w, Message::StopwatchStartPause, 0);
    send(&mut w, Message::StopwatchStartPause, 1);
    let page = w.stopwatch_view(0);
    assert_eq!(buttons(&page.controls), [("Reset", false, true), ("Start", true, true)]);
    assert!(matches!(page.controls[0].on_press, Some(Message::StopwatchReset)));
}

#[test]
fn popup_shows_the_page() {
    let mut w = window();
    assert!(matches!(w.view_window(&Vec::new(), 0), Some(PopupPage::Calendar(_))));
    send(&mut w, Message::ToggleSettings, 0);
    assert_eq!(w.page(), Page::Settings);
    assert!(matches!(w.view_window(&Vec::new(), 0), Some(PopupPage::Settings(_))));
    send(&mut w, Message::ToggleStopwatch, 0);
    assert!(matches!(w.view_window(&Vec::new(), 0), Some(PopupPage::Stopwatch(_))));
    send(&mut w, Message::ToggleTimer, 0);
    assert!(matches!(w.view_window(&Vec::new(), 0), Some(PopupPage::Timer(_))));
}

#[test]
fn only_the_calendar_needs_a_locale() {
    let mut w = Window::init("?".to_string(), now(), config());
    assert!(w.view_window(&Vec::new(), 0).is_none());
    send(&mut w, Message::ToggleTimer, 0);
    assert!(w.view_window(&Vec::new(), 0).is_some());
}

#[test]
fn closed_windows_are_told() {
    assert!(matches!(window().on_close_requested(3), Some(Message::CloseRequested(3))));
}

#[test]
fn general_settings_show_the_values() {
    let w = window();
    let page = w.settings_view();
    assert_header(&page.header, "Settings");
    assert!(matches!(page.header.back.on_press, Message::ToggleSettings));
    let settings = match page.content {
        SettingsContent::General(settings) => settings,
        other => panic!("{other:?}"),
    };
    let panel: Vec<(&str, Setting, bool)> =
        settings.panel.iter().map(|r| (r.label.as_str(), r.setting, r.value)).collect();
    assert_eq!(
        panel,
        [
            ("Show date in panel", Setting::ShowDate, true),
            ("Show weekday", Setting::ShowWeekday, false),
        ]
    );
    let time: Vec<(&str, Setting, bool)> =
        settings.time.iter().map(|r| (r.label.as_str(), r.setting, r.value)).collect();
    assert_eq!(
        time,
        [
            ("24-hour time", Setting::MilitaryTime, true),
            ("Show seconds", Setting::ShowSeconds, false),
        ]
    );
    assert_eq!(settings.first_day, 6);
    assert_eq!(settings.first_day_options[settings.first_day], "Sunday");
    assert_eq!(settings.first_day_options[0], "Monday");
    assert_eq!(settings.first_day_options.len(), 7);
    for index in 0..7 {
        match settings.on_first_day(index) {
            Message::SetFirstDayOfWeek(chosen) => assert_eq!(chosen, index),
            other => panic!("{other:?}"),
        }
    }
    assert!(matches!(settings.panel[0].on_toggle(false), Message::SetShowDate(false)));
    assert!(matches!(settings.panel[1].on_toggle(true), Message::SetShowWeekday(true)));
    assert!(matches!(settings.time[0].on_toggle(false), Message::SetMilitaryTime(false)));
    assert!(matches!(settings.time[1].on_toggle(true), Message::SetShowSeconds(true)));
}

#[test]
fn a_city_that_was_searched_for_is_selected() {
    let tokyo = CityEntry {
        city: "Tokyo".to_string(),
        timezone: "Asia/Tokyo".to_string(),
        country: "Japan".to_string(),
    };
    match window().clocks_settings().on_select(tokyo.clone()) {
        Message::SelectCity(entry) => assert_eq!(entry, tokyo),
        other => panic!("{other:?}"),
    }
}

#[test]
fn switches_send_their_messages() {
    assert!(matches!(Setting::MilitaryTime.message(true), Message::SetMilitaryTime(true)));
    assert!(matches!(Setting::ShowSeconds.message(false), Message::SetShowSeconds(false)));
    assert!(matches!(Setting::ShowDate.message(true), Message::SetShowDate(true)));
    assert!(matches!(Setting::ShowWeekday.message(true), Message::SetShowWeekday(true)));
    assert!(matches!(
        Setting::PersianCalendar.message(true),
        Message::SetShowPersianCalendar(true)
    ));
}

#[test]
fn clocks_can_be_removed() {
    let mut w = window();
    send(&mut w, Message::TabActivated(SettingsTab::Clocks), 0);
    let empty = w.clocks_settings();
    assert_eq!(empty.note.as_deref(), Some("No clocks added yet"));
    assert!(empty.clocks.is_empty());
    let additional_clocks = vec!["UTC".to_string(), "America/New_York".to_string()];
    send(&mut w, Message::ConfigChanged(TimeAppletConfig { additional_clocks, ..config() }), 0);
    let settings = match w.settings_view().content {
        SettingsContent::Clocks(settings) => settings,
        other => panic!("{other:?}"),
    };
    assert_eq!(settings.note, None);
    assert_eq!(settings.clocks[0].place, "UTC");
    assert_eq!(settings.clocks[1].place, "New York");
    assert_eq!(settings.clocks[1].timezone, "America/New_York");
    assert!(matches!(settings.clocks[1].on_remove, Message::RemoveClock(1)));
}

#[test]
fn persian_calendar_can_be_switched_on() {
    let mut w = window();
    send(&mut w, Message::TabActivated(SettingsTab::Calendar), 0);
    let settings = match w.settings_view().content {
        SettingsContent::Calendar(settings) => settings,
        other => panic!("{other:?}"),
    };
    assert_eq!(settings.persian.label, "Persian (Shamsi)");
    assert_eq!(settings.persian.setting, Setting::PersianCalendar);
    assert!(!settings.persian.value);
    assert_eq!(settings.note, "Solar Hijri / Jalali calendar");
}

#[test]
fn settings_are_set_one_by_one() {
    let mut config = config();
    config.set(Setting::ShowSeconds, true);
    assert!(config.show_seconds && config.military_time && !config.show_weekday);
    config.set(Setting::MilitaryTime, false);
    config.set(Setting::ShowDate, false);
    config.set(Setting::ShowWeekday, true);
    config.set(Setting::PersianCalendar, true);
    assert!(!config.military_time && !config.show_date_in_top_panel);
    assert!(config.show_weekday && config.show_persian_calendar && config.show_seconds);
}
