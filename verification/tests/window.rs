use day_applet::cities::CityEntry;
use day_applet::config::TimeAppletConfig;
use day_applet::date::{Date, Zoned};
use day_applet::panel::TextColor;
use day_applet::readout::SECOND;
use day_applet::subscription::Source;
use day_applet::window::{
    timer_notification, Effects, Message, Page, Reading, Rectangle, RectangleUpdate, SettingsTab,
    Task, TokenUpdate, Window, DURATION_MAX,
};

fn config() -> TimeAppletConfig {
    TimeAppletConfig {
        military_time: false,
        show_seconds: false,
        first_day_of_week: 6,
        show_date_in_top_panel: true,
        show_weekday: false,
        additional_clocks: Vec::new(),
        show_persian_calendar: false,
    }
}

fn date(year: i16, month: i8, day: i8) -> Date {
    Date { year, month, day }
}

fn noon(date: Date) -> Zoned {
    Zoned { date, hour: 12, minute: 0, second: 0 }
}

fn window() -> Window {
    Window::init("en-US".to_string(), noon(date(2024, 2, 29)), config())
}

fn on(date: Date) -> Window {
    Window::init("en-US".to_string(), noon(date), config())
}

fn at(instant: u128) -> Reading {
    Reading { instant, now: noon(date(2024, 3, 1)), zoned: None, new_id: 7 }
}

fn send(window: &mut Window, message: Message, seconds: u128) -> Effects {
    window.update(message, at(seconds * SECOND))
}

fn is_nothing(effects: &Effects) -> bool {
    effects.tick.is_none()
        && effects.hold.is_none()
        && effects.show_seconds.is_none()
        && !effects.save_config
        && !effects.reset_city_search
        && !effects.invalid_date
        && matches!(effects.task, Task::Nothing)
}

fn city(timezone: &str) -> Message {
    Message::SelectCity(CityEntry {
        city: "City".to_string(),
        timezone: timezone.to_string(),
        country: "Country".to_string(),
    })
}

#[test]
fn applet_starts_idle() {
    let w = window();
    assert_eq!(w.popup(), None);
    assert_eq!(w.page(), Page::Calendar);
    assert_eq!(w.active_tab(), SettingsTab::General);
    assert_eq!(w.timer_duration(), 300 * SECOND);
    assert_eq!(w.date_today(), date(2024, 2, 29));
    assert_eq!(w.date_selected(), date(2024, 2, 29));
    assert_eq!(w.stopwatch_elapsed(99 * SECOND), 0);
    assert_eq!(w.desired_tick(), None);
    assert!(!w.timer_running() && !w.timer_finished() && !w.timer_active());
    assert!(w.laps().is_empty());
}

#[test]
fn stopwatch_counts_pauses_and_resumes() {
    let mut w = window();
    let started = send(&mut w, Message::StopwatchStartPause, 10);
    assert_eq!(started.tick, Some(Some(1000)));
    assert_eq!(w.stopwatch_elapsed(13 * SECOND), 3 * SECOND);
    let paused = send(&mut w, Message::StopwatchStartPause, 15);
    assert_eq!(paused.tick, Some(None));
    assert_eq!(w.stopwatch_elapsed(1000 * SECOND), 5 * SECOND);
    send(&mut w, Message::StopwatchStartPause, 100);
    assert_eq!(w.stopwatch_elapsed(102 * SECOND), 7 * SECOND);
}

#[test]
fn stopwatch_does_not_mind_ticks_or_a_clock_change() {
    let mut w = window();
    send(&mut w, Message::StopwatchStartPause, 10);
    for _ in 0..5 {
        send(&mut w, Message::FastTick, 11);
        send(&mut w, Message::Tick, 11);
    }
    let reading = Reading { zoned: Some(noon(date(1999, 1, 1))), ..at(12 * SECOND) };
    w.update(Message::TimezoneUpdate("Asia/Tokyo".to_string()), reading);
    assert_eq!(w.stopwatch_elapsed(20 * SECOND), 10 * SECOND);
}

#[test]
fn laps_are_noted_in_order() {
    let mut w = window();
    send(&mut w, Message::StopwatchStartPause, 0);
    assert!(is_nothing(&send(&mut w, Message::StopwatchLap, 4)));
    send(&mut w, Message::StopwatchLap, 4);
    send(&mut w, Message::StopwatchLap, 9);
    assert_eq!(*w.laps(), vec![4 * SECOND, 4 * SECOND, 9 * SECOND]);
    assert_eq!(w.stopwatch_elapsed(10 * SECOND), 10 * SECOND);
}

#[test]
fn laps_never_get_shorter_until_a_reset() {
    let mut w = window();
    let messages = vec![
        (Message::StopwatchStartPause, 5),
        (Message::StopwatchLap, 7),
        (Message::TimerStartPause, 8),
        (Message::StopwatchStartPause, 9),
        (Message::StopwatchLap, 50),
        (Message::StopwatchStartPause, 60),
        (Message::StopwatchLap, 60),
        (Message::StopwatchLap, 61),
        (Message::StopwatchReset, 70),
        (Message::StopwatchStartPause, 71),
        (Message::StopwatchLap, 72),
    ];
    for (message, second) in messages {
        send(&mut w, message, second);
        let shown = w.stopwatch_elapsed(second * SECOND);
        assert!(shown <= second * SECOND);
        assert!(w.laps().windows(2).all(|pair| pair[0] <= pair[1]));
        assert!(w.laps().iter().all(|lap| *lap <= shown));
    }
    assert_eq!(*w.laps(), vec![SECOND]);
}

#[test]
fn stopwatch_reset_clears_all() {
    let mut w = window();
    send(&mut w, Message::StopwatchStartPause, 0);
    send(&mut w, Message::StopwatchLap, 4);
    let reset = send(&mut w, Message::StopwatchReset, 5);
    assert_eq!(reset.tick, Some(None));
    assert!(w.laps().is_empty());
    assert_eq!(w.stopwatch_elapsed(50 * SECOND), 0);
}

#[test]
fn timer_counts_down_from_a_deadline() {
    let mut w = window();
    let started = send(&mut w, Message::TimerStartPause, 1000);
    assert_eq!(started.tick, Some(Some(1000)));
    assert!(w.timer_running() && w.timer_active());
    assert_eq!(w.timer_remaining(1100 * SECOND), 200 * SECOND);
    assert_eq!(w.timer_remaining(1300 * SECOND), 0);
    assert_eq!(w.timer_remaining(9999 * SECOND), 0);
}

#[test]
fn timer_does_not_mind_other_messages() {
    let mut w = window();
    send(&mut w, Message::TimerStartPause, 1000);
    send(&mut w, Message::Tick, 1001);
    send(&mut w, Message::FastTick, 1002);
    send(&mut w, Message::StopwatchStartPause, 1003);
    send(&mut w, Message::TogglePopup, 1004);
    send(&mut w, Message::SetMilitaryTime(true), 1005);
    send(&mut w, Message::TimezoneUpdate("UTC".to_string()), 1006);
    assert_eq!(w.timer_remaining(1100 * SECOND), 200 * SECOND);
}

#[test]
fn time_spent_paused_does_not_count() {
    let mut w = window();
    send(&mut w, Message::TimerStartPause, 1000);
    send(&mut w, Message::TimerStartPause, 1100);
    assert_eq!(w.timer_paused(), Some(200 * SECOND));
    assert_eq!(w.timer_remaining(5000 * SECOND), 200 * SECOND);
    send(&mut w, Message::TimerStartPause, 5000);
    assert_eq!(w.timer_paused(), None);
    assert_eq!(w.timer_remaining(5000 * SECOND), 200 * SECOND);
    assert_eq!(w.timer_remaining(5200 * SECOND), 0);
}

#[test]
fn timer_without_time_does_not_start() {
    let mut w = window();
    send(&mut w, Message::TimerAdd(-300), 0);
    assert_eq!(w.timer_duration(), 0);
    let started = send(&mut w, Message::TimerStartPause, 1);
    assert_eq!(started.tick, Some(None));
    assert!(!w.timer_running());
    assert_eq!(w.timer_paused(), None);
}

#[test]
fn timer_reset_keeps_the_duration() {
    let mut w = window();
    send(&mut w, Message::TimerStartPause, 1000);
    send(&mut w, Message::TimerStartPause, 1100);
    let reset = send(&mut w, Message::TimerReset, 1200);
    assert_eq!(reset.tick, Some(None));
    assert_eq!(w.timer_remaining(1200 * SECOND), 300 * SECOND);
    assert!(w.timer_paused().is_none() && !w.timer_running() && !w.timer_finished());
}

#[test]
fn end_of_the_countdown_is_notified_once() {
    let mut w = window();
    send(&mut w, Message::TimerStartPause, 1000);
    assert!(is_nothing(&send(&mut w, Message::FastTick, 1299)));
    let ended = send(&mut w, Message::FastTick, 1300);
    assert_eq!(ended.tick, Some(Some(500)));
    match ended.task {
        Task::Notify(n) => {
            assert_eq!(n.summary, "Timer finished");
            assert_eq!(n.body, "Your 05:00 timer is done.");
        }
        other => panic!("{other:?}"),
    }
    assert!(w.timer_finished() && w.timer_active() && !w.timer_running());
    assert_eq!(w.timer_readout(1300 * SECOND), 0);
    assert_eq!(w.timer_text_color(1300 * SECOND), Some(TextColor::Red));
    assert_eq!(w.timer_text_color(1300 * SECOND + SECOND / 2), Some(TextColor::Transparent));
    assert!(is_nothing(&send(&mut w, Message::FastTick, 1301)));
}

#[test]
fn notification_names_the_duration() {
    let n = timer_notification(3723 * SECOND);
    assert_eq!(n.summary, "Timer finished");
    assert_eq!(n.body, "Your 1:02:03 timer is done.");
}

#[test]
fn duration_is_clamped() {
    let mut w = window();
    assert!(is_nothing(&send(&mut w, Message::TimerAdd(60), 0)));
    assert_eq!(w.timer_duration(), 360 * SECOND);
    send(&mut w, Message::TimerAdd(-1_000_000), 0);
    assert_eq!(w.timer_duration(), 0);
    send(&mut w, Message::TimerAdd(i64::MIN), 0);
    assert_eq!(w.timer_duration(), 0);
    send(&mut w, Message::TimerAdd(i64::MAX), 0);
    assert_eq!(w.timer_duration(), 99 * 3600 * SECOND);
    send(&mut w, Message::TimerAdd(1), 0);
    assert_eq!(w.timer_duration(), 99 * 3600 * SECOND);
}

#[test]
fn largest_step_is_clamped() {
    let mut w = window();
    w.timer_add(i64::MAX);
    assert_eq!(w.timer_duration(), 356_400 * SECOND);
    let mut held = window();
    send(&mut held, Message::TimerHoldStart(i64::MAX), 0);
    send(&mut held, Message::TimerHoldTick, 0);
    assert_eq!(held.timer_duration(), 356_400 * SECOND);
    w.timer_add(i64::MIN);
    assert_eq!(w.timer_duration(), 0);
}

#[test]
fn no_more_is_left_than_the_duration() {
    let mut w = window();
    let messages = vec![
        (Message::TimerAdd(60), 0),
        (Message::TimerStartPause, 1),
        (Message::TimerAdd(-60), 2),
        (Message::TimerStartPause, 3),
        (Message::TimerHoldStart(-3600), 4),
        (Message::TimerStartPause, 9),
        (Message::FastTick, 999),
        (Message::TimerStartPause, 1000),
        (Message::TogglePopup, 1001),
        (Message::TimerAdd(-300), 1002),
    ];
    for (message, second) in messages {
        send(&mut w, message, second);
        assert!(w.timer_remaining(second * SECOND) <= w.timer_duration());
        assert!(!(w.timer_running() && w.timer_paused().is_some()));
        assert_eq!(w.timer_duration() % SECOND, 0);
    }
}

#[test]
fn duration_is_set_only_while_idle() {
    let mut w = window();
    send(&mut w, Message::TimerStartPause, 0);
    send(&mut w, Message::TimerAdd(60), 1);
    assert_eq!(w.timer_duration(), 300 * SECOND);
    send(&mut w, Message::TimerStartPause, 2);
    send(&mut w, Message::TimerHoldStart(60), 3);
    assert_eq!(w.timer_duration(), 300 * SECOND);
    send(&mut w, Message::TimerStartPause, 4);
    send(&mut w, Message::FastTick, 400);
    assert!(w.timer_finished());
    w.timer_add(60);
    assert_eq!(w.timer_duration(), 300 * SECOND);
}

#[test]
fn click_on_a_stepper_is_one_step() {
    let mut clicked = window();
    let pressed = send(&mut clicked, Message::TimerHoldStart(60), 0);
    assert_eq!(pressed.hold, Some(Some(60)));
    let released = send(&mut clicked, Message::TimerHoldStop, 0);
    assert_eq!(released.hold, Some(None));
    let mut added = window();
    send(&mut added, Message::TimerAdd(60), 0);
    assert_eq!(clicked.timer_duration(), added.timer_duration());
    assert!(!clicked.subscription().contains(&Source::ReleaseListener));
}

#[test]
fn held_stepper_repeats_until_released() {
    let mut w = window();
    send(&mut w, Message::TimerHoldStart(-60), 0);
    send(&mut w, Message::TimerHoldTick, 0);
    assert_eq!(w.timer_duration(), 180 * SECOND);
    assert_eq!(w.subscription().last(), Some(&Source::ReleaseListener));
    send(&mut w, Message::TimerHoldStop, 0);
    send(&mut w, Message::TimerHoldTick, 0);
    assert_eq!(w.timer_duration(), 180 * SECOND);
    assert!(!w.subscription().contains(&Source::ReleaseListener));
}

#[test]
fn at_most_one_timer_state() {
    let mut w = window();
    let messages = vec![
        (Message::TimerStartPause, 0),
        (Message::TimerStartPause, 5),
        (Message::TimerStartPause, 9),
        (Message::FastTick, 10),
        (Message::TogglePopup, 11),
        (Message::FastTick, 400),
        (Message::TogglePopup, 401),
        (Message::TogglePopup, 402),
        (Message::TimerStartPause, 500),
        (Message::TimerReset, 501),
    ];
    for (message, second) in messages {
        send(&mut w, message, second);
        let states = [w.timer_running(), w.timer_paused().is_some(), w.timer_finished()];
        assert!(states.iter().filter(|s| **s).count() <= 1);
    }
}

#[test]
fn tick_is_fast_on_screen_and_slow_on_the_panel() {
    let mut w = window();
    send(&mut w, Message::StopwatchStartPause, 0);
    assert_eq!(w.desired_tick(), Some(1000));
    let opened = send(&mut w, Message::TogglePopup, 1);
    assert_eq!(w.page(), Page::Stopwatch);
    assert_eq!(opened.tick, Some(Some(100)));
    let turned = send(&mut w, Message::ToggleStopwatch, 2);
    assert_eq!(turned.tick, Some(Some(1000)));
    let timer = send(&mut w, Message::ToggleTimer, 2);
    assert_eq!(timer.tick, Some(Some(100)));
    let closed = send(&mut w, Message::TogglePopup, 3);
    assert_eq!(closed.tick, Some(Some(1000)));
}

#[test]
fn finished_timer_repaints_twice_a_second() {
    let mut w = window();
    send(&mut w, Message::TimerStartPause, 0);
    send(&mut w, Message::TogglePopup, 1);
    send(&mut w, Message::FastTick, 300);
    assert_eq!(w.desired_tick(), Some(500));
    let counting = send(&mut w, Message::StopwatchStartPause, 301);
    assert_eq!(counting.tick, Some(Some(100)));
    let turned = send(&mut w, Message::ToggleTimer, 302);
    assert_eq!(turned.tick, Some(Some(500)));
}

#[test]
fn closing_from_outside_slows_the_tick() {
    let mut w = window();
    send(&mut w, Message::StopwatchStartPause, 0);
    send(&mut w, Message::TogglePopup, 1);
    assert_eq!(w.desired_tick(), Some(100));
    assert!(is_nothing(&send(&mut w, Message::CloseRequested(8), 2)));
    assert_eq!(w.popup(), Some(7));
    let closed = send(&mut w, Message::CloseRequested(7), 2);
    assert_eq!(closed.tick, Some(Some(1000)));
    assert!(matches!(closed.task, Task::Nothing));
    assert_eq!(w.popup(), None);
    assert_eq!(w.desired_tick(), Some(1000));
    assert!(is_nothing(&send(&mut w, Message::CloseRequested(7), 3)));
}

#[test]
fn opening_dismisses_a_finished_timer() {
    let mut w = window();
    send(&mut w, Message::TimerStartPause, 0);
    send(&mut w, Message::FastTick, 300);
    let opened = send(&mut w, Message::TogglePopup, 301);
    assert_eq!(opened.tick, Some(None));
    assert!(!w.timer_finished());
    assert_eq!(w.page(), Page::Calendar);
    assert_eq!(w.timer_remaining(301 * SECOND), 300 * SECOND);
}

#[test]
fn opening_shows_the_timer_before_the_stopwatch() {
    let mut w = window();
    send(&mut w, Message::StopwatchStartPause, 0);
    send(&mut w, Message::TimerStartPause, 0);
    send(&mut w, Message::TogglePopup, 1);
    assert_eq!(w.page(), Page::Timer);
}

#[test]
fn opening_goes_back_to_today() {
    let mut w = window();
    send(&mut w, Message::NextMonth, 0);
    send(&mut w, Message::Tick, 0);
    send(&mut w, Message::TogglePopup, 0);
    assert_eq!(w.date_today(), date(2024, 3, 1));
    assert_eq!(w.date_selected(), date(2024, 3, 1));
}

#[test]
fn popup_is_anchored_to_the_panel_button() {
    let mut w = window();
    let place = Rectangle { x: 40, y: 0, width: -3, height: 32 };
    send(&mut w, Message::Rectangle(RectangleUpdate::Rectangle(place)), 0);
    match send(&mut w, Message::TogglePopup, 0).task {
        Task::GetPopup { id, anchor } => {
            assert_eq!(id, 7);
            assert_eq!(anchor, Rectangle { x: 40, y: 1, width: 1, height: 32 });
        }
        other => panic!("{other:?}"),
    }
    assert_eq!(w.popup(), Some(7));
    match send(&mut w, Message::TogglePopup, 0).task {
        Task::DestroyPopup(id) => assert_eq!(id, 7),
        other => panic!("{other:?}"),
    }
    assert_eq!(w.popup(), None);
}

#[test]
fn tracker_and_tokens_are_noted() {
    let mut w = window();
    send(&mut w, Message::Rectangle(RectangleUpdate::Init), 0);
    assert!(w.rectangle_tracker());
    send(&mut w, Message::Token(TokenUpdate::Init), 0);
    assert!(w.token_tx());
    send(&mut w, Message::Token(TokenUpdate::ActivationToken), 0);
    assert!(w.token_tx());
    send(&mut w, Message::Token(TokenUpdate::Finished), 0);
    assert!(!w.token_tx());
}

#[test]
fn months_go_to_the_last_day_where_they_are_shorter() {
    let mut w = on(date(2024, 1, 31));
    send(&mut w, Message::NextMonth, 0);
    assert_eq!(w.date_selected(), date(2024, 2, 29));
    send(&mut w, Message::PreviousMonth, 0);
    assert_eq!(w.date_selected(), date(2024, 1, 29));
    send(&mut w, Message::PreviousMonth, 0);
    assert_eq!(w.date_selected(), date(2023, 12, 29));
    let mut w = on(date(2023, 3, 31));
    send(&mut w, Message::PreviousMonth, 0);
    assert_eq!(w.date_selected(), date(2023, 2, 28));
}

#[test]
fn months_end_with_the_last_year() {
    let mut w = on(date(9999, 12, 15));
    send(&mut w, Message::NextMonth, 0);
    assert_eq!(w.date_selected(), date(9999, 12, 15));
    let mut w = on(date(-9999, 1, 15));
    send(&mut w, Message::PreviousMonth, 0);
    assert_eq!(w.date_selected(), date(-9999, 1, 15));
}

#[test]
fn next_month_and_back() {
    let mut w = on(date(2024, 12, 10));
    send(&mut w, Message::NextMonth, 0);
    assert_eq!(w.date_selected(), date(2025, 1, 10));
    send(&mut w, Message::PreviousMonth, 0);
    assert_eq!(w.date_selected(), date(2024, 12, 10));
}

#[test]
fn only_days_of_the_month_are_selected() {
    let mut w = window();
    assert!(is_nothing(&send(&mut w, Message::SelectDay(1), 0)));
    assert_eq!(w.date_selected(), date(2024, 2, 1));
    for day in [30, 0, -1, 127] {
        assert!(send(&mut w, Message::SelectDay(day), 0).invalid_date);
        assert_eq!(w.date_selected(), date(2024, 2, 1));
    }
}

#[test]
fn page_buttons_lead_there_and_back() {
    let mut w = window();
    for (message, page) in [
        (Message::ToggleSettings, Page::Settings),
        (Message::ToggleStopwatch, Page::Stopwatch),
        (Message::ToggleTimer, Page::Timer),
    ] {
        send(&mut w, message.clone(), 0);
        assert_eq!(w.page(), page);
        send(&mut w, message, 0);
        assert_eq!(w.page(), Page::Calendar);
    }
    send(&mut w, Message::ToggleTimer, 0);
    send(&mut w, Message::ToggleSettings, 0);
    assert_eq!(w.page(), Page::Settings);
}

#[test]
fn tick_reads_the_wall_clock() {
    let mut w = window();
    assert!(is_nothing(&send(&mut w, Message::Tick, 0)));
    assert_eq!(w.now(), noon(date(2024, 3, 1)));
    assert_eq!(w.date_today(), date(2024, 2, 29));
}

#[test]
fn known_time_zone_moves_the_date() {
    let mut w = window();
    let reading = Reading { zoned: Some(noon(date(2024, 3, 2))), ..at(0) };
    w.update(Message::TimezoneUpdate("Pacific/Auckland".to_string()), reading);
    assert_eq!(w.timezone().as_deref(), Some("Pacific/Auckland"));
    assert_eq!(w.date_today(), date(2024, 3, 2));
    assert_eq!(w.date_selected(), date(2024, 3, 2));
    assert_eq!(w.now(), noon(date(2024, 3, 1)));
}

#[test]
fn unknown_time_zone_only_ticks() {
    let mut w = window();
    send(&mut w, Message::TimezoneUpdate("Nowhere".to_string()), 0);
    assert!(w.timezone().is_none());
    assert_eq!(w.date_selected(), date(2024, 2, 29));
    assert_eq!(w.now(), noon(date(2024, 3, 1)));
}

#[test]
fn settings_from_outside_reach_the_clock_tick_once() {
    let mut w = window();
    let shown = TimeAppletConfig { show_seconds: true, ..config() };
    let first = send(&mut w, Message::ConfigChanged(shown.clone()), 0);
    assert_eq!(first.show_seconds, Some(true));
    assert!(!first.save_config);
    assert!(w.config().show_seconds);
    let second = send(&mut w, Message::ConfigChanged(shown), 0);
    assert_eq!(second.show_seconds, None);
    let third = send(&mut w, Message::ConfigChanged(config()), 0);
    assert_eq!(third.show_seconds, Some(false));
}

#[test]
fn each_switch_sets_its_setting_and_saves() {
    let mut w = window();
    assert!(send(&mut w, Message::SetMilitaryTime(true), 0).save_config);
    assert!(w.config().military_time && !w.config().show_seconds);
    let seconds = send(&mut w, Message::SetShowSeconds(true), 0);
    assert!(seconds.save_config && seconds.show_seconds.is_none());
    assert!(w.config().show_seconds);
    assert!(send(&mut w, Message::SetShowDate(false), 0).save_config);
    assert!(!w.config().show_date_in_top_panel && !w.config().show_weekday);
    assert!(send(&mut w, Message::SetShowWeekday(true), 0).save_config);
    assert!(w.config().show_weekday && !w.config().show_persian_calendar);
    assert!(send(&mut w, Message::SetShowPersianCalendar(true), 0).save_config);
    assert!(w.config().show_persian_calendar);
}

#[test]
fn first_day_of_the_week_is_kept_in_a_byte() {
    let mut w = window();
    assert!(send(&mut w, Message::SetFirstDayOfWeek(3), 0).save_config);
    assert_eq!(w.config().first_day_of_week, 3);
    send(&mut w, Message::SetFirstDayOfWeek(258), 0);
    assert_eq!(w.config().first_day_of_week, 2);
}

#[test]
fn tabs_are_activated() {
    let mut w = window();
    assert!(is_nothing(&send(&mut w, Message::TabActivated(SettingsTab::Clocks), 0)));
    assert_eq!(w.active_tab(), SettingsTab::Clocks);
}

#[test]
fn a_city_gets_one_clock() {
    let mut w = window();
    let first = send(&mut w, city("Asia/Tokyo"), 0);
    assert!(first.save_config && first.reset_city_search);
    let second = send(&mut w, city("Asia/Tokyo"), 0);
    assert!(!second.save_config && second.reset_city_search);
    send(&mut w, city("UTC"), 0);
    assert_eq!(w.config().additional_clocks, vec!["Asia/Tokyo", "UTC"]);
}

#[test]
fn clocks_are_removed_by_position() {
    let mut w = window();
    for name in ["A", "B", "C"] {
        send(&mut w, city(name), 0);
    }
    assert!(send(&mut w, Message::RemoveClock(1), 0).save_config);
    assert_eq!(w.config().additional_clocks, vec!["A", "C"]);
    assert!(is_nothing(&send(&mut w, Message::RemoveClock(2), 0)));
    assert_eq!(w.config().additional_clocks, vec!["A", "C"]);
}

#[test]
fn surface_actions_are_handed_on() {
    let mut w = window();
    let effects = send(&mut w, Message::Surface, 0);
    assert!(matches!(effects.task, Task::Surface));
}

#[test]
fn sums_beyond_the_range_are_told() {
    let mut w = window();
    let late = at(DURATION_MAX - SECOND);
    assert!(w.can_handle(&Message::StopwatchStartPause, late));
    assert!(!w.can_handle(&Message::TimerStartPause, late));
    assert!(w.can_handle(&Message::TimerAdd(i64::MAX), late));
    send(&mut w, Message::StopwatchStartPause, 0);
    send(&mut w, Message::StopwatchStartPause, 2);
    send(&mut w, Message::StopwatchStartPause, 2);
    assert!(w.stopwatch_fits(DURATION_MAX));
    send(&mut w, Message::StopwatchStartPause, 3);
    send(&mut w, Message::StopwatchStartPause, 2);
    assert!(!w.stopwatch_fits(DURATION_MAX));
    assert!(!w.can_handle(&Message::StopwatchLap, at(DURATION_MAX)));
    assert!(w.can_handle(&Message::Tick, at(DURATION_MAX)));
}

#[test]
fn a_clock_that_went_back_counts_nothing() {
    let mut w = window();
    send(&mut w, Message::StopwatchStartPause, 10);
    assert_eq!(w.stopwatch_elapsed(5 * SECOND), 0);
}
