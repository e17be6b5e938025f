use day_applet::config::TimeAppletConfig;
use day_applet::date::{Date, Zoned};
use day_applet::subscription::{
    fast_tick_step, hold_delay, release_listener, timezone_retry, wake_from_sleep, ClockTick,
    FastTickEvent, FastTickStep, HoldEvent, HoldState, InputEvent, Interval, MouseButton, Source,
};
use day_applet::window::{Message, Reading, Window};

#[test]
fn sources_without_a_held_stepper() {
    let date = Date { year: 2024, month: 2, day: 29 };
    let config = TimeAppletConfig {
        military_time: false,
        show_seconds: false,
        first_day_of_week: 6,
        show_date_in_top_panel: true,
        show_weekday: false,
        additional_clocks: Vec::new(),
        show_persian_calendar: false,
    };
    let now = Zoned { date, hour: 0, minute: 0, second: 0 };
    let mut w = Window::init("en-US".to_string(), now, config);
    let always = vec![
        Source::Rectangle,
        Source::Clock,
        Source::FastTick,
        Source::HoldRepeat,
        Source::ActivationToken,
        Source::Timezone,
        Source::WakeFromSleep,
        Source::Config,
    ];
    assert_eq!(w.subscription(), always);
    w.update(Message::TimerHoldStart(1), Reading { instant: 0, now, zoned: None, new_id: 1 });
    assert_eq!(w.subscription().len(), 9);
    assert_eq!(w.subscription()[8], Source::ReleaseListener);
}

#[test]
fn clock_starts_every_second() {
    let (tick, interval) = ClockTick::start();
    assert_eq!(tick, ClockTick { period: 1 });
    assert_eq!(interval, Interval { first_delay: 0, period: 1, skip_missed: true });
    assert_eq!(tick.on_tick(1_700_000_001), None);
}

#[test]
fn clock_without_seconds_ticks_on_the_minute() {
    let (mut tick, _) = ClockTick::start();
    let now = 28_333_333 * 60 + 17;
    let interval = tick.on_show_seconds(false, now);
    assert_eq!(interval, Interval { first_delay: 43, period: 60, skip_missed: true });
    assert_eq!(tick.period, 60);
    assert_eq!(tick.on_tick(now + 43), None);
    assert_eq!(tick.on_tick(now), Some(43));
    assert_eq!(tick.on_show_seconds(false, now + 43).first_delay, 60);
}

#[test]
fn clock_with_seconds_goes_back_to_every_second() {
    let mut tick = ClockTick { period: 60 };
    let interval = tick.on_show_seconds(true, 17);
    assert_eq!(interval, Interval { first_delay: 1, period: 1, skip_missed: false });
    assert_eq!(tick.period, 1);
}

#[test]
fn times_before_the_epoch_wrap() {
    let tick = ClockTick { period: 60 };
    // 2^64 - 1 leaves 15 over a multiple of 60.
    assert_eq!(tick.on_tick(-1), Some(45));
}

#[test]
fn fast_tick_runs_and_parks() {
    assert_eq!(fast_tick_step(Some(100), FastTickEvent::Elapsed), FastTickStep::Send);
    assert_eq!(
        fast_tick_step(Some(100), FastTickEvent::Changed(None)),
        FastTickStep::Rebuild(None)
    );
    assert_eq!(
        fast_tick_step(None, FastTickEvent::Changed(Some(500))),
        FastTickStep::Rebuild(Some(500))
    );
    assert_eq!(fast_tick_step(None, FastTickEvent::Closed), FastTickStep::Stop);
    assert_eq!(fast_tick_step(Some(100), FastTickEvent::Closed), FastTickStep::Wait);
    assert_eq!(fast_tick_step(None, FastTickEvent::Elapsed), FastTickStep::Wait);
}

#[test]
fn hold_accelerates_to_a_floor() {
    assert_eq!(hold_delay(0), 360);
    assert_eq!(hold_delay(1), 325);
    assert_eq!(hold_delay(8), 80);
    assert_eq!(hold_delay(9), 45);
    assert_eq!(hold_delay(10), 45);
    assert_eq!(hold_delay(u32::MAX), 45);
}

#[test]
fn hold_repeats_until_something_changes() {
    let held = HoldState::start(Some(60));
    assert_eq!(held, HoldState::Held { count: 1 });
    assert_eq!(held.delay(), Some(325));
    let repeated = held.step(HoldEvent::Elapsed { sent: true });
    assert_eq!(repeated, HoldState::Held { count: 2 });
    assert_eq!(repeated.delay(), Some(290));
    let pressed = repeated.step(HoldEvent::Changed(Some(-60)));
    assert_eq!(pressed, HoldState::Held { count: 1 });
    let released = pressed.step(HoldEvent::Changed(None));
    assert_eq!(released, HoldState::Parked);
    assert_eq!(released.delay(), None);
    assert_eq!(released.step(HoldEvent::Changed(Some(1))), held);
}

#[test]
fn hold_stops_with_its_channels() {
    let held = HoldState::start(Some(60));
    assert_eq!(held.step(HoldEvent::Elapsed { sent: false }), HoldState::Stopped);
    assert_eq!(held.step(HoldEvent::Closed), HoldState::Stopped);
    let parked = HoldState::start(None);
    assert_eq!(parked.step(HoldEvent::Closed), HoldState::Stopped);
    assert_eq!(parked.step(HoldEvent::Elapsed { sent: true }), HoldState::Parked);
    assert_eq!(HoldState::Stopped.step(HoldEvent::Changed(Some(1))), HoldState::Stopped);
    assert_eq!(HoldState::Stopped.delay(), None);
}

#[test]
fn releases_stop_a_hold() {
    for event in [
        InputEvent::ButtonReleased(MouseButton::Left),
        InputEvent::FingerLifted,
        InputEvent::FingerLost,
    ] {
        assert!(matches!(release_listener(event), Some(Message::TimerHoldStop)));
    }
    assert!(release_listener(InputEvent::ButtonReleased(MouseButton::Other)).is_none());
    assert!(release_listener(InputEvent::Other).is_none());
}

#[test]
fn failed_updater_is_started_again() {
    assert_eq!(timezone_retry(true), Some(60));
    assert_eq!(timezone_retry(false), None);
}

#[test]
fn waking_up_ticks() {
    assert!(matches!(wake_from_sleep(false), Some(Message::Tick)));
    assert!(wake_from_sleep(true).is_none());
}
