//! What holds of the applet over its messages.

use vstd::prelude::*;
use crate::config::{ConfigView, Setting};
use crate::date::Zoned;
use crate::frame::{
    accumulated_kept, concerns_popup, concerns_stopwatch, concerns_timer, deadline_kept,
    duration_kept, finished_kept, hold_kept, hold_not_sent, laps_kept, page_kept, paused_kept,
    popup_kept, running_since_kept, tick_not_sent,
};
use crate::readout::SECOND;
use crate::window::{
    effects_of, time_since, update_fits, window_after, window_at_start, Message, Page, Reading,
    TaskView, WindowView, DURATION_MAX, TIMER_MAX_SECS,
};

verus! {

/// Only starting, pausing and resetting touch the stopwatch: what it shows at any instant
/// stays the same over every other message, whatever the wall clock and the ticks do.
pub proof fn law_stopwatch_undisturbed(
    window: WindowView,
    message: Message,
    reading: Reading,
    instant: int,
)
    requires
        !concerns_stopwatch(message),
    ensures
        ({
            let after = window_after(window, message, reading);
            &&& after.stopwatch_elapsed(instant) == window.stopwatch_elapsed(instant)
            &&& after.stopwatch_running() == window.stopwatch_running()
            &&& !(message is StopwatchLap) ==> after.laps == window.laps
        }),
{
    running_since_kept(window, message, reading);
    accumulated_kept(window, message, reading);
    if !(message is StopwatchLap) {
        laps_kept(window, message, reading);
    }
}

/// Pausing freezes what the stopwatch shows. Starting goes on from there, and from then on
/// the stopwatch gains exactly the time that goes by.
pub proof fn law_stopwatch_start_pause(window: WindowView, reading: Reading, instant: int)
    requires
        update_fits(window, Message::StopwatchStartPause, reading),
        reading.instant <= instant,
    ensures
        ({
            let after = window_after(window, Message::StopwatchStartPause, reading);
            let shown = window.stopwatch_elapsed(reading.instant as int);
            &&& after.stopwatch_running() != window.stopwatch_running()
            &&& after.stopwatch_elapsed(reading.instant as int) == shown
            &&& after.stopwatch_elapsed(instant) == (if after.stopwatch_running() {
                shown + (instant - reading.instant)
            } else {
                shown
            })
        }),
{
}

/// A reset stopwatch stands still at zero, without laps.
pub proof fn law_stopwatch_reset(window: WindowView, reading: Reading, instant: int)
    ensures
        ({
            let after = window_after(window, Message::StopwatchReset, reading);
            &&& !after.stopwatch_running()
            &&& after.stopwatch_elapsed(instant) == 0
            &&& after.laps.len() == 0
        }),
{
}

/// A lap is what the stopwatch shows, noted behind the laps before.
pub proof fn law_lap_noted(window: WindowView, reading: Reading)
    requires
        update_fits(window, Message::StopwatchLap, reading),
    ensures
        ({
            let after = window_after(window, Message::StopwatchLap, reading);
            &&& after.laps.len() == window.laps.len() + 1
            &&& after.laps.last() == window.stopwatch_elapsed(reading.instant as int)
            &&& after.laps.drop_last() == window.laps
        }),
{
}

/// What is left on the timer at any instant stays the same over every message that does not
/// concern it, and over a fast tick that does not find the countdown over.
pub proof fn law_timer_undisturbed(
    window: WindowView,
    message: Message,
    reading: Reading,
    instant: int,
)
    requires
        !concerns_timer(message) || (message is FastTick && !window.countdown_over(
            reading.instant as int,
        )),
    ensures
        ({
            let after = window_after(window, message, reading);
            &&& after.timer_remaining(instant) == window.timer_remaining(instant)
            &&& after.timer_running() == window.timer_running()
            &&& after.timer_finished() == window.timer_finished()
            &&& after.timer_duration == window.timer_duration
        }),
{
    if !concerns_timer(message) {
        deadline_kept(window, message, reading);
        paused_kept(window, message, reading);
        finished_kept(window, message, reading);
        duration_kept(window, message, reading);
    }
}

/// A timer that is started counts down by exactly the time that goes by, from what was left
/// to zero.
pub proof fn law_timer_counts_down(window: WindowView, reading: Reading, instant: int)
    requires
        update_fits(window, Message::TimerStartPause, reading),
        !window.timer_running(),
        window.timer_remaining(reading.instant as int) > 0,
        reading.instant <= instant,
    ensures
        ({
            let after = window_after(window, Message::TimerStartPause, reading);
            let left = window.timer_remaining(reading.instant as int);
            &&& after.timer_running()
            &&& after.timer_remaining(instant) == time_since(instant, reading.instant + left)
            &&& after.countdown_over(instant) <==> reading.instant + left <= instant
        }),
{
}

/// The time for which a timer is paused does not count: it goes on with what was left.
pub proof fn law_timer_pause_resume(window: WindowView, pause: Reading, resume: Reading)
    requires
        window.wf(),
        window.timer_running(),
        window.timer_remaining(pause.instant as int) > 0,
        resume.instant + window.timer_remaining(pause.instant as int) <= DURATION_MAX,
    ensures
        ({
            let left = window.timer_remaining(pause.instant as int);
            let paused = window_after(window, Message::TimerStartPause, pause);
            let resumed = window_after(paused, Message::TimerStartPause, resume);
            &&& !paused.timer_running()
            &&& paused.timer_remaining(resume.instant as int) == left
            &&& resumed.timer_running()
            &&& resumed.timer_remaining(resume.instant as int) == left
        }),
{
}

/// A timer without time left cannot be started.
pub proof fn law_empty_timer_stays_off(window: WindowView, reading: Reading)
    requires
        !window.timer_running(),
        window.timer_remaining(reading.instant as int) == 0,
    ensures
        !window_after(window, Message::TimerStartPause, reading).timer_running(),
{
}

/// A timer that is reset is idle and has its whole duration left.
pub proof fn law_timer_reset(window: WindowView, reading: Reading, instant: int)
    ensures
        ({
            let after = window_after(window, Message::TimerReset, reading);
            &&& after.timer_idle()
            &&& after.timer_duration == window.timer_duration
            &&& after.timer_remaining(instant) == window.timer_duration
        }),
{
}

/// A fast tick ends the countdown exactly where nothing is left of it. That is notified then
/// and not again, and no other message notifies.
#[verifier::rlimit(40)]
pub proof fn law_end_is_notified_once(window: WindowView, message: Message, reading: Reading)
    ensures
        effects_of(window, message, reading).task is Notify <==> message is FastTick
            && window.countdown_over(reading.instant as int),
        message is FastTick && window.countdown_over(reading.instant as int) ==> {
            let after = window_after(window, message, reading);
            &&& after.timer_finished()
            &&& forall|later: Reading|
                !(#[trigger] effects_of(after, Message::FastTick, later).task is Notify)
        },
{
}

/// The timer is in one state at a time: at most one of running, paused and finished.
pub open spec fn one_timer_state(window: WindowView) -> bool {
    &&& !(window.timer_running() && window.timer_paused is Some)
    &&& !(window.timer_running() && window.timer_finished())
    &&& !(window.timer_paused is Some && window.timer_finished())
}

/// The timer stays in one state at a time, except that a finished one must not be started.
#[verifier::rlimit(40)]
pub proof fn law_one_timer_state(window: WindowView, message: Message, reading: Reading)
    requires
        one_timer_state(window),
        !(message is TimerStartPause && window.timer_finished()),
    ensures
        one_timer_state(window_after(window, message, reading)),
{
}

/// The applet starts with an idle timer and a stopwatch at zero.
pub proof fn law_start_is_idle(locale: Seq<char>, now: Zoned, config: ConfigView, instant: int)
    ensures
        ({
            let window = window_at_start(locale, now, config);
            &&& one_timer_state(window) && window.timer_idle()
            &&& !window.stopwatch_running() && window.stopwatch_elapsed(instant) == 0
            &&& window.desired_tick() is None
        }),
{
}

/// The buttons of the timer page keep the timer in one state at a time: a finished timer
/// offers no start.
pub proof fn law_buttons_keep_one_state(
    window: WindowView,
    shown_at: int,
    index: int,
    reading: Reading,
)
    requires
        one_timer_state(window),
        0 <= index < window.timer_controls(shown_at).len(),
        window.timer_controls(shown_at)[index].on_press is Some,
    ensures
        one_timer_state(
            window_after(window, window.timer_controls(shown_at)[index].on_press->0, reading),
        ),
{
}

/// The repaint period that was sent out last is the one that is wanted: a message that
/// changes what is wanted sends it.
pub proof fn law_tick_in_step(window: WindowView, message: Message, reading: Reading)
    ensures
        ({
            let after = window_after(window, message, reading);
            match effects_of(window, message, reading).tick {
                Some(period) => period == after.desired_tick(),
                None => after.desired_tick() == window.desired_tick(),
            }
        }),
{
    if concerns_popup(message) || concerns_timer(message) || concerns_stopwatch(message) {
        lemma_tick_in_step(window, message, reading);
    } else {
        popup_kept(window, message, reading);
        page_kept(window, message, reading);
        running_since_kept(window, message, reading);
        deadline_kept(window, message, reading);
        finished_kept(window, message, reading);
        tick_not_sent(window, message, reading);
    }
}

#[verifier::rlimit(40)]
proof fn lemma_tick_in_step(window: WindowView, message: Message, reading: Reading)
    requires
        concerns_popup(message) || concerns_timer(message) || concerns_stopwatch(message),
    ensures
        ({
            let after = window_after(window, message, reading);
            match effects_of(window, message, reading).tick {
                Some(period) => period == after.desired_tick(),
                None => after.desired_tick() == window.desired_tick(),
            }
        }),
{
}

/// The step that was sent to the hold repeater last is that of the stepper that is held.
pub proof fn law_hold_in_step(window: WindowView, message: Message, reading: Reading)
    ensures
        ({
            let after = window_after(window, message, reading);
            match effects_of(window, message, reading).hold {
                Some(step) => step == after.timer_hold,
                None => after.timer_hold == window.timer_hold,
            }
        }),
{
    if !(message is TimerHoldStart || message is TimerHoldStop) {
        hold_kept(window, message, reading);
        hold_not_sent(window, message, reading);
    }
}

/// The clock tick is told whether seconds are shown exactly where that changes.
#[verifier::rlimit(40)]
pub proof fn law_show_seconds_in_step(window: WindowView, message: Message, reading: Reading)
    ensures
        ({
            let after = window_after(window, message, reading);
            effects_of(window, message, reading).show_seconds == (if after.show_seconds_tx
                == window.show_seconds_tx {
                None
            } else {
                Some(after.show_seconds_tx)
            })
        }),
{
}

/// Settings that a message changes are written out, but for those that came from outside.
#[verifier::rlimit(40)]
pub proof fn law_changes_are_saved(window: WindowView, message: Message, reading: Reading)
    requires
        !(message is ConfigChanged),
        !effects_of(window, message, reading).save_config,
    ensures
        window_after(window, message, reading).config == window.config,
{
}

/// The switch of a setting turns on or off that setting and no other, nor anything else.
pub proof fn law_switch_sets_its_setting(
    window: WindowView,
    setting: Setting,
    value: bool,
    reading: Reading,
)
    ensures
        ({
            let after = window_after(window, setting.message_for(value), reading);
            &&& after == window.with_setting(setting, value)
            &&& after.config.get(setting) == value
            &&& forall|other: Setting|
                other != setting ==> after.config.get(other) == window.config.get(other)
            &&& effects_of(window, setting.message_for(value), reading).save_config
        }),
{
}

/// The day that was chosen is the one that weeks start with, and nothing else changes.
pub proof fn law_chosen_day_is_first(window: WindowView, index: usize, reading: Reading)
    requires
        index < 7,
    ensures
        ({
            let message = Message::SetFirstDayOfWeek(index);
            let after = window_after(window, message, reading);
            &&& after.config.first_day_of_week == index
            &&& after == (WindowView {
                config: ConfigView { first_day_of_week: index as u8, ..window.config },
                ..window
            })
            &&& effects_of(window, message, reading).save_config
        }),
{
}

/// A click on a stepper is exactly one step: press and release change the countdown as a
/// single addition does.
pub proof fn law_click_is_one_step(window: WindowView, delta: i64, press: Reading, release: Reading)
    requires
        window.timer_hold is None,
    ensures
        window_after(
            window_after(window, Message::TimerHoldStart(delta), press),
            Message::TimerHoldStop,
            release,
        ) == window_after(window, Message::TimerAdd(delta), press),
{
}

/// A repeat does nothing where no stepper is held.
pub proof fn law_no_repeat_after_release(window: WindowView, reading: Reading)
    requires
        window.timer_hold is None,
    ensures
        window_after(window, Message::TimerHoldTick, reading) == window,
{
}

/// Whatever the step, adding to an idle countdown ends between zero and 99 hours: it is the sum
/// where that lies between them, and otherwise the nearer of the two.
pub proof fn law_step_is_clamped(window: WindowView, delta: i64, reading: Reading)
    requires
        window.wf(),
        window.timer_idle(),
    ensures
        ({
            let after = window_after(window, Message::TimerAdd(delta), reading).timer_duration;
            let sum = window.timer_duration + delta * SECOND;
            &&& 0 <= after <= TIMER_MAX_SECS * SECOND
            &&& 0 <= sum <= TIMER_MAX_SECS * SECOND ==> after == sum
            &&& sum < 0 ==> after == 0
            &&& sum > TIMER_MAX_SECS * SECOND ==> after == TIMER_MAX_SECS * SECOND
        }),
{
}

/// The length of the countdown changes only while the timer is idle, and stays a whole number
/// of seconds from zero to 99 hours.
#[verifier::rlimit(40)]
pub proof fn law_duration_set_while_idle(window: WindowView, message: Message, reading: Reading)
    requires
        window.wf(),
    ensures
        ({
            let after = window_after(window, message, reading);
            &&& !window.timer_idle() ==> after.timer_duration == window.timer_duration
            &&& after.timer_duration % SECOND == 0
            &&& after.timer_duration <= TIMER_MAX_SECS * SECOND
        }),
{
}

/// Opening the popup dismisses a finished timer, goes back to today, and shows the timer
/// where it counts, or else the stopwatch where it runs, or else the calendar.
pub proof fn law_opening(window: WindowView, reading: Reading)
    requires
        window.popup is None,
        one_timer_state(window),
    ensures
        ({
            let after = window_after(window, Message::TogglePopup, reading);
            &&& after.popup == Some(reading.new_id)
            &&& !after.timer_finished()
            &&& window.timer_finished() ==> after.timer_idle()
            &&& after.timer_running() == window.timer_running()
            &&& after.date_today == window.now.date && after.date_selected == window.now.date
            &&& after.page == Page::Timer <==> window.timer_running()
            &&& after.page == Page::Stopwatch <==> !window.timer_running()
                && window.stopwatch_running()
            &&& effects_of(window, Message::TogglePopup, reading).task is GetPopup
        }),
{
}

/// A second click on the panel closes the popup that the first one opened.
pub proof fn law_click_twice(window: WindowView, open: Reading, close: Reading)
    requires
        window.popup is None,
    ensures
        ({
            let opened = window_after(window, Message::TogglePopup, open);
            let closed = window_after(opened, Message::TogglePopup, close);
            &&& closed.popup is None
            &&& effects_of(opened, Message::TogglePopup, close).task == TaskView::DestroyPopup(
                open.new_id,
            )
        }),
{
}

/// The button of a page leads to it, and from it back to the calendar.
pub proof fn law_page_buttons(window: WindowView, reading: Reading)
    ensures
        window_after(window, Message::ToggleSettings, reading).page == (if window.page
            == Page::Settings {
            Page::Calendar
        } else {
            Page::Settings
        }),
        window_after(window, Message::ToggleStopwatch, reading).page == (if window.page
            == Page::Stopwatch {
            Page::Calendar
        } else {
            Page::Stopwatch
        }),
        window_after(window, Message::ToggleTimer, reading).page == (if window.page
            == Page::Timer {
            Page::Calendar
        } else {
            Page::Timer
        }),
{
}

/// No time zone has two clocks, as long as the settings that come from outside have none.
#[verifier::rlimit(40)]
pub proof fn law_clocks_differ(window: WindowView, message: Message, reading: Reading)
    requires
        window.config.additional_clocks.no_duplicates(),
        message matches Message::ConfigChanged(config)
            ==> config@.additional_clocks.no_duplicates(),
    ensures
        window_after(window, message, reading).config.additional_clocks.no_duplicates(),
{
    let before = window.config.additional_clocks;
    match message {
        Message::SelectCity(entry) => {
            let name = entry.timezone@;
            if !before.contains(name) {
                let after = before.push(name);
                assert forall|i: int, j: int|
                    0 <= i < j < after.len() implies after[i] != after[j] by {
                    assert(before.contains(before[i]));
                }
            }
        },
        Message::RemoveClock(index) => {
            if index < before.len() {
                let after = before.remove(index as int);
                assert forall|i: int, j: int|
                    0 <= i < j < after.len() implies after[i] != after[j] by {
                    let k = if i < index {
                        i
                    } else {
                        i + 1
                    };
                    let l = if j < index {
                        j
                    } else {
                        j + 1
                    };
                    assert(after[i] == before[k] && after[j] == before[l]);
                }
            }
        },
        _ => {},
    }
}

/// A city that was selected has a clock, and selecting it again changes nothing.
pub proof fn law_city_has_clock(
    window: WindowView,
    message: Message,
    first: Reading,
    second: Reading,
)
    requires
        message is SelectCity,
    ensures
        ({
            let after = window_after(window, message, first);
            &&& after.config.additional_clocks.contains(message->SelectCity_0.timezone@)
            &&& window_after(after, message, second) == after
            &&& !effects_of(after, message, second).save_config
        }),
{
    let name = message->SelectCity_0.timezone@;
    let before = window.config.additional_clocks;
    if !before.contains(name) {
        assert(before.push(name)[before.len() as int] == name);
    }
}

/// The stopwatch has counted no more than the time since the origin of the clock, and no lap
/// is shorter than one before it or longer than what is shown.
pub open spec fn stopwatch_in_time(window: WindowView, instant: int) -> bool {
    &&& window.running_since matches Some(start) ==> start <= instant
    &&& window.stopwatch_elapsed(instant) <= instant
    &&& forall|i: int|
        0 <= i < window.laps.len() ==> #[trigger] window.laps[i] <= window.stopwatch_elapsed(
            instant,
        )
    &&& forall|i: int, j: int|
        0 <= i < j < window.laps.len() ==> #[trigger] window.laps[i] <= #[trigger] window.laps[j]
}

/// The countdown has at most 99 hours left, and where it is over that has not yet to come.
pub open spec fn timer_in_time(window: WindowView, instant: int) -> bool {
    &&& window.timer_deadline matches Some(end) ==> end <= instant + TIMER_MAX_SECS * SECOND
    &&& window.timer_paused matches Some(left) ==> left <= TIMER_MAX_SECS * SECOND
    &&& window.timer_finished_at matches Some(end) ==> end <= instant
}

/// The readings of the monotonic clock have been in order up to `instant`.
pub open spec fn in_time(window: WindowView, instant: int) -> bool {
    &&& 0 <= instant
    &&& stopwatch_in_time(window, instant)
    &&& timer_in_time(window, instant)
}

proof fn lemma_in_time_later(window: WindowView, instant: int, later: int)
    requires
        in_time(window, instant),
        instant <= later,
    ensures
        in_time(window, later),
{
    assert(window.stopwatch_elapsed(instant) <= window.stopwatch_elapsed(later));
}

proof fn lemma_stopwatch_in_time(window: WindowView, message: Message, reading: Reading)
    requires
        concerns_stopwatch(message) || message is StopwatchLap,
        stopwatch_in_time(window, reading.instant as int),
    ensures
        stopwatch_in_time(window_after(window, message, reading), reading.instant as int),
{
}

proof fn lemma_timer_in_time(window: WindowView, message: Message, reading: Reading)
    requires
        concerns_timer(message),
        window.wf(),
        timer_in_time(window, reading.instant as int),
        reading.instant + TIMER_MAX_SECS * SECOND <= DURATION_MAX,
    ensures
        timer_in_time(window_after(window, message, reading), reading.instant as int),
{
}

/// While the monotonic clock does not go back, and stays 99 hours away from the end of its
/// range, nothing that the applet counts leaves the range, and laps never get shorter.
#[verifier::rlimit(40)]
pub proof fn law_never_out_of_range(
    window: WindowView,
    message: Message,
    reading: Reading,
    instant: int,
)
    requires
        window.wf(),
        in_time(window, instant),
        instant <= reading.instant,
        reading.instant + TIMER_MAX_SECS * SECOND <= DURATION_MAX,
    ensures
        in_time(window, reading.instant as int),
        update_fits(window, message, reading),
        in_time(window_after(window, message, reading), reading.instant as int),
{
    lemma_in_time_later(window, instant, reading.instant as int);
    if concerns_timer(message) {
        running_since_kept(window, message, reading);
        accumulated_kept(window, message, reading);
        laps_kept(window, message, reading);
        lemma_timer_in_time(window, message, reading);
    } else {
        deadline_kept(window, message, reading);
        paused_kept(window, message, reading);
        finished_kept(window, message, reading);
        if concerns_stopwatch(message) || message is StopwatchLap {
            lemma_stopwatch_in_time(window, message, reading);
        } else {
            running_since_kept(window, message, reading);
            accumulated_kept(window, message, reading);
            laps_kept(window, message, reading);
        }
    }
}

/// The readings are in order from the start.
pub proof fn law_in_time_at_start(locale: Seq<char>, now: Zoned, config: ConfigView, instant: int)
    requires
        0 <= instant,
    ensures
        in_time(window_at_start(locale, now, config), instant),
{
}

/// A finished timer flashes: half a second later it has the other color.
pub proof fn law_finished_timer_flashes(window: WindowView, instant: int)
    requires
        window.timer_finished_at matches Some(end) && end <= instant,
    ensures
        window.timer_text_color(instant) is Some,
        window.timer_text_color(instant + 500_000_000) is Some,
        window.timer_text_color(instant) != window.timer_text_color(instant + 500_000_000),
        window.timer_text_color(instant) == window.timer_text_color(instant + SECOND),
        window.timer_readout(instant) == 0,
{
}

/// The timer is not running and paused at once, its length is a whole number of seconds up to
/// 99 hours, and no more than that is left.
pub open spec fn timer_sound(window: WindowView, instant: int) -> bool {
    &&& !(window.timer_running() && window.timer_paused is Some)
    &&& window.timer_duration % SECOND == 0
    &&& window.timer_duration <= TIMER_MAX_SECS * SECOND
    &&& 0 <= window.timer_remaining(instant) <= window.timer_duration
}

/// No message leaves more on the timer than its length, nor does the time that goes by.
#[verifier::rlimit(40)]
pub proof fn law_timer_stays_sound(
    window: WindowView,
    message: Message,
    reading: Reading,
    instant: int,
)
    requires
        timer_sound(window, instant),
        instant <= reading.instant,
        update_fits(window, message, reading),
    ensures
        timer_sound(window_after(window, message, reading), reading.instant as int),
{
    if concerns_timer(message) {
        lemma_timer_stays_sound(window, message, reading, instant);
    } else {
        deadline_kept(window, message, reading);
        paused_kept(window, message, reading);
        duration_kept(window, message, reading);
    }
}

#[verifier::rlimit(40)]
proof fn lemma_timer_stays_sound(
    window: WindowView,
    message: Message,
    reading: Reading,
    instant: int,
)
    requires
        concerns_timer(message),
        timer_sound(window, instant),
        instant <= reading.instant,
        update_fits(window, message, reading),
    ensures
        timer_sound(window_after(window, message, reading), reading.instant as int),
{
}

/// A message with what was read when it came in.
pub struct Step {
    pub message: Message,
    pub reading: Reading,
}

/// The window once all messages were handled, in order.
pub open spec fn after_all(window: WindowView, steps: Seq<Step>) -> WindowView
    decreases steps.len(),
{
    if steps.len() == 0 {
        window
    } else {
        window_after(
            after_all(window, steps.drop_last()),
            steps.last().message,
            steps.last().reading,
        )
    }
}

/// The monotonic clock does not go back over the steps, up to `instant`, and every message can
/// be handled.
pub open spec fn orderly(window: WindowView, steps: Seq<Step>, instant: int) -> bool
    decreases steps.len(),
{
    steps.len() == 0 || {
        let (before, last) = (steps.drop_last(), steps.last());
        &&& last.reading.instant <= instant
        &&& update_fits(after_all(window, before), last.message, last.reading)
        &&& orderly(window, before, last.reading.instant as int)
    }
}

/// Whatever messages came in since the applet started, the timer is not running and paused at
/// once, its length is a whole number of seconds up to 99 hours, and no more than that is left.
pub proof fn law_timer_always_sound(
    locale: Seq<char>,
    now: Zoned,
    config: ConfigView,
    steps: Seq<Step>,
    instant: int,
)
    requires
        orderly(window_at_start(locale, now, config), steps, instant),
    ensures
        timer_sound(after_all(window_at_start(locale, now, config), steps), instant),
    decreases steps.len(),
{
    if steps.len() > 0 {
        let (before, last) = (steps.drop_last(), steps.last());
        let start = window_at_start(locale, now, config);
        law_timer_always_sound(locale, now, config, before, last.reading.instant as int);
        law_timer_stays_sound(
            after_all(start, before),
            last.message,
            last.reading,
            last.reading.instant as int,
        );
    }
}

/// While the monotonic clock does not go back, no message makes the stopwatch show more than the
/// time since the origin of the clock, or a lap shorter than one before it.
pub proof fn law_stopwatch_stays_in_time(
    window: WindowView,
    message: Message,
    reading: Reading,
    instant: int,
)
    requires
        stopwatch_in_time(window, instant),
        0 <= instant <= reading.instant,
    ensures
        stopwatch_in_time(window_after(window, message, reading), reading.instant as int),
{
    lemma_stopwatch_in_time_later(window, instant, reading.instant as int);
    if concerns_stopwatch(message) || message is StopwatchLap {
        lemma_stopwatch_in_time(window, message, reading);
    } else {
        running_since_kept(window, message, reading);
        accumulated_kept(window, message, reading);
        laps_kept(window, message, reading);
    }
}

proof fn lemma_stopwatch_in_time_later(window: WindowView, instant: int, later: int)
    requires
        stopwatch_in_time(window, instant),
        instant <= later,
    ensures
        stopwatch_in_time(window, later),
{
    assert(window.stopwatch_elapsed(instant) <= window.stopwatch_elapsed(later));
}

/// Whatever messages came in since the applet started, the stopwatch shows no more than the time
/// since the origin of the clock, and no lap is shorter than one before it or longer than what
/// is shown.
pub proof fn law_stopwatch_always_in_time(
    locale: Seq<char>,
    now: Zoned,
    config: ConfigView,
    steps: Seq<Step>,
    instant: int,
)
    requires
        orderly(window_at_start(locale, now, config), steps, instant),
        0 <= instant,
    ensures
        stopwatch_in_time(after_all(window_at_start(locale, now, config), steps), instant),
    decreases steps.len(),
{
    if steps.len() > 0 {
        let (before, last) = (steps.drop_last(), steps.last());
        let start = window_at_start(locale, now, config);
        let read = last.reading.instant as int;
        law_stopwatch_always_in_time(locale, now, config, before, read);
        law_stopwatch_stays_in_time(after_all(start, before), last.message, last.reading, read);
        lemma_stopwatch_in_time_later(after_all(start, steps), read, instant);
    }
}

} // verus!
