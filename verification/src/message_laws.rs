//! What each message is for: the state that it leads to and what it sends out.

use vstd::prelude::*;
use crate::config::ConfigView;
use crate::date::{Date, Zoned};
use crate::panel::TextColor;
use crate::readout::{elapsed_short_text, law_clock_text_injective, SECOND};
use crate::window::{
    effects_of, update_fits, window_after, window_at_start, Message, Page, Reading, Rectangle,
    RectangleUpdate, SettingsTab, TaskView, TokenUpdate, WindowView, DURATION_MAX, TIMER_MAX_SECS,
};

verus! {

/// The applet starts with the date and time that were read, the calendar on today, the first
/// tab, the settings that were given, five minutes on the timer, and nothing going on.
pub proof fn law_start(locale: Seq<char>, now: Zoned, config: ConfigView)
    ensures
        ({
            let window = window_at_start(locale, now, config);
            &&& window.now == now && window.locale == locale && window.config == config
            &&& window.date_today == now.date && window.date_selected == now.date
            &&& window.popup is None && window.timezone is None
            &&& window.page == Page::Calendar && window.active_tab == SettingsTab::General
            &&& window.rectangle == (Rectangle { x: 0, y: 0, width: 0, height: 0 })
            &&& !window.rectangle_tracker && !window.token_tx && !window.show_seconds_tx
            &&& window.running_since is None && window.accumulated == 0 && window.laps.len() == 0
            &&& window.timer_duration == 5 * 60 * SECOND
            &&& window.timer_deadline is None && window.timer_paused is None
            &&& window.timer_finished_at is None && window.timer_hold is None
        }),
{
}

/// A tick takes over the wall clock that was read, date and time of day, and nothing else.
pub proof fn law_tick_follows_the_clock(window: WindowView, reading: Reading)
    ensures
        ({
            let after = window_after(window, Message::Tick, reading);
            &&& after.now.date.year == reading.now.date.year
            &&& after.now.date.month == reading.now.date.month
            &&& after.now.date.day == reading.now.date.day
            &&& after.now.hour == reading.now.hour
            &&& after.now.minute == reading.now.minute
            &&& after.now.second == reading.now.second
            &&& after == (WindowView { now: after.now, ..window })
        }),
{
}

/// After a tick the clock on the panel is that of an applet that starts with the time that was
/// read, whatever was shown before.
pub proof fn law_tick_renews_the_panel(window: WindowView, reading: Reading)
    ensures
        ({
            let after = window_after(window, Message::Tick, reading);
            let fresh = window_at_start(window.locale, reading.now, window.config);
            &&& after.horizontal_layout() == fresh.horizontal_layout()
            &&& after.vertical_layout() == fresh.vertical_layout()
        }),
{
}

/// Another time zone that is known becomes that of the applet, with its date as today and as
/// the selected date. One that is not known changes neither. The clock is read either way.
pub proof fn law_timezone_update(window: WindowView, message: Message, reading: Reading)
    requires
        message is TimezoneUpdate,
    ensures
        ({
            let after = window_after(window, message, reading);
            &&& after.now == reading.now
            &&& match reading.zoned {
                Some(zoned) => {
                    &&& after.timezone == Some(message->TimezoneUpdate_0@)
                    &&& after.date_today == zoned.date
                    &&& after.date_selected == zoned.date
                },
                None => {
                    &&& after.timezone == window.timezone
                    &&& after.date_today == window.date_today
                    &&& after.date_selected == window.date_selected
                },
            }
            &&& after == (WindowView {
                now: after.now,
                timezone: after.timezone,
                date_today: after.date_today,
                date_selected: after.date_selected,
                ..window
            })
        }),
{
}

/// The months are counted: January of a year follows on December of the year before.
pub open spec fn month_number(date: Date) -> int {
    12 * date.year + date.month
}

/// The selected date keeps its day of the month, or is the last day of its month where that is
/// shorter.
pub open spec fn keeps_day(before: Date, after: Date) -> bool {
    &&& after.valid()
    &&& after.day <= before.day
    &&& after.day < before.day ==> !(Date {
        year: after.year,
        month: after.month,
        day: (after.day + 1) as i8,
    }).valid()
}

/// The next month is the one right after that of the selected date, whatever today is. After
/// December 9999 nothing changes.
pub proof fn law_next_month(window: WindowView, reading: Reading)
    requires
        window.date_selected.valid(),
    ensures
        ({
            let before = window.date_selected;
            let after = window_after(window, Message::NextMonth, reading);
            &&& month_number(before) < 12 * 9999 + 12 ==> month_number(after.date_selected)
                == month_number(before) + 1
            &&& month_number(before) == 12 * 9999 + 12 ==> after == window
            &&& keeps_day(before, after.date_selected)
            &&& after == (WindowView { date_selected: after.date_selected, ..window })
        }),
{
}

/// The previous month is the one right before that of the selected date, whatever today is.
/// Before January -9999 nothing changes.
pub proof fn law_previous_month(window: WindowView, reading: Reading)
    requires
        window.date_selected.valid(),
    ensures
        ({
            let before = window.date_selected;
            let after = window_after(window, Message::PreviousMonth, reading);
            &&& month_number(before) > 12 * (-9999) + 1 ==> month_number(after.date_selected)
                == month_number(before) - 1
            &&& month_number(before) == 12 * (-9999) + 1 ==> after == window
            &&& keeps_day(before, after.date_selected)
            &&& after == (WindowView { date_selected: after.date_selected, ..window })
        }),
{
}

/// Pressing for the next month any number of times moves on by as many months.
pub proof fn law_next_month_repeated(window: WindowView, reading: Reading, presses: nat)
    requires
        window.date_selected.valid(),
        month_number(window.date_selected) + presses <= 12 * 9999 + 12,
    ensures
        pressed(window, Message::NextMonth, reading, presses).date_selected.valid(),
        month_number(pressed(window, Message::NextMonth, reading, presses).date_selected)
            == month_number(window.date_selected) + presses,
    decreases presses,
{
    if presses > 0 {
        let fewer = (presses - 1) as nat;
        law_next_month_repeated(window, reading, fewer);
        law_next_month(pressed(window, Message::NextMonth, reading, fewer), reading);
    }
}

/// Pressing for the previous month any number of times moves back by as many months.
pub proof fn law_previous_month_repeated(window: WindowView, reading: Reading, presses: nat)
    requires
        window.date_selected.valid(),
        month_number(window.date_selected) - presses >= 12 * (-9999) + 1,
    ensures
        pressed(window, Message::PreviousMonth, reading, presses).date_selected.valid(),
        month_number(pressed(window, Message::PreviousMonth, reading, presses).date_selected)
            == month_number(window.date_selected) - presses,
    decreases presses,
{
    if presses > 0 {
        let fewer = (presses - 1) as nat;
        law_previous_month_repeated(window, reading, fewer);
        law_previous_month(pressed(window, Message::PreviousMonth, reading, fewer), reading);
    }
}

/// The window once a message came in a number of times.
pub open spec fn pressed(
    window: WindowView,
    message: Message,
    reading: Reading,
    times: nat,
) -> WindowView
    decreases times,
{
    if times == 0 {
        window
    } else {
        window_after(pressed(window, message, reading, (times - 1) as nat), message, reading)
    }
}

/// Selecting a day goes to that day of the month on show, and is refused where the month does
/// not have it.
pub proof fn law_select_day(window: WindowView, day: i8, reading: Reading)
    ensures
        ({
            let wanted = Date {
                year: window.date_selected.year,
                month: window.date_selected.month,
                day,
            };
            let after = window_after(window, Message::SelectDay(day), reading);
            &&& wanted.valid() ==> after.date_selected == wanted
            &&& !wanted.valid() ==> after.date_selected == window.date_selected
            &&& after == (WindowView { date_selected: after.date_selected, ..window })
            &&& effects_of(window, Message::SelectDay(day), reading).invalid_date
                == !wanted.valid()
        }),
{
}

/// A click on the panel with the popup open closes it, and changes nothing else.
pub proof fn law_click_closes(window: WindowView, reading: Reading)
    requires
        window.popup is Some,
    ensures
        ({
            let after = window_after(window, Message::TogglePopup, reading);
            &&& after.popup is None
            &&& after == (WindowView { popup: None, ..window })
            &&& effects_of(window, Message::TogglePopup, reading).task
                == TaskView::DestroyPopup(window.popup->0)
        }),
{
}

/// A click on the panel with the popup closed opens it, goes back to today, puts an alarm out,
/// and turns to the page of what is counting. Nothing else changes.
pub proof fn law_click_opens(window: WindowView, reading: Reading)
    requires
        window.popup is None,
    ensures
        ({
            let after = window_after(window, Message::TogglePopup, reading);
            let alarm = window.timer_finished_at is Some;
            &&& after.popup == Some(reading.new_id)
            &&& after.date_today == window.now.date && after.date_selected == window.now.date
            &&& after.timer_finished_at is None
            &&& after.timer_deadline == (if alarm { None } else { window.timer_deadline })
            &&& after.timer_paused == (if alarm { None } else { window.timer_paused })
            &&& after.page == (if after.timer_deadline is Some {
                Page::Timer
            } else if window.running_since is Some {
                Page::Stopwatch
            } else {
                Page::Calendar
            })
            &&& after == (WindowView {
                popup: after.popup,
                date_today: after.date_today,
                date_selected: after.date_selected,
                timer_finished_at: None,
                timer_deadline: after.timer_deadline,
                timer_paused: after.timer_paused,
                page: after.page,
                ..window
            })
        }),
{
}

/// `shown` is `asked`, or 1 where that is smaller.
pub open spec fn at_least_one_of(asked: i32, shown: i32) -> bool {
    &&& shown >= 1
    &&& asked >= 1 ==> shown == asked
    &&& asked < 1 ==> shown == 1
}

/// The popup that a click opens is anchored where the panel button was last seen, with no
/// coordinate below 1, under the number that was read.
pub proof fn law_popup_at_the_button(
    window: WindowView,
    place: Rectangle,
    seen: Reading,
    click: Reading,
)
    requires
        window.popup is None,
    ensures
        ({
            let update = Message::Rectangle(RectangleUpdate::Rectangle(place));
            let placed = window_after(window, update, seen);
            let task = effects_of(placed, Message::TogglePopup, click).task;
            &&& placed == (WindowView { rectangle: place, ..window })
            &&& task is GetPopup
            &&& task->GetPopup_id == click.new_id
            &&& at_least_one_of(place.x, task->anchor.x)
            &&& at_least_one_of(place.y, task->anchor.y)
            &&& at_least_one_of(place.width, task->anchor.width)
            &&& at_least_one_of(place.height, task->anchor.height)
        }),
{
}

/// That the button is tracked, and whether tokens can be asked for, is noted, and nothing else.
pub proof fn law_trackers_are_noted(window: WindowView, reading: Reading)
    ensures
        window_after(window, Message::Rectangle(RectangleUpdate::Init), reading) == (WindowView {
            rectangle_tracker: true,
            ..window
        }),
        window_after(window, Message::Token(TokenUpdate::Init), reading) == (WindowView {
            token_tx: true,
            ..window
        }),
        window_after(window, Message::Token(TokenUpdate::Finished), reading) == (WindowView {
            token_tx: false,
            ..window
        }),
        window_after(window, Message::Token(TokenUpdate::ActivationToken), reading) == window,
        window_after(window, Message::Surface, reading) == window,
        effects_of(window, Message::Surface, reading).task == TaskView::Surface,
{
}

/// The popup that was closed from outside is forgotten. Other windows do not matter.
pub proof fn law_close_requested(window: WindowView, id: u64, reading: Reading)
    ensures
        ({
            let after = window_after(window, Message::CloseRequested(id), reading);
            &&& window.popup == Some(id) ==> after.popup is None
            &&& window.popup != Some(id) ==> after.popup == window.popup
            &&& after == (WindowView { popup: after.popup, ..window })
        }),
{
}

/// Settings from outside replace all settings, and tell the clock tick whether seconds are
/// shown where that is new.
pub proof fn law_config_changed(window: WindowView, message: Message, reading: Reading)
    requires
        message is ConfigChanged,
    ensures
        ({
            let config = message->ConfigChanged_0;
            let after = window_after(window, message, reading);
            &&& after.config.military_time == config.military_time
            &&& after.config.show_seconds == config.show_seconds
            &&& after.config.first_day_of_week == config.first_day_of_week
            &&& after.config.show_date_in_top_panel == config.show_date_in_top_panel
            &&& after.config.show_weekday == config.show_weekday
            &&& after.config.show_persian_calendar == config.show_persian_calendar
            &&& after.config.additional_clocks.len() == config.additional_clocks@.len()
            &&& forall|i: int|
                0 <= i < config.additional_clocks@.len() ==> after.config.additional_clocks[i]
                    == (#[trigger] config.additional_clocks@[i])@
            &&& after.show_seconds_tx == config.show_seconds
            &&& after == (WindowView {
                config: after.config,
                show_seconds_tx: after.show_seconds_tx,
                ..window
            })
            &&& effects_of(window, message, reading).show_seconds == (if config.show_seconds
                == window.show_seconds_tx {
                None
            } else {
                Some(config.show_seconds)
            })
        }),
{
}

/// Each switch sets the setting that it is named after, leaves all others, and has the settings
/// written out.
pub proof fn law_switches(window: WindowView, value: bool, reading: Reading)
    ensures
        window_after(window, Message::SetMilitaryTime(value), reading) == (WindowView {
            config: ConfigView { military_time: value, ..window.config },
            ..window
        }),
        window_after(window, Message::SetShowSeconds(value), reading) == (WindowView {
            config: ConfigView { show_seconds: value, ..window.config },
            ..window
        }),
        window_after(window, Message::SetShowDate(value), reading) == (WindowView {
            config: ConfigView { show_date_in_top_panel: value, ..window.config },
            ..window
        }),
        window_after(window, Message::SetShowWeekday(value), reading) == (WindowView {
            config: ConfigView { show_weekday: value, ..window.config },
            ..window
        }),
        window_after(window, Message::SetShowPersianCalendar(value), reading) == (WindowView {
            config: ConfigView { show_persian_calendar: value, ..window.config },
            ..window
        }),
{
}

/// The day that weeks start with is kept as a byte, and nothing else changes.
pub proof fn law_first_day_kept(window: WindowView, index: usize, reading: Reading)
    ensures
        ({
            let after = window_after(window, Message::SetFirstDayOfWeek(index), reading);
            &&& after.config.first_day_of_week as int == index as int % 256
            &&& after == (WindowView {
                config: ConfigView {
                    first_day_of_week: after.config.first_day_of_week,
                    ..window.config
                },
                ..window
            })
        }),
{
}

/// Activating a tab shows it, and page buttons change the page alone.
pub proof fn law_tabs_and_pages(window: WindowView, tab: SettingsTab, reading: Reading)
    ensures
        window_after(window, Message::TabActivated(tab), reading) == (WindowView {
            active_tab: tab,
            ..window
        }),
        ({
            let after = window_after(window, Message::ToggleSettings, reading);
            after == (WindowView { page: after.page, ..window })
        }),
        ({
            let after = window_after(window, Message::ToggleStopwatch, reading);
            after == (WindowView { page: after.page, ..window })
        }),
        ({
            let after = window_after(window, Message::ToggleTimer, reading);
            after == (WindowView { page: after.page, ..window })
        }),
{
}

/// A city that was selected gets a clock behind all others, once.
pub proof fn law_city_gets_the_last_clock(window: WindowView, message: Message, reading: Reading)
    requires
        message is SelectCity,
    ensures
        ({
            let name = message->SelectCity_0.timezone@;
            let (before, after) = (window, window_after(window, message, reading));
            let (old, new) = (before.config.additional_clocks, after.config.additional_clocks);
            &&& old.contains(name) ==> new == old
            &&& !old.contains(name) ==> new.len() == old.len() + 1 && new.last() == name
                && forall|i: int| 0 <= i < old.len() ==> #[trigger] new[i] == old[i]
            &&& after == (WindowView {
                config: ConfigView { additional_clocks: new, ..window.config },
                ..window
            })
        }),
{
}

/// Removing a clock takes that one out and closes the gap. There is nothing to take out behind
/// the last one.
pub proof fn law_clock_is_taken_out(window: WindowView, index: usize, reading: Reading)
    ensures
        ({
            let after = window_after(window, Message::RemoveClock(index), reading);
            let (old, new) = (window.config.additional_clocks, after.config.additional_clocks);
            &&& index >= old.len() ==> new == old
            &&& index < old.len() ==> new.len() == old.len() - 1
            &&& index < old.len() ==> forall|i: int|
                0 <= i < index ==> #[trigger] new[i] == old[i]
            &&& index < old.len() ==> forall|i: int|
                index <= i < new.len() ==> #[trigger] new[i] == old[i + 1]
            &&& after == (WindowView {
                config: ConfigView { additional_clocks: new, ..window.config },
                ..window
            })
        }),
{
}

/// The stopwatch starts from the instant that was read, and folds what it counted since into
/// its total when it is paused.
pub proof fn law_stopwatch_segments(window: WindowView, reading: Reading)
    requires
        update_fits(window, Message::StopwatchStartPause, reading),
    ensures
        ({
            let after = window_after(window, Message::StopwatchStartPause, reading);
            &&& match window.running_since {
                None => after.running_since == Some(reading.instant) && after.accumulated
                    == window.accumulated,
                Some(start) => after.running_since is None && after.accumulated
                    == window.accumulated + (if start <= reading.instant {
                    reading.instant - start
                } else {
                    0
                }),
            }
            &&& after == (WindowView {
                running_since: after.running_since,
                accumulated: after.accumulated,
                ..window
            })
        }),
{
}

/// A lap and a reset touch the stopwatch alone.
pub proof fn law_stopwatch_alone(window: WindowView, reading: Reading)
    ensures
        ({
            let after = window_after(window, Message::StopwatchLap, reading);
            after == (WindowView { laps: after.laps, ..window })
        }),
        window_after(window, Message::StopwatchReset, reading) == (WindowView {
            running_since: None,
            accumulated: 0,
            laps: Seq::empty(),
            ..window
        }),
{
}

/// A timer that runs is paused with what is left until its end. One that does not is started
/// for what was left of it, or for its length, where there is anything to count.
pub proof fn law_timer_start_pause(window: WindowView, reading: Reading)
    requires
        update_fits(window, Message::TimerStartPause, reading),
    ensures
        ({
            let after = window_after(window, Message::TimerStartPause, reading);
            &&& match window.timer_deadline {
                Some(end) => {
                    &&& after.timer_deadline is None
                    &&& after.timer_paused is Some
                    &&& after.timer_paused->0 == (if reading.instant <= end {
                        end - reading.instant
                    } else {
                        0
                    })
                },
                None => {
                    let left = match window.timer_paused {
                        Some(left) => left,
                        None => window.timer_duration,
                    };
                    &&& after.timer_paused is None
                    &&& after.timer_deadline is Some <==> left > 0
                    &&& left > 0 ==> after.timer_deadline->0 == reading.instant + left
                },
            }
            &&& after == (WindowView {
                timer_deadline: after.timer_deadline,
                timer_paused: after.timer_paused,
                ..window
            })
        }),
{
}

/// A reset stops the countdown and puts an alarm out, and changes nothing else.
pub proof fn law_timer_reset_alone(window: WindowView, reading: Reading)
    ensures
        window_after(window, Message::TimerReset, reading) == (WindowView {
            timer_deadline: None,
            timer_paused: None,
            timer_finished_at: None,
            ..window
        }),
{
}

/// Adding to the countdown changes its length alone, and only while the timer is idle.
pub proof fn law_add_changes_the_length_alone(window: WindowView, delta: i64, reading: Reading)
    ensures
        ({
            let after = window_after(window, Message::TimerAdd(delta), reading);
            &&& after == (WindowView { timer_duration: after.timer_duration, ..window })
            &&& window.timer_deadline is Some || window.timer_paused is Some
                || window.timer_finished_at is Some ==> after == window
        }),
{
}

/// A stepper that is pressed takes one step and is held; each repeat takes another step of the
/// same size; the release ends that.
pub proof fn law_hold_repeats_the_step(
    window: WindowView,
    delta: i64,
    press: Reading,
    repeat: Reading,
)
    ensures
        ({
            let held = window_after(window, Message::TimerHoldStart(delta), press);
            let repeated = window_after(held, Message::TimerHoldTick, repeat);
            &&& held == (WindowView {
                timer_hold: Some(delta),
                ..window_after(window, Message::TimerAdd(delta), press)
            })
            &&& repeated == window_after(held, Message::TimerAdd(delta), repeat)
            &&& window_after(repeated, Message::TimerHoldStop, repeat) == (WindowView {
                timer_hold: None,
                ..repeated
            })
        }),
{
}

/// A fast tick finds the countdown over where its end has come. Then the alarm starts at the
/// instant that was read, with the readout in red, and otherwise nothing changes.
pub proof fn law_fast_tick_ends_the_countdown(window: WindowView, reading: Reading)
    ensures
        ({
            let after = window_after(window, Message::FastTick, reading);
            match window.timer_deadline {
                Some(end) if end <= reading.instant => {
                    &&& after == (WindowView {
                        timer_deadline: None,
                        timer_paused: None,
                        timer_finished_at: Some(reading.instant),
                        ..window
                    })
                    &&& after.timer_text_color(reading.instant as int) == Some(TextColor::Red)
                },
                _ => after == window,
            }
        }),
{
}

/// The notification names the length of the countdown that is over.
pub proof fn law_notification_names_the_length(window: WindowView, end: u128, reading: Reading)
    requires
        window.timer_deadline == Some(end),
        end <= reading.instant,
    ensures
        effects_of(window, Message::FastTick, reading).task == (TaskView::Notify {
            summary: "Timer finished"@,
            body: "Your "@ + elapsed_short_text(window.timer_duration as nat)
                + " timer is done."@,
        }),
{
}

/// Countdowns whose lengths differ by a second or more are notified with different texts.
pub proof fn law_notifications_tell_lengths_apart(
    a: WindowView,
    b: WindowView,
    x: Reading,
    y: Reading,
)
    requires
        effects_of(a, Message::FastTick, x).task is Notify,
        effects_of(b, Message::FastTick, y).task is Notify,
        a.timer_duration + SECOND <= b.timer_duration,
    ensures
        effects_of(a, Message::FastTick, x).task->body != effects_of(
            b,
            Message::FastTick,
            y,
        ).task->body,
{
    let (s, t) = (
        elapsed_short_text(a.timer_duration as nat),
        elapsed_short_text(b.timer_duration as nat),
    );
    let (front, back) = ("Your "@, " timer is done."@);
    let (first, second) = (
        effects_of(a, Message::FastTick, x).task->body,
        effects_of(b, Message::FastTick, y).task->body,
    );
    law_notification_names_the_length(a, a.timer_deadline->0, x);
    law_notification_names_the_length(b, b.timer_deadline->0, y);
    if first == second {
        assert(first.subrange(front.len() as int, first.len() - back.len()) == s);
        assert(second.subrange(front.len() as int, second.len() - back.len()) == t);
        law_clock_text_injective(
            (a.timer_duration as nat) / (SECOND as nat),
            (b.timer_duration as nat) / (SECOND as nat),
        );
    }
}

/// A timer of a length that was set, started and left alone until it is over, is notified with
/// that length.
pub proof fn law_timer_from_start_to_notification(
    window: WindowView,
    start: Reading,
    end: Reading,
)
    requires
        window.timer_idle(),
        window.timer_duration > 0,
        update_fits(window, Message::TimerStartPause, start),
        start.instant + window.timer_duration <= end.instant,
    ensures
        ({
            let running = window_after(window, Message::TimerStartPause, start);
            effects_of(running, Message::FastTick, end).task == (TaskView::Notify {
                summary: "Timer finished"@,
                body: "Your "@ + elapsed_short_text(window.timer_duration as nat)
                    + " timer is done."@,
            })
        }),
{
}

/// The alarm flashes from its start: red for half a second, then gone for half a second.
pub proof fn law_alarm_flashes_from_its_start(window: WindowView, tick: Reading, later: int)
    requires
        window.timer_deadline is Some,
        window.timer_deadline->0 <= tick.instant,
        tick.instant <= later,
    ensures
        ({
            let alarm = window_after(window, Message::FastTick, tick);
            alarm.timer_text_color(later) == Some(
                if ((later - tick.instant) / 500_000_000) % 2 == 0 {
                    TextColor::Red
                } else {
                    TextColor::Transparent
                },
            )
        }),
{
}

/// The repaint period: a tenth of a second while the stopwatch or the timer counts on a page
/// that is on screen, half a second while an alarm flashes, a second while only the panel
/// counts, and none otherwise.
pub proof fn law_cadence(window: WindowView)
    ensures
        ({
            let counting = window.running_since is Some || window.timer_deadline is Some;
            let readout = window.popup is Some && (window.page == Page::Stopwatch || window.page
                == Page::Timer);
            let alarm = window.timer_finished_at is Some;
            &&& counting && readout ==> window.desired_tick() == Some(100u64)
            &&& alarm && !(counting && readout) ==> window.desired_tick() == Some(500u64)
            &&& counting && !readout && !alarm ==> window.desired_tick() == Some(1000u64)
            &&& !counting && !alarm ==> window.desired_tick() is None
        }),
{
}

/// Settings are written out where the user changed them, and only then.
#[verifier::rlimit(40)]
pub proof fn law_when_settings_are_saved(window: WindowView, message: Message, reading: Reading)
    ensures
        effects_of(window, message, reading).save_config <==> match message {
            Message::SetMilitaryTime(_) => true,
            Message::SetShowSeconds(_) => true,
            Message::SetShowDate(_) => true,
            Message::SetShowWeekday(_) => true,
            Message::SetFirstDayOfWeek(_) => true,
            Message::SetShowPersianCalendar(_) => true,
            Message::SelectCity(entry) => !window.config.additional_clocks.contains(
                entry.timezone@,
            ),
            Message::RemoveClock(index) => index < window.config.additional_clocks.len(),
            _ => false,
        },
{
}

/// The city search starts over with each city that was selected, and a date is invalid only
/// where a day was to be selected.
#[verifier::rlimit(40)]
pub proof fn law_when_search_starts_over(window: WindowView, message: Message, reading: Reading)
    ensures
        effects_of(window, message, reading).reset_city_search <==> message is SelectCity,
        effects_of(window, message, reading).invalid_date ==> message is SelectDay,
{
}

/// The hold repeater is told of each press and each release, and of nothing else.
#[verifier::rlimit(40)]
pub proof fn law_when_hold_is_sent(window: WindowView, message: Message, reading: Reading)
    ensures
        effects_of(window, message, reading).hold == (match message {
            Message::TimerHoldStart(delta) => Some(Some(delta)),
            Message::TimerHoldStop => Some(None::<i64>),
            _ => None,
        }),
{
}

/// The repaint period is sent with the messages that can change it, and with no others.
#[verifier::rlimit(40)]
pub proof fn law_when_tick_is_sent(window: WindowView, message: Message, reading: Reading)
    ensures
        effects_of(window, message, reading).tick is Some <==> match message {
            Message::TogglePopup => true,
            Message::CloseRequested(id) => window.popup == Some(id),
            Message::ToggleSettings => true,
            Message::ToggleStopwatch => true,
            Message::ToggleTimer => true,
            Message::StopwatchStartPause => true,
            Message::StopwatchReset => true,
            Message::TimerStartPause => true,
            Message::TimerReset => true,
            Message::FastTick => window.timer_deadline is Some && window.timer_deadline->0
                <= reading.instant,
            _ => false,
        },
{
}

/// Only a click on the panel opens or destroys a popup, only a surface action is handed on, and
/// only the end of a countdown is notified.
#[verifier::rlimit(40)]
pub proof fn law_when_tasks_are_left(window: WindowView, message: Message, reading: Reading)
    ensures
        ({
            let task = effects_of(window, message, reading).task;
            &&& task is DestroyPopup <==> message is TogglePopup && window.popup is Some
            &&& task is GetPopup <==> message is TogglePopup && window.popup is None
            &&& task is Surface <==> message is Surface
            &&& task is Notify <==> message is FastTick && window.timer_deadline is Some
                && window.timer_deadline->0 <= reading.instant
        }),
{
}

/// What the stopwatch shows is what it had counted, and the time since it was started last
/// where it runs.
pub proof fn law_stopwatch_reads(window: WindowView, instant: int)
    ensures
        window.running_since is None ==> window.stopwatch_elapsed(instant) == window.accumulated,
        window.running_since is Some && instant >= window.running_since->0
            ==> window.stopwatch_elapsed(instant) == window.accumulated + instant
            - window.running_since->0,
        window.running_since is Some && instant < window.running_since->0
            ==> window.stopwatch_elapsed(instant) == window.accumulated,
{
}

/// What is left on the timer: the time until its end while it runs, what was left when it was
/// paused, and otherwise its whole length.
pub proof fn law_timer_reads(window: WindowView, instant: int)
    ensures
        window.timer_deadline is Some && instant <= window.timer_deadline->0
            ==> window.timer_remaining(instant) == window.timer_deadline->0 - instant,
        window.timer_deadline is Some && instant > window.timer_deadline->0
            ==> window.timer_remaining(instant) == 0,
        window.timer_deadline is None && window.timer_paused is Some
            ==> window.timer_remaining(instant) == window.timer_paused->0,
        window.timer_deadline is None && window.timer_paused is None
            ==> window.timer_remaining(instant) == window.timer_duration,
{
}

/// Any finite run of steps of a stepper adds up, as long as it stays within zero and 99 hours.
pub proof fn law_steps_add_up(window: WindowView, a: i64, b: i64, x: Reading, y: Reading)
    requires
        window.wf(),
        window.timer_idle(),
        -1_000_000 <= a <= 1_000_000,
        -1_000_000 <= b <= 1_000_000,
        0 <= window.timer_duration + a * SECOND <= TIMER_MAX_SECS * SECOND,
        0 <= window.timer_duration + (a + b) * SECOND <= TIMER_MAX_SECS * SECOND,
    ensures
        window_after(
            window_after(window, Message::TimerAdd(a), x),
            Message::TimerAdd(b),
            y,
        ) == window_after(window, Message::TimerAdd((a + b) as i64), y),
{
}

/// A message can be handled unless the stopwatch or the end of the countdown would leave the
/// range of durations.
#[verifier::rlimit(40)]
pub proof fn law_when_messages_fit(window: WindowView, message: Message, reading: Reading)
    ensures
        update_fits(window, message, reading) <==> match message {
            Message::StopwatchStartPause => window.stopwatch_elapsed(reading.instant as int)
                <= DURATION_MAX,
            Message::StopwatchLap => window.stopwatch_elapsed(reading.instant as int)
                <= DURATION_MAX,
            Message::TimerStartPause => window.timer_deadline is None ==> reading.instant
                + window.timer_remaining(reading.instant as int) <= DURATION_MAX,
            _ => true,
        },
{
}

} // verus!
