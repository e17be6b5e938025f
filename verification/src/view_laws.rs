//! What is on show: how the panel and the pages follow from the state of the applet.

use vstd::prelude::*;
use crate::calendar::{
    clock_row_views, date_button_view, datetime_of, law_grid_in_a_row, law_grid_shows_month,
    place_name, ButtonStyle, CalendarPage, ClockRowView, HeaderView,
};
use crate::cities::CityEntry;
use crate::config::Setting;
use crate::date::{
    days_before_month, law_calendar_first, law_ordinal_orders, max_ordinal, min_ordinal,
    ordinal_from_monday, Date, Zoned,
};
use crate::datetime::{
    date_text, month_day_text, month_day_time_text, opt_text, persian_date, persian_date_text,
    short_weekday_time_text, time_text, weekday_text, weekday_time_text, HourCycle, Length,
};
use crate::message_laws::law_first_day_kept;
use crate::pages::{
    close_message, ButtonView, PopupPage, Scroll, StepperView, StopwatchPage, TimerPage,
};
use crate::panel::{ContentView, Panel, PanelMetrics, PieceView, TextClass, TextColor};
use crate::readout::{elapsed_short_text, elapsed_text, SECOND};
use crate::settings::{
    city_message, first_day_message, CalendarSettings, ClocksSettings, GeneralSettings,
    SettingsContent, SettingsPage,
};
use crate::text::{all_fields, decimal, farsi_decimal, padded, signed_decimal, words};
use crate::text_laws::{law_padded_reads_back, law_signed_reads_back, number};
use crate::window::{
    window_after, Message, Page, Reading, SettingsTab, WindowView, TIMER_MAX_SECS,
};

verus! {

/// Without the Persian calendar the weeks start with the weekday that was chosen, counted from
/// Monday, and with Sunday where the number stands for none. With it they start on Friday.
pub proof fn law_weeks_start_as_chosen(window: WindowView)
    requires
        window.has_grid_dates(),
    ensures
        ({
            let first = ordinal_from_monday(window.grid_date(0).ordinal());
            let chosen = window.config.first_day_of_week;
            &&& !window.config.show_persian_calendar && chosen < 7 ==> first == chosen
            &&& !window.config.show_persian_calendar && chosen >= 7 ==> first == 6
            &&& window.config.show_persian_calendar ==> first == 4
        }),
{
    law_grid_in_a_row(window, 0);
}

/// Whichever of the seven days is chosen, the calendar then starts with that weekday, at most
/// six days before the first of the month.
pub proof fn law_choice_moves_the_weeks(window: WindowView, index: usize, reading: Reading)
    requires
        index < 7,
        !window.config.show_persian_calendar,
        window_after(window, first_day_message(index), reading).has_grid_dates(),
    ensures
        ({
            let after = window_after(window, first_day_message(index), reading);
            let first = after.grid_date(0);
            &&& after.date_selected == window.date_selected
            &&& ordinal_from_monday(first.ordinal()) == index
            &&& after.date_selected.month_start().ordinal() - 6 <= first.ordinal()
                <= after.date_selected.month_start().ordinal()
        }),
{
    law_first_day_kept(window, index, reading);
    let after = window_after(window, first_day_message(index), reading);
    law_weeks_start_as_chosen(after);
    law_grid_in_a_row(after, 0);
    law_calendar_first(after.date_selected.month_start(), after.first_weekday());
}

/// The calendar of every month has its dates, but for the very first and the very last years.
pub proof fn law_calendar_has_its_dates(window: WindowView)
    requires
        window.date_selected.valid(),
        -9999 < window.date_selected.year < 9999,
    ensures
        window.has_grid_dates(),
{
    let start = window.date_selected.month_start();
    let early = Date { year: (-9999) as i16, month: 2, day: 1 };
    let late = Date { year: 9999, month: 1, day: 1 };
    law_calendar_first(start, window.first_weekday());
    law_ordinal_orders(early, start);
    law_ordinal_orders(start, late);
    reveal_with_fuel(days_before_month, 3);
}

/// The calendar has a head of seven columns over six weeks of seven days.
pub proof fn law_calendar_is_six_weeks(window: WindowView, week: int)
    requires
        0 <= week < 6,
    ensures
        window.calendar_grid().header.len() == 7,
        window.calendar_grid().weeks.len() == 6,
        window.calendar_grid().weeks[week].len() == 7,
{
}

/// A column has the logo where its days are Tuesdays, and otherwise the short name of their
/// weekday in the words of the locale.
pub proof fn law_column_heads(window: WindowView, column: int)
    requires
        window.has_calendar_grid(),
        0 <= column < 7,
    ensures
        ({
            let date = window.grid_date(column);
            let head = window.calendar_grid().header[column];
            let name = weekday_text(
                window.locale,
                Length::Short,
                date.year as int,
                date.month as int,
                date.day as int,
            );
            &&& head is Logo <==> ordinal_from_monday(date.ordinal()) == 1
            &&& !(head is Logo) ==> name is Some && head == HeaderView::Caption(name->0)
        }),
{
    assert(window.has_header_cell(window.grid_date(column)));
}

/// The button of a day has its number, stands out where it is the selected day, or else less so
/// where it is today, and can be pressed where it lies in the month on show. With the Persian
/// calendar it has the day of the month there in Persian digits.
pub proof fn law_day_buttons(window: WindowView, week: int, column: int)
    requires
        window.has_calendar_grid(),
        0 <= week < 6,
        0 <= column < 7,
    ensures
        ({
            let date = window.grid_date(7 * week + column);
            let button = window.calendar_grid().weeks[week][column];
            let persian = persian_date(date.year as int, date.month as int, date.day as int);
            &&& number(button.label) == date.day
            &&& button.style == ButtonStyle::Suggested <==> date == window.date_selected
            &&& button.style == ButtonStyle::Standard <==> date != window.date_selected && date
                == window.date_today
            &&& button.on_press == (if date.year == window.date_selected.year && date.month
                == window.date_selected.month {
                Some(Message::SelectDay(date.day))
            } else {
                None
            })
            &&& !window.config.show_persian_calendar ==> button.farsi is None
            &&& window.config.show_persian_calendar ==> persian is Some && button.farsi == Some(
                farsi_decimal(persian->0.day as nat),
            )
        }),
{
    let date = window.grid_date(7 * week + column);
    assert(window.has_day_cell(window.grid_date(7 * week + column)));
    law_grid_in_a_row(window, 7 * week + column);
    law_signed_reads_back(date.day as int);
}

/// The calendar page names the selected date and its weekday at full length, in the words of the
/// locale.
pub proof fn law_page_names_the_date(
    page: CalendarPage,
    window: WindowView,
    readings: Seq<Option<Zoned>>,
)
    requires
        page.shows(window, readings),
    ensures
        ({
            let date = window.date_selected;
            let (year, month, day) = (date.year as int, date.month as int, date.day as int);
            &&& Some(page.date@) == date_text(window.locale, year, month, day)
            &&& Some(page.day_of_week@) == weekday_text(
                window.locale,
                Length::Long,
                year,
                month,
                day,
            )
            &&& page.has_clocks <==> window.config.additional_clocks.len() > 0
        }),
{
}

/// The Persian date beside the selected date is that of this very date, in Persian, and the
/// button of the selected day has the day of the Persian calendar of this very date.
pub proof fn law_shamsi_of_the_selected_day(
    page: CalendarPage,
    window: WindowView,
    readings: Seq<Option<Zoned>>,
    year: int,
    month: int,
    day: int,
)
    requires
        page.shows(window, readings),
        window.has_calendar_grid(),
        window.date_selected.valid(),
        year == window.date_selected.year,
        month == window.date_selected.month,
        day == window.date_selected.day,
    ensures
        !window.config.show_persian_calendar ==> page.shamsi is None,
        window.config.show_persian_calendar ==> {
            let index = window.date_selected.ordinal() - window.grid_start();
            let button = page.grid@.weeks[index / 7][index % 7];
            &&& 0 <= index < 42
            &&& opt_text(page.shamsi) == persian_date_text("fa"@, year, month, day)
            &&& button.style == ButtonStyle::Suggested
            &&& persian_date(year, month, day) is Some
            &&& button.farsi == Some(farsi_decimal(persian_date(year, month, day)->0.day as nat))
        },
{
    let index = window.date_selected.ordinal() - window.grid_start();
    law_grid_shows_month(window, window.date_selected.day);
    assert(window.date_selected.day_of_same_month(window.date_selected.day)
        == Some(window.date_selected));
    assert(7 * (index / 7) + index % 7 == index);
    law_day_buttons(window, index / 7, index % 7);
}

/// The Persian text of a date is what the formatter writes in Persian for its year, month and
/// day, whatever the window.
pub proof fn law_shamsi_of_a_date(window: WindowView, date: Date)
    ensures
        window.shamsi_date(date) == persian_date_text(
            "fa"@,
            date.year as int,
            date.month as int,
            date.day as int,
        ),
{
}

/// The calendar page is there exactly where its dates exist and its texts can be written.
pub proof fn law_when_the_page_is_there(window: WindowView, readings: Seq<Option<Zoned>>)
    ensures
        ({
            let date = window.date_selected;
            let (year, month, day) = (date.year as int, date.month as int, date.day as int);
            window.has_calendar_page(readings) <==> {
                &&& date_text(window.locale, year, month, day) is Some
                &&& weekday_text(window.locale, Length::Long, year, month, day) is Some
                &&& window.config.show_persian_calendar ==> persian_date_text(
                    "fa"@,
                    year,
                    month,
                    day,
                ) is Some
                &&& min_ordinal() <= window.grid_start() <= max_ordinal() - 41
                &&& forall|i: int|
                    #![trigger window.grid_date(i)]
                    0 <= i < 7 && ordinal_from_monday(window.grid_date(i).ordinal()) != 1
                        ==> weekday_text(
                        window.locale,
                        Length::Short,
                        window.grid_date(i).year as int,
                        window.grid_date(i).month as int,
                        window.grid_date(i).day as int,
                    ) is Some
                &&& window.config.show_persian_calendar ==> forall|i: int|
                    #![trigger window.grid_date(i)]
                    0 <= i < 42 ==> persian_date(
                        window.grid_date(i).year as int,
                        window.grid_date(i).month as int,
                        window.grid_date(i).day as int,
                    ) is Some
                &&& forall|i: int|
                    0 <= i < readings.len() && (#[trigger] readings[i]) is Some
                        ==> window.clock_time(readings[i]->0) is Some
            }
        }),
{
}

/// A clock shows weekday, date and time of its own reading, in the words of the locale, with
/// hours up to 23 where the settings say so, and otherwise up to 12.
pub proof fn law_clock_shows_its_reading(window: WindowView, zoned: Zoned)
    ensures
        window.clock_time(zoned) == short_weekday_time_text(
            window.locale,
            if window.config.military_time {
                HourCycle::H23
            } else {
                HourCycle::H12
            },
            zoned.date.year as int,
            zoned.date.month as int,
            zoned.date.day as int,
            zoned.hour as int,
            zoned.minute as int,
        ),
{
}

/// How many clocks have a time.
pub open spec fn known(times: Seq<Option<Seq<char>>>) -> nat
    decreases times.len(),
{
    if times.len() == 0 {
        0
    } else {
        known(times.drop_last()) + if times.last() is Some {
            1nat
        } else {
            0nat
        }
    }
}

/// There is a row for each clock that has a time, in order, with the name of its place and a
/// colon, and its time.
pub proof fn law_clock_rows(names: Seq<Seq<char>>, times: Seq<Option<Seq<char>>>)
    ensures
        clock_row_views(names, times).len() == known(times),
        forall|k: int|
            0 <= k < times.len() && (#[trigger] times[k]) is Some ==> known(times.take(k)) < known(
                times,
            ) && clock_row_views(names, times)[known(times.take(k)) as int] == (ClockRowView {
                label: place_name(names[k]).push(':'),
                time: times[k]->0,
            }),
    decreases times.len(),
{
    if times.len() > 0 {
        let front = times.drop_last();
        law_clock_rows(names, front);
        assert forall|k: int| 0 <= k < times.len() && (#[trigger] times[k]) is Some implies known(
            times.take(k),
        ) < known(times) && clock_row_views(names, times)[known(times.take(k)) as int] == (
        ClockRowView { label: place_name(names[k]).push(':'), time: times[k]->0 }) by {
            if k < front.len() {
                assert(front[k] == times[k]);
                assert(times.take(k) == front.take(k));
            } else {
                assert(times.take(k) == front);
            }
        }
    }
}

/// The page has a row for each clock whose time zone is known: that of clock `k` stands behind
/// those of the known clocks before it, and shows the reading of its own zone.
pub proof fn law_page_has_the_clocks(
    page: CalendarPage,
    window: WindowView,
    readings: Seq<Option<Zoned>>,
    k: int,
)
    requires
        page.shows(window, readings),
        window.has_clock_times(readings),
        0 <= k < readings.len(),
    ensures
        ({
            let times = window.clock_times(readings);
            let row = known(times.take(k)) as int;
            &&& page.clocks@.len() == known(times)
            &&& times[k] is Some <==> readings[k] is Some
            &&& readings[k] is Some ==> {
                &&& row < page.clocks@.len()
                &&& page.clocks@[row].label@ == place_name(
                    window.config.additional_clocks[k],
                ).push(':')
                &&& Some(page.clocks@[row].time@) == window.clock_time(readings[k]->0)
            }
        }),
{
    let times = window.clock_times(readings);
    let names = window.config.additional_clocks;
    law_clock_rows(names, times);
    let rows = crate::calendar::rows_of(page.clocks@);
    assert(rows.len() == page.clocks@.len());
    if readings[k] is Some {
        assert(times[k] is Some);
        let row = known(times.take(k)) as int;
        assert(rows[row] == page.clocks@[row]@);
    }
}

/// A level clock shows the time, before it the date where the settings show it, and before that
/// the weekday where they show that too; seconds where they show them; and hours as they say.
pub proof fn law_level_clock_reads(window: WindowView)
    ensures
        ({
            let cycle = if window.config.military_time {
                HourCycle::H23
            } else {
                HourCycle::H12
            };
            let date = window.now.date;
            let (year, month, day) = (date.year as int, date.month as int, date.day as int);
            let (hour, minute) = (window.now.hour as int, window.now.minute as int);
            let second = if window.config.show_seconds {
                Some(window.now.second as int)
            } else {
                None
            };
            let shows_date = window.config.show_date_in_top_panel;
            &&& !shows_date ==> window.horizontal_layout() == time_text(
                window.locale,
                cycle,
                hour,
                minute,
                second,
            )
            &&& shows_date && !window.config.show_weekday ==> window.horizontal_layout()
                == month_day_time_text(
                window.locale,
                cycle,
                year,
                month,
                day,
                hour,
                minute,
                second,
            )
            &&& shows_date && window.config.show_weekday ==> window.horizontal_layout()
                == weekday_time_text(
                window.locale,
                cycle,
                year,
                month,
                day,
                hour,
                minute,
                second,
            )
        }),
{
}

/// An upright clock is there where its texts can be written. It has the words of the date and a
/// rule where the settings show the date, and below them the parts of the time between colons
/// and white space.
pub proof fn law_upright_clock_reads(window: WindowView)
    ensures
        ({
            let cycle = if window.config.military_time {
                HourCycle::H23
            } else {
                HourCycle::H12
            };
            let now = window.now;
            let second = if window.config.show_seconds {
                Some(now.second as int)
            } else {
                None
            };
            let time = time_text(
                window.locale,
                cycle,
                now.hour as int,
                now.minute as int,
                second,
            );
            let date = month_day_text(
                window.locale,
                cycle,
                now.date.year as int,
                now.date.month as int,
                now.date.day as int,
            );
            let shows_date = window.config.show_date_in_top_panel;
            &&& window.vertical_layout() is Some <==> time is Some && (shows_date ==> date is Some)
            &&& window.vertical_layout() matches Some(list) ==> {
                let parts = all_fields(words(time->0), ':');
                let above = if shows_date {
                    words(date->0).len() + 1
                } else {
                    0nat
                };
                &&& list.len() == above + parts.len()
                &&& forall|i: int|
                    0 <= i < parts.len() ==> list[above + i] == PieceView::Text(
                        #[trigger] parts[i],
                    )
                &&& shows_date ==> list[above - 1] is Rule && forall|i: int|
                    0 <= i < words(date->0).len() ==> list[i] == PieceView::Text(
                        #[trigger] words(date->0)[i],
                    )
            }
        }),
{
}

/// The panel shows the timer where it runs or its alarm is on, or else the stopwatch where it
/// runs, or else the clock.
pub proof fn law_panel_shows(window: WindowView, horizontal: bool, instant: int)
    ensures
        ({
            let timer = window.timer_deadline is Some || window.timer_finished_at is Some;
            let content = window.panel_content(horizontal, instant);
            &&& timer ==> content == Some(
                ContentView::Timer {
                    icon: "alarm-symbolic"@,
                    text: elapsed_short_text(
                        if window.timer_finished_at is Some {
                            0nat
                        } else {
                            window.timer_remaining(instant) as nat
                        },
                    ),
                    class: window.timer_text_class(instant),
                    horizontal,
                },
            )
            &&& !timer && window.running_since is Some ==> content == Some(
                ContentView::Stopwatch {
                    icon: "accessories-clock-symbolic"@,
                    text: elapsed_short_text(window.stopwatch_elapsed(instant) as nat),
                    horizontal,
                },
            )
            &&& !timer && window.running_since is None && horizontal ==> match content {
                Some(content) => content is Horizontal && window.horizontal_layout() == Some(
                    content->Horizontal_0,
                ),
                None => window.horizontal_layout() is None,
            }
            &&& !timer && window.running_since is None && !horizontal ==> match content {
                Some(content) => content is Vertical && window.vertical_layout() == Some(
                    content->Vertical_0,
                ),
                None => window.vertical_layout() is None,
            }
        }),
{
}

/// A countdown is red for its last ten seconds and plain before. A timer that does not run is
/// plain unless its alarm is on.
pub proof fn law_red_at_the_end(window: WindowView, instant: int)
    requires
        window.timer_finished_at is None,
    ensures
        ({
            let red = window.timer_deadline is Some && window.timer_deadline->0 - instant <= 10
                * SECOND;
            &&& red ==> window.timer_text_color(instant) == Some(TextColor::Red)
                && window.timer_text_class(instant) == TextClass::Color(TextColor::Red)
            &&& !red ==> window.timer_text_color(instant) is None && window.timer_text_class(
                instant,
            ) == TextClass::Default
        }),
{
}

/// The look of a readout is its color, where it has one.
pub proof fn law_class_is_color(window: WindowView, instant: int)
    ensures
        window.timer_text_color(instant) matches Some(color) ==> window.timer_text_class(instant)
            == TextClass::Color(color),
        window.timer_text_color(instant) is None <==> window.timer_text_class(instant)
            == TextClass::Default,
{
}

/// A panel at the top or the bottom lies level: the button takes the height that is suggested and
/// twice the padding, and is padded at its sides. At the left and the right it is the other way
/// round.
pub proof fn law_panel_measures(metrics: PanelMetrics)
    ensures
        ({
            let level = metrics.anchor is Top || metrics.anchor is Bottom;
            &&& metrics.anchor.is_horizontal() == level
            &&& level ==> metrics.extent() == metrics.size.1 + metrics.padding.1
                + metrics.padding.1 && metrics.applet_padding() == (0u16, metrics.padding.0)
            &&& !level ==> metrics.extent() == metrics.size.0 + metrics.padding.1
                + metrics.padding.1 && metrics.applet_padding() == (metrics.padding.0, 0u16)
        }),
{
}

/// The length of the countdown is read back from its steppers: hours, minutes and seconds, each
/// with the step that it stands for.
pub proof fn law_steppers_read_back(window: WindowView)
    requires
        window.wf(),
    ensures
        ({
            let units = window.timer_steppers();
            let (h, m, s) = (
                number(units[0].value),
                number(units[1].value),
                number(units[2].value),
            );
            &&& units.len() == 3
            &&& units[0].label == "hr"@ && units[1].label == "min"@ && units[2].label == "sec"@
            &&& units[0].step == 60 * 60 && units[1].step == 60 && units[2].step == 1
            &&& 0 <= h <= 99 && 0 <= m < 60 && 0 <= s < 60
            &&& units[0].value.len() == 2 && units[1].value.len() == 2 && units[2].value.len()
                == 2
            &&& window.timer_duration == (units[0].step * h + units[1].step * m + units[2].step
                * s) * SECOND
        }),
{
    let total = (window.timer_duration as nat) / (SECOND as nat);
    assert(total * SECOND == window.timer_duration);
    assert(total <= 356_400);
    let (hours, mins, secs) = (total / 3600, (total / 60) % 60, total % 60);
    law_padded_reads_back(hours);
    law_padded_reads_back(mins);
    law_padded_reads_back(secs);
    assert(3600 * hours + 60 * mins + secs == total);
    let units = window.timer_steppers();
    assert(units[0].value == padded(hours) && units[0].step == 3600);
    assert(units[1].value == padded(mins) && units[1].step == 60);
    assert(units[2].value == padded(secs) && units[2].step == 1);
    assert(units[0].step * number(units[0].value) == 3600 * hours);
    assert(units[1].step * number(units[1].value) == 60 * mins);
    assert(units[2].step * number(units[2].value) == secs);
}

/// The upper arrow of a stepper adds its step to an idle countdown and the lower one takes it
/// off, within zero and 99 hours. So does a wheel that turns, and one that stands still does
/// nothing.
pub proof fn law_arrows_step(window: WindowView, stepper: StepperView, reading: Reading)
    requires
        window.wf(),
        window.timer_idle(),
        stepper.step > i64::MIN,
    ensures
        ({
            let up = window_after(window, stepper.up_message(), reading);
            let down = window_after(window, stepper.down_message(), reading);
            let limit = TIMER_MAX_SECS * SECOND;
            let (more, less) = (
                window.timer_duration + stepper.step * SECOND,
                window.timer_duration - stepper.step * SECOND,
            );
            &&& 0 <= more <= limit ==> up.timer_duration == more
            &&& 0 <= less <= limit ==> down.timer_duration == less
            &&& up.timer_hold == Some(stepper.step)
            &&& down.timer_hold is Some && down.timer_hold->0 == -stepper.step
            &&& window_after(window, stepper.scroll_message(Scroll::Up), reading)
                == (WindowView { timer_hold: window.timer_hold, ..up })
            &&& window_after(window, stepper.scroll_message(Scroll::Down), reading)
                == (WindowView { timer_hold: window.timer_hold, ..down })
            &&& window_after(window, stepper.scroll_message(Scroll::Still), reading) == window
        }),
{
}

/// The buttons of the timer: an alarm can only be dismissed. Otherwise there is a button that
/// resets, where there is anything to reset, and one that pauses a timer that runs, or starts
/// one that has time left.
pub proof fn law_timer_buttons(window: WindowView, instant: int)
    ensures
        ({
            let buttons = window.timer_controls(instant);
            let alarm = window.timer_finished_at is Some;
            let running = window.timer_deadline is Some;
            let paused = window.timer_paused is Some;
            &&& alarm ==> buttons.len() == 1 && buttons[0] == (ButtonView {
                label: "Dismiss"@,
                suggested: true,
                on_press: Some(Message::TimerReset),
            })
            &&& !alarm ==> {
                &&& buttons.len() == 2
                &&& buttons[0].label == "Reset"@ && !buttons[0].suggested
                &&& buttons[0].on_press == (if running || paused {
                    Some(Message::TimerReset)
                } else {
                    None
                })
                &&& buttons[1].suggested
                &&& running ==> buttons[1].label == "Pause"@
                &&& !running ==> buttons[1].label == "Start"@
                &&& buttons[1].on_press == (if running || window.timer_remaining(instant) > 0 {
                    Some(Message::TimerStartPause)
                } else {
                    None
                })
            }
        }),
{
}

/// The buttons of the stopwatch: one that runs takes laps and can be paused. One that does not
/// can be started, and reset where it has counted anything.
pub proof fn law_stopwatch_buttons(window: WindowView, instant: int)
    ensures
        ({
            let buttons = window.stopwatch_controls(instant);
            let running = window.running_since is Some;
            &&& buttons.len() == 2
            &&& !buttons[0].suggested && buttons[1].suggested
            &&& buttons[1].on_press == Some(Message::StopwatchStartPause)
            &&& running ==> buttons[0].label == "Lap"@ && buttons[0].on_press == Some(
                Message::StopwatchLap,
            ) && buttons[1].label == "Pause"@
            &&& !running ==> buttons[0].label == "Reset"@ && buttons[1].label == "Start"@
            &&& !running ==> buttons[0].on_press == (if window.accumulated > 0 {
                Some(Message::StopwatchReset)
            } else {
                None
            })
        }),
{
}

/// The timer page: a heading over an alarm, what the timer reads, and steppers while it is idle.
pub proof fn law_timer_page(page: TimerPage, window: WindowView, instant: int)
    requires
        page.shows(window, instant),
    ensures
        ({
            let alarm = window.timer_finished_at is Some;
            let idle = !alarm && window.timer_deadline is None && window.timer_paused is None;
            &&& page.header.title@ == "Timer"@
            &&& page.header.back.icon@ == "go-previous-symbolic"@
            &&& page.header.back.on_press == Message::ToggleTimer
            &&& opt_text(page.heading) == (if alarm {
                Some("Time's up"@)
            } else {
                None
            })
            &&& alarm ==> page.readout@ == elapsed_short_text(0)
            &&& !alarm ==> page.readout@ == elapsed_short_text(
                window.timer_remaining(instant) as nat,
            )
            &&& page.class == window.timer_text_class(instant)
            &&& page.steppers is Some <==> idle
            &&& idle ==> crate::pages::stepper_row(page.steppers->0@) == window.timer_steppers()
            &&& crate::pages::button_row(page.controls@) == window.timer_controls(instant)
        }),
{
}

/// The stopwatch page: what the stopwatch shows with hundredths, and the laps by number.
pub proof fn law_stopwatch_page(page: StopwatchPage, window: WindowView, instant: int)
    requires
        page.shows(window, instant),
    ensures
        page.header.title@ == "Stopwatch"@,
        page.header.back.icon@ == "go-previous-symbolic"@,
        page.header.back.on_press == Message::ToggleStopwatch,
        page.readout@ == elapsed_text(window.stopwatch_elapsed(instant) as nat),
        crate::pages::button_row(page.controls@) == window.stopwatch_controls(instant),
        page.laps@.len() == window.laps.len(),
        forall|i: int|
            0 <= i < window.laps.len() ==> (#[trigger] page.laps@[i]).time@ == elapsed_text(
                window.laps[i] as nat,
            ) && page.laps@[i].label@ == "Lap "@ + decimal((i + 1) as nat),
{
}

/// The popup shows the page of the window, and no other.
pub proof fn law_popup_shows_its_page(
    page: PopupPage,
    window: WindowView,
    readings: Seq<Option<Zoned>>,
    instant: int,
)
    requires
        page.shows(window, readings, instant),
    ensures
        page is Calendar <==> window.page == Page::Calendar,
        page is Settings <==> window.page == Page::Settings,
        page is Stopwatch <==> window.page == Page::Stopwatch,
        page is Timer <==> window.page == Page::Timer,
        page matches PopupPage::Calendar(p) ==> p.shows(window, readings),
        page matches PopupPage::Settings(p) ==> p.shows(window),
        page matches PopupPage::Stopwatch(p) ==> p.shows(window, instant),
        page matches PopupPage::Timer(p) ==> p.shows(window, instant),
{
}

/// Each page button of the calendar leads to its page, and the month buttons turn to the months
/// before and after.
pub proof fn law_buttons_lead_to_pages(
    page: CalendarPage,
    window: WindowView,
    readings: Seq<Option<Zoned>>,
    reading: Reading,
)
    requires
        page.shows(window, readings),
        window.page == Page::Calendar,
        window.date_selected.valid(),
    ensures
        page.page_buttons@.len() == 3,
        page.month_buttons@.len() == 2,
        window_after(window, page.page_buttons@[0].on_press, reading).page == Page::Stopwatch,
        window_after(window, page.page_buttons@[1].on_press, reading).page == Page::Timer,
        window_after(window, page.page_buttons@[2].on_press, reading).page == Page::Settings,
        page.page_buttons@[0].icon@ == "accessories-clock-symbolic"@,
        page.page_buttons@[1].icon@ == "alarm-symbolic"@,
        page.page_buttons@[2].icon@ == "preferences-system-symbolic"@,
        page.month_buttons@[0].icon@ == "go-previous-symbolic"@,
        page.month_buttons@[1].icon@ == "go-next-symbolic"@,
        page.month_buttons@[0].on_press == Message::PreviousMonth,
        page.month_buttons@[1].on_press == Message::NextMonth,
{
    let (pages, months) = (
        crate::controls::icon_row(page.page_buttons@),
        crate::controls::icon_row(page.month_buttons@),
    );
    assert(pages.len() == 3 && months.len() == 2);
    assert(pages[0] == page.page_buttons@[0]@ && pages[1] == page.page_buttons@[1]@ && pages[2]
        == page.page_buttons@[2]@);
    assert(months[0] == page.month_buttons@[0]@ && months[1] == page.month_buttons@[1]@);
}

/// The switches of the general settings show their settings, each under its own name, and the
/// choice of the first day shows the one that is set among the days from Monday to Sunday.
pub proof fn law_general_settings(settings: GeneralSettings, window: WindowView)
    requires
        settings.shows(window),
    ensures
        settings.panel@.len() == 2 && settings.time@.len() == 2,
        settings.panel@[0].label@ == "Show date in panel"@,
        settings.panel@[0].value == window.config.show_date_in_top_panel,
        settings.panel@[0].setting == Setting::ShowDate,
        settings.panel@[1].label@ == "Show weekday"@,
        settings.panel@[1].value == window.config.show_weekday,
        settings.panel@[1].setting == Setting::ShowWeekday,
        settings.time@[0].label@ == "24-hour time"@,
        settings.time@[0].value == window.config.military_time,
        settings.time@[0].setting == Setting::MilitaryTime,
        settings.time@[1].label@ == "Show seconds"@,
        settings.time@[1].value == window.config.show_seconds,
        settings.time@[1].setting == Setting::ShowSeconds,
        settings.first_day == window.config.first_day_of_week,
        crate::text::texts(settings.first_day_options@) == seq![
            "Monday"@,
            "Tuesday"@,
            "Wednesday"@,
            "Thursday"@,
            "Friday"@,
            "Saturday"@,
            "Sunday"@,
        ],
{
    let (panel, time) = (
        crate::settings::toggle_rows(settings.panel@),
        crate::settings::toggle_rows(settings.time@),
    );
    assert(panel.len() == 2 && time.len() == 2);
    assert(panel[0] == settings.panel@[0]@ && panel[1] == settings.panel@[1]@);
    assert(time[0] == settings.time@[0]@ && time[1] == settings.time@[1]@);
}

/// Turning a switch changes what it shows to what was asked for.
pub proof fn law_switch_shows_what_was_set(
    window: WindowView,
    setting: Setting,
    value: bool,
    reading: Reading,
)
    ensures
        ({
            let message = setting.message_for(value);
            let after = window_after(window, message, reading);
            &&& after.toggle_row(setting).value == value
            &&& after.toggle_row(setting).setting == setting
            &&& setting is MilitaryTime <==> message is SetMilitaryTime
            &&& setting is ShowSeconds <==> message is SetShowSeconds
            &&& setting is ShowDate <==> message is SetShowDate
            &&& setting is ShowWeekday <==> message is SetShowWeekday
            &&& setting is PersianCalendar <==> message is SetShowPersianCalendar
        }),
{
}

/// Choosing a day shows it as chosen, and choosing a city gives it a clock.
pub proof fn law_choices(window: WindowView, index: usize, entry: CityEntry, reading: Reading)
    requires
        index < 7,
    ensures
        window_after(window, first_day_message(index), reading).config.first_day_of_week == index,
        window_after(window, city_message(entry), reading).config.additional_clocks.contains(
            entry.timezone@,
        ),
        city_message(entry) is SelectCity && city_message(entry)->SelectCity_0 == entry,
{
    let names = window.config.additional_clocks;
    if !names.contains(entry.timezone@) {
        assert(names.push(entry.timezone@)[names.len() as int] == entry.timezone@);
    }
}

/// The clocks of the settings are those that were added, in order, by place and by time zone. The
/// button of each takes out that clock and no other. A note says so where there is none.
pub proof fn law_clocks_settings(
    settings: ClocksSettings,
    window: WindowView,
    k: int,
    reading: Reading,
)
    requires
        settings.shows(window),
        0 <= k < settings.clocks@.len() <= usize::MAX,
    ensures
        ({
            let names = window.config.additional_clocks;
            let clock = settings.clocks@[k];
            &&& settings.clocks@.len() == names.len()
            &&& settings.note is None
            &&& clock.timezone@ == names[k]
            &&& clock.place@ == place_name(names[k])
            &&& window_after(window, clock.on_remove, reading).config.additional_clocks
                == names.remove(k)
        }),
{
}

/// Where there is no clock, a note says so.
pub proof fn law_no_clocks_note(settings: ClocksSettings, window: WindowView)
    requires
        settings.shows(window),
        window.config.additional_clocks.len() == 0,
    ensures
        opt_text(settings.note) == Some("No clocks added yet"@),
        settings.clocks@.len() == 0,
{
}

/// The switch of the Persian calendar shows whether it is on.
pub proof fn law_calendar_settings(settings: CalendarSettings, window: WindowView)
    requires
        settings.shows(window),
    ensures
        settings.persian.label@ == "Persian (Shamsi)"@,
        settings.persian.value == window.config.show_persian_calendar,
        settings.persian.setting == Setting::PersianCalendar,
        settings.note@ == "Solar Hijri / Jalali calendar"@,
{
}

/// The settings page shows the tab that is active, and leads back.
pub proof fn law_settings_page(page: SettingsPage, window: WindowView)
    requires
        page.shows(window),
    ensures
        page.header.title@ == "Settings"@,
        page.header.back.icon@ == "go-previous-symbolic"@,
        page.header.back.on_press == Message::ToggleSettings,
        page.content is General <==> window.active_tab == SettingsTab::General,
        page.content is Clocks <==> window.active_tab == SettingsTab::Clocks,
        page.content is Calendar <==> window.active_tab == SettingsTab::Calendar,
        page.content matches SettingsContent::General(p) ==> p.shows(window),
        page.content matches SettingsContent::Clocks(p) ==> p.shows(window),
        page.content matches SettingsContent::Calendar(p) ==> p.shows(window),
{
}

/// A popup that is closed from outside is forgotten.
pub proof fn law_close_forgets_the_popup(window: WindowView, id: u64, reading: Reading)
    requires
        window.popup == Some(id),
    ensures
        close_message(id) matches Some(message) && window_after(window, message, reading).popup
            is None,
{
}

/// The button on the panel lies as the panel does, takes the space and the padding of its
/// measures, and opens or closes the popup when it is pressed, whatever it shows.
pub proof fn law_panel_button(
    panel: Panel,
    window: WindowView,
    metrics: PanelMetrics,
    instant: int,
    reading: Reading,
)
    requires
        panel.shows(window, metrics, instant),
    ensures
        panel.horizontal <==> metrics.anchor is Top || metrics.anchor is Bottom,
        window.panel_content(panel.horizontal, instant) == Some(panel.content@),
        panel.padding == metrics.applet_padding(),
        panel.extent == metrics.extent(),
        window_after(window, panel.on_press, reading).popup == (if window.popup is Some {
            None
        } else {
            Some(reading.new_id)
        }),
{
}

/// The button of any day: its number, its look, its day of the Persian calendar where there is
/// one, and the message that selects it where it lies in the month on show.
pub proof fn law_any_day_button(
    day: i8,
    is_month: bool,
    is_day: bool,
    is_today: bool,
    persian_day: Option<u8>,
)
    ensures
        ({
            let button = date_button_view(day, is_month, is_day, is_today, persian_day);
            &&& day >= 0 ==> number(button.label) == day
            &&& button.label == signed_decimal(day as int)
            &&& is_day ==> button.style == ButtonStyle::Suggested
            &&& !is_day && is_today ==> button.style == ButtonStyle::Standard
            &&& !is_day && !is_today ==> button.style == ButtonStyle::Text
            &&& persian_day is None ==> button.farsi is None
            &&& persian_day is Some ==> button.farsi == Some(farsi_decimal(persian_day->0 as nat))
            &&& is_month ==> button.on_press == Some(Message::SelectDay(day))
            &&& !is_month ==> button.on_press is None
        }),
{
    law_signed_reads_back(day as int);
}

/// A date with a time of day has the fields of both.
pub proof fn law_datetime_has_both(date: Date, time: Zoned)
    requires
        date.valid(),
        time.valid(),
    ensures
        ({
            let both = datetime_of(date, time);
            &&& both.valid()
            &&& both.year == date.year && both.month == date.month && both.day == date.day
            &&& both.hour == time.hour && both.minute == time.minute && both.second == time.second
        }),
{
}

} // verus!
