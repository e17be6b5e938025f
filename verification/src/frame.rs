//! What each kind of message leaves alone.

use vstd::prelude::*;
use crate::window::{effects_of, window_after, Message, Reading, WindowView};

verus! {

/// The messages that start, pause or reset the stopwatch.
pub open spec fn concerns_stopwatch(message: Message) -> bool {
    message is StopwatchStartPause || message is StopwatchReset
}

/// The messages that touch the timer.
pub open spec fn concerns_timer(message: Message) -> bool {
    ||| message is TimerStartPause
    ||| message is TimerReset
    ||| message is TimerAdd
    ||| message is TimerHoldStart
    ||| message is TimerHoldTick
    ||| message is FastTick
    ||| message is TogglePopup
}

/// The messages that open, close or turn over the popup.
pub open spec fn concerns_popup(message: Message) -> bool {
    ||| message is TogglePopup
    ||| message is CloseRequested
    ||| message is ToggleSettings
    ||| message is ToggleStopwatch
    ||| message is ToggleTimer
}

/// Only starting, pausing and resetting change since when the stopwatch runs.
pub proof fn running_since_kept(window: WindowView, message: Message, reading: Reading)
    requires
        !concerns_stopwatch(message),
    ensures
        window_after(window, message, reading).running_since == window.running_since,
{
}

/// Only starting, pausing and resetting change what the stopwatch had counted.
pub proof fn accumulated_kept(window: WindowView, message: Message, reading: Reading)
    requires
        !concerns_stopwatch(message),
    ensures
        window_after(window, message, reading).accumulated == window.accumulated,
{
}

/// Only a lap or a reset changes the laps.
pub proof fn laps_kept(window: WindowView, message: Message, reading: Reading)
    requires
        !concerns_stopwatch(message),
        !(message is StopwatchLap),
    ensures
        window_after(window, message, reading).laps == window.laps,
{
}

/// A message that does not concern the timer keeps the end of the countdown.
pub proof fn deadline_kept(window: WindowView, message: Message, reading: Reading)
    requires
        !concerns_timer(message),
    ensures
        window_after(window, message, reading).timer_deadline == window.timer_deadline,
{
}

/// A message that does not concern the timer keeps what a paused timer has left.
pub proof fn paused_kept(window: WindowView, message: Message, reading: Reading)
    requires
        !concerns_timer(message),
    ensures
        window_after(window, message, reading).timer_paused == window.timer_paused,
{
}

/// A message that does not concern the timer keeps whether it is done.
pub proof fn finished_kept(window: WindowView, message: Message, reading: Reading)
    requires
        !concerns_timer(message),
    ensures
        window_after(window, message, reading).timer_finished_at == window.timer_finished_at,
{
}

/// A message that does not concern the timer keeps the length of the countdown.
pub proof fn duration_kept(window: WindowView, message: Message, reading: Reading)
    requires
        !concerns_timer(message),
    ensures
        window_after(window, message, reading).timer_duration == window.timer_duration,
{
}

/// A message that does not concern the popup neither opens nor closes it.
pub proof fn popup_kept(window: WindowView, message: Message, reading: Reading)
    requires
        !concerns_popup(message),
    ensures
        window_after(window, message, reading).popup == window.popup,
{
}

/// A message that does not concern the popup keeps its page.
pub proof fn page_kept(window: WindowView, message: Message, reading: Reading)
    requires
        !concerns_popup(message),
    ensures
        window_after(window, message, reading).page == window.page,
{
}

/// Only the press and the release of a stepper change which one is held.
pub proof fn hold_kept(window: WindowView, message: Message, reading: Reading)
    requires
        !(message is TimerHoldStart),
        !(message is TimerHoldStop),
    ensures
        window_after(window, message, reading).timer_hold == window.timer_hold,
{
}

/// Only the press and the release of a stepper are told to the hold repeater.
pub proof fn hold_not_sent(window: WindowView, message: Message, reading: Reading)
    requires
        !(message is TimerHoldStart),
        !(message is TimerHoldStop),
    ensures
        effects_of(window, message, reading).hold is None,
{
}

/// A message that concerns neither the popup nor the timer nor the stopwatch sends no repaint
/// period.
pub proof fn tick_not_sent(window: WindowView, message: Message, reading: Reading)
    requires
        !concerns_popup(message),
        !concerns_timer(message),
        !concerns_stopwatch(message),
    ensures
        effects_of(window, message, reading).tick is None,
{
}

} // verus!
