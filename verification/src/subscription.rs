//! What the background sources of messages decide between two waits.

use vstd::prelude::*;
use crate::window::{window_after, Message, Reading, Window, WindowView};

verus! {

/// A background source of messages.
#[derive(Clone, Copy, PartialEq, Eq, Structural, Debug)]
pub enum Source {
    Rectangle,
    Clock,
    FastTick,
    HoldRepeat,
    ActivationToken,
    Timezone,
    WakeFromSleep,
    Config,
    ReleaseListener,
}

impl WindowView {
    /// The sources that are listened to. Releases matter only while a stepper is held.
    pub open spec fn sources(self) -> Seq<Source> {
        let always = seq![
            Source::Rectangle,
            Source::Clock,
            Source::FastTick,
            Source::HoldRepeat,
            Source::ActivationToken,
            Source::Timezone,
            Source::WakeFromSleep,
            Source::Config,
        ];
        if self.timer_hold is Some {
            always.push(Source::ReleaseListener)
        } else {
            always
        }
    }
}

impl Window {
    /// The sources that are listened to.
    pub fn subscription(&self) -> (sources: Vec<Source>)
        ensures
            sources@ == self@.sources(),
    {
        let mut sources = vec![
            Source::Rectangle,
            Source::Clock,
            Source::FastTick,
            Source::HoldRepeat,
            Source::ActivationToken,
            Source::Timezone,
            Source::WakeFromSleep,
            Source::Config,
        ];
        if self.timer_hold.is_some() {
            sources.push(Source::ReleaseListener);
        }
        sources
    }
}

/// How often the clock ticks, in seconds.
#[derive(Clone, Copy, PartialEq, Eq, Structural, Debug)]
pub struct ClockTick {
    pub period: u64,
}

/// A timer that goes off after `first_delay` seconds and then every `period` seconds.
#[derive(Clone, Copy, PartialEq, Eq, Structural, Debug)]
pub struct Interval {
    pub first_delay: u64,
    pub period: u64,
    /// Ticks that were missed are left out.
    pub skip_missed: bool,
}

/// The Unix time as a number of seconds that is not negative. A time before 1970
/// wraps round.
pub open spec fn unix_seconds(now: i64) -> int {
    if now < 0 {
        now + 0x1_0000_0000_0000_0000
    } else {
        now as int
    }
}

fn unsigned_seconds(now: i64) -> (seconds: u64)
    ensures
        seconds == unix_seconds(now),
{
    assert((now as u64) == (if now < 0 {
        now + 0x1_0000_0000_0000_0000int
    } else {
        now as int
    })) by (bit_vector);
    now as u64
}

impl ClockTick {
    /// The clock ticks every second or every minute.
    pub open spec fn wf(self) -> bool {
        self.period == 1 || self.period == 60
    }

    /// The clock and its timer before it is known whether seconds are shown.
    pub open spec fn started() -> (ClockTick, Interval) {
        (ClockTick { period: 1 }, Interval { first_delay: 0, period: 1, skip_missed: true })
    }

    /// The delay after which the timer starts over, after a tick at Unix time `now`.
    pub open spec fn reset_delay(self, now: i64) -> Option<u64> {
        if unix_seconds(now) % (self.period as int) == 0 {
            None
        } else {
            Some((self.period - unix_seconds(now) % (self.period as int)) as u64)
        }
    }

    /// The clock once it is known whether seconds are shown.
    pub open spec fn showing(seconds: bool) -> ClockTick {
        ClockTick {
            period: if seconds {
                1
            } else {
                60
            },
        }
    }

    /// The timer that takes over at Unix time `now`.
    pub open spec fn interval(seconds: bool, now: i64) -> Interval {
        if seconds {
            Interval { first_delay: 1, period: 1, skip_missed: false }
        } else {
            Interval {
                first_delay: (60 - unix_seconds(now) % 60) as u64,
                period: 60,
                skip_missed: true,
            }
        }
    }

    /// The interval before it is known whether seconds are shown.
    pub fn start() -> (started: (ClockTick, Interval))
        ensures
            started.0.wf(),
            started == ClockTick::started(),
    {
        (ClockTick { period: 1 }, Interval { first_delay: 0, period: 1, skip_missed: true })
    }

    /// After a tick at Unix time `now`: the delay after which the timer is to start over,
    /// where the tick did not fall on a multiple of the period.
    pub fn on_tick(&self, now: i64) -> (reset_after: Option<u64>)
        requires
            self.wf(),
        ensures
            reset_after == self.reset_delay(now),
    {
        let current: u64 = unsigned_seconds(now) % self.period;
        if current != 0 {
            Some(self.period - current)
        } else {
            None
        }
    }

    /// Seconds are shown from now on, or no longer: the timer that takes over.
    pub fn on_show_seconds(&mut self, seconds: bool, now: i64) -> (interval: Interval)
        requires
            old(self).wf(),
        ensures
            final(self).wf(),
            *final(self) == ClockTick::showing(seconds),
            interval == ClockTick::interval(seconds, now),
    {
        if seconds {
            self.period = 1;
            Interval { first_delay: self.period, period: self.period, skip_missed: false }
        } else {
            self.period = 60;
            let delta: u64 = self.period - unsigned_seconds(now) % self.period;
            Interval { first_delay: delta, period: self.period, skip_missed: true }
        }
    }
}

/// What the fast tick waits for.
#[derive(Clone, Copy, PartialEq, Eq, Structural, Debug)]
pub enum FastTickEvent {
    /// The period went by.
    Elapsed,
    /// The applet asked for another period, in milliseconds.
    Changed(Option<u64>),
    /// No other period can come any more.
    Closed,
}

/// What the fast tick does next.
#[derive(Clone, Copy, PartialEq, Eq, Structural, Debug)]
pub enum FastTickStep {
    /// Send a `FastTick` and go on waiting.
    Send,
    /// Build a timer with this period, or park where there is none.
    Rebuild(Option<u64>),
    /// Go on waiting.
    Wait,
    /// Stop for good.
    Stop,
}

/// What the fast tick does on `event`, `period` being that of its timer.
pub open spec fn fast_tick_next(period: Option<u64>, event: FastTickEvent) -> FastTickStep {
    match (event, period) {
        (FastTickEvent::Elapsed, Some(_)) => FastTickStep::Send,
        (FastTickEvent::Elapsed, None) => FastTickStep::Wait,
        (FastTickEvent::Changed(next), _) => FastTickStep::Rebuild(next),
        (FastTickEvent::Closed, Some(_)) => FastTickStep::Wait,
        (FastTickEvent::Closed, None) => FastTickStep::Stop,
    }
}

/// What the fast tick does on `event`, `period` being that of its timer. Running, it
/// ticks at the carried cadence and rebuilds on change. Stopped, it parks until a
/// cadence arrives.
pub fn fast_tick_step(period: Option<u64>, event: FastTickEvent) -> (step: FastTickStep)
    ensures
        step == fast_tick_next(period, event),
{
    match period {
        Some(_) => match event {
            FastTickEvent::Elapsed => FastTickStep::Send,
            FastTickEvent::Changed(next) => FastTickStep::Rebuild(next),
            FastTickEvent::Closed => FastTickStep::Wait,
        },
        None => match event {
            FastTickEvent::Elapsed => FastTickStep::Wait,
            FastTickEvent::Changed(next) => FastTickStep::Rebuild(next),
            FastTickEvent::Closed => FastTickStep::Stop,
        },
    }
}

/// The delay in milliseconds before repeat number `count` of a held stepper.
pub open spec fn hold_delay_ms(count: int) -> int {
    if 360 - 35 * count > 45 {
        360 - 35 * count
    } else {
        45
    }
}

/// Initial pause, then accelerate to a 45ms floor.
pub fn hold_delay(count: u32) -> (millis: u64)
    ensures
        millis == hold_delay_ms(count as int),
{
    let gain: u64 = count as u64 * 35;
    let millis: u64 = if gain < 360 {
        360 - gain
    } else {
        0
    };
    if millis < 45 {
        45
    } else {
        millis
    }
}

/// What the hold repeater is doing.
#[derive(Clone, Copy, PartialEq, Eq, Structural, Debug)]
pub enum HoldState {
    /// No stepper is held.
    Parked,
    /// A stepper is held; repeat number `count` comes next.
    Held { count: u32 },
    /// The repeater has ended.
    Stopped,
}

/// What the hold repeater waits for.
#[derive(Clone, Copy, PartialEq, Eq, Structural, Debug)]
pub enum HoldEvent {
    /// The delay went by and a `TimerHoldTick` was sent, or could not be sent.
    Elapsed { sent: bool },
    /// A stepper was pressed or released.
    Changed(Option<i64>),
    /// No stepper can be pressed any more.
    Closed,
}

impl HoldState {
    /// The repeater where `held` is the step of the stepper that is held.
    pub open spec fn started(held: Option<i64>) -> HoldState {
        match held {
            Some(_) => HoldState::Held { count: 1 },
            None => HoldState::Parked,
        }
    }

    /// The repeater where `held` is the step of the stepper that is held.
    pub fn start(held: Option<i64>) -> (state: HoldState)
        ensures
            state == HoldState::started(held),
    {
        match held {
            Some(_) => HoldState::Held { count: 1 },
            None => HoldState::Parked,
        }
    }

    /// The repeater after `event`. Any change, a release or a new press, restarts the
    /// acceleration.
    pub open spec fn after(self, event: HoldEvent) -> HoldState {
        match (self, event) {
            (HoldState::Stopped, _) => HoldState::Stopped,
            (_, HoldEvent::Closed) => HoldState::Stopped,
            (_, HoldEvent::Changed(held)) => HoldState::started(held),
            (HoldState::Parked, HoldEvent::Elapsed { .. }) => HoldState::Parked,
            (HoldState::Held { count }, HoldEvent::Elapsed { sent }) => if sent {
                HoldState::Held { count: (count + 1) as u32 }
            } else {
                HoldState::Stopped
            },
        }
    }

    /// The repeater after `event`.
    pub fn step(self, event: HoldEvent) -> (next: HoldState)
        requires
            self is Held && event == (HoldEvent::Elapsed { sent: true }) ==> self->count < u32::MAX,
        ensures
            next == self.after(event),
    {
        match self {
            HoldState::Stopped => HoldState::Stopped,
            HoldState::Parked => match event {
                HoldEvent::Closed => HoldState::Stopped,
                HoldEvent::Changed(held) => HoldState::start(held),
                HoldEvent::Elapsed { .. } => HoldState::Parked,
            },
            HoldState::Held { count } => match event {
                HoldEvent::Closed => HoldState::Stopped,
                HoldEvent::Changed(held) => HoldState::start(held),
                HoldEvent::Elapsed { sent } => if sent {
                    HoldState::Held { count: count + 1 }
                } else {
                    HoldState::Stopped
                },
            },
        }
    }

    /// The delay in milliseconds until the next repeat, where a stepper is held.
    pub open spec fn delay_ms(self) -> Option<u64> {
        match self {
            HoldState::Held { count } => Some(hold_delay_ms(count as int) as u64),
            _ => None,
        }
    }

    /// The delay in milliseconds until the next repeat, where a stepper is held.
    pub fn delay(self) -> (millis: Option<u64>)
        ensures
            millis == self.delay_ms(),
    {
        match self {
            HoldState::Held { count } => Some(hold_delay(count)),
            _ => None,
        }
    }
}

/// A button of a mouse.
#[derive(Clone, Copy, PartialEq, Eq, Structural, Debug)]
pub enum MouseButton {
    Left,
    Other,
}

/// An input event.
#[derive(Clone, Copy, PartialEq, Eq, Structural, Debug)]
pub enum InputEvent {
    ButtonReleased(MouseButton),
    FingerLifted,
    FingerLost,
    Other,
}

/// The message for an input event while a stepper is held.
pub open spec fn release_message(event: InputEvent) -> Option<Message> {
    if event == InputEvent::ButtonReleased(MouseButton::Left) || event == InputEvent::FingerLifted
        || event == InputEvent::FingerLost {
        Some(Message::TimerHoldStop)
    } else {
        None
    }
}

/// Stops a held stepper on the next left-button or touch release anywhere.
pub fn release_listener(event: InputEvent) -> (message: Option<Message>)
    ensures
        message == release_message(event),
{
    match event {
        InputEvent::ButtonReleased(MouseButton::Left)
        | InputEvent::FingerLifted
        | InputEvent::FingerLost => Some(Message::TimerHoldStop),
        _ => None,
    }
}

/// The delay in seconds before the time zone updater is started again, where it failed.
pub open spec fn retry_delay(failed: bool) -> Option<u64> {
    if failed {
        Some(60u64)
    } else {
        None
    }
}

/// The delay in seconds before the time zone updater is started again, `None` where it
/// ended without an error and stays off.
pub fn timezone_retry(failed: bool) -> (delay: Option<u64>)
    ensures
        delay == retry_delay(failed),
{
    if failed {
        Some(60)
    } else {
        None
    }
}

/// The message for a sleep signal.
pub open spec fn sleep_message(start: bool) -> Option<Message> {
    if start {
        None
    } else {
        Some(Message::Tick)
    }
}

/// The message for a sleep signal, `start` being true as the system goes to sleep and
/// false as it wakes up.
pub fn wake_from_sleep(start: bool) -> (message: Option<Message>)
    ensures
        message == sleep_message(start),
{
    let waking = !start;
    if waking {
        Some(Message::Tick)
    } else {
        None
    }
}

/// The clock ticks on multiples of its period: a tick that falls on one goes on, and after any
/// other the timer starts over on the next one.
pub proof fn law_clock_tick_aligned(clock: ClockTick, now: i64)
    requires
        clock.wf(),
    ensures
        clock.reset_delay(now) is None <==> unix_seconds(now) % (clock.period as int) == 0,
        clock.reset_delay(now) matches Some(delay) ==> 1 <= delay < clock.period && (unix_seconds(
            now,
        ) + delay) % (clock.period as int) == 0,
        now >= 0 ==> unix_seconds(now) == now,
        now < 0 ==> unix_seconds(now) == now + 0x1_0000_0000_0000_0000,
{
}

/// With seconds the clock ticks every second, from a second on. Without, it ticks every minute,
/// from the next full minute on. It starts at once, every second.
pub proof fn law_clock_interval(seconds: bool, now: i64)
    ensures
        ({
            let interval = ClockTick::interval(seconds, now);
            &&& ClockTick::showing(seconds).wf()
            &&& interval.period == ClockTick::showing(seconds).period
            &&& seconds ==> interval.period == 1 && interval.first_delay == 1
                && !interval.skip_missed
            &&& !seconds ==> interval.period == 60 && 1 <= interval.first_delay <= 60 && (
            unix_seconds(now) + interval.first_delay) % 60 == 0 && interval.skip_missed
        }),
        ({
            let (clock, first) = ClockTick::started();
            clock.period == 1 && first.first_delay == 0 && first.period == 1 && first.skip_missed
        }),
{
}

/// While it has a period the fast tick sends one message for each time that goes by. It takes
/// over every period that it is given. Without one it waits, and it ends where none can come.
pub proof fn law_fast_tick(period: Option<u64>, next: Option<u64>)
    ensures
        fast_tick_next(period, FastTickEvent::Elapsed) == FastTickStep::Send <==> period is Some,
        fast_tick_next(period, FastTickEvent::Elapsed) == FastTickStep::Wait <==> period is None,
        fast_tick_next(period, FastTickEvent::Changed(next)) == FastTickStep::Rebuild(next),
        fast_tick_next(period, FastTickEvent::Closed) == FastTickStep::Stop <==> period is None,
        fast_tick_next(period, FastTickEvent::Closed) == FastTickStep::Wait <==> period is Some,
{
}

/// A press starts the repeats, each repeat that was sent leads to the next, any other press
/// starts them anew, the release ends them, and a channel that is gone ends them for good.
pub proof fn law_hold_repeats(state: HoldState, step: i64, event: HoldEvent)
    ensures
        HoldState::started(Some(step)) == (HoldState::Held { count: 1 }),
        HoldState::started(None) == HoldState::Parked,
        HoldState::Stopped.after(event) == HoldState::Stopped,
        !(state is Stopped) ==> state.after(HoldEvent::Changed(Some(step)))
            == (HoldState::Held { count: 1 }),
        !(state is Stopped) ==> state.after(HoldEvent::Changed(None)) == HoldState::Parked,
        state.after(HoldEvent::Closed) == HoldState::Stopped,
        state is Held && state->count < u32::MAX ==> state.after(
            HoldEvent::Elapsed { sent: true },
        ) is Held && state.after(HoldEvent::Elapsed { sent: true })->count == state->count + 1,
        state is Held ==> state.after(HoldEvent::Elapsed { sent: false }) == HoldState::Stopped,
        state is Parked ==> state.after(HoldEvent::Elapsed { sent: true }) == HoldState::Parked
            && state.after(HoldEvent::Elapsed { sent: false }) == HoldState::Parked,
        state.delay_ms() is Some <==> state is Held,
{
}

/// The delays before the repeats: 325 milliseconds before the first, 35 less before each one
/// after it, and never less than 45.
pub proof fn law_hold_delays(count: u32)
    ensures
        (HoldState::Held { count: 1 }).delay_ms() == Some(325u64),
        1 <= count <= 8 ==> hold_delay_ms(count as int) == hold_delay_ms(count + 1) + 35,
        count >= 9 ==> hold_delay_ms(count as int) == 45,
        (HoldState::Held { count }).delay_ms()->0 == hold_delay_ms(count as int),
{
}

/// Exactly the release of the left button and the end of a touch end a hold.
pub proof fn law_release_ends_the_hold(window: WindowView, event: InputEvent, reading: Reading)
    ensures
        release_message(event) is Some <==> event == InputEvent::ButtonReleased(MouseButton::Left)
            || event is FingerLifted || event is FingerLost,
        release_message(event) matches Some(message) ==> window_after(window, message, reading)
            == (WindowView { timer_hold: None, ..window }),
{
}

/// Waking up brings the clock up to date, and going to sleep does nothing. A failed updater is
/// started again after a minute.
pub proof fn law_wake_and_retry(window: WindowView, start: bool, reading: Reading)
    ensures
        sleep_message(start) is None <==> start,
        sleep_message(start) matches Some(message) ==> window_after(
            window,
            message,
            reading,
        ).now == reading.now,
        retry_delay(true) == Some(60u64),
        retry_delay(false) is None,
{
}

/// Every source is listened to, once, but for releases, which are heard while a stepper is held.
pub proof fn law_sources(window: WindowView, source: Source)
    ensures
        window.sources().no_duplicates(),
        window.sources().contains(source) <==> (source is ReleaseListener ==> window.timer_hold
            is Some),
{
    let list = window.sources();
    assert(list[0] == Source::Rectangle && list[1] == Source::Clock && list[2]
        == Source::FastTick && list[3] == Source::HoldRepeat && list[4] == Source::ActivationToken
        && list[5] == Source::Timezone && list[6] == Source::WakeFromSleep && list[7]
        == Source::Config);
    assert(window.timer_hold is Some ==> list[8] == Source::ReleaseListener);
}

/// The repeats of a held stepper never slow down, and come every 45 milliseconds in the
/// end.
pub proof fn law_hold_accelerates(count: int, later: int)
    requires
        0 <= count <= later,
    ensures
        45 <= hold_delay_ms(later) <= hold_delay_ms(count) <= 360,
        9 <= later ==> hold_delay_ms(later) == 45,
{
}

} // verus!
