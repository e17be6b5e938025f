//! The state of the applet and what each message does to it.

use vstd::prelude::*;
use crate::cities::CityEntry;
use crate::config::{ConfigView, Setting, TimeAppletConfig};
use crate::date::{checked_add_month, checked_sub_month, with_day, Date, Zoned};
use crate::readout::{elapsed_short_text, format_elapsed_short, SECOND};
use crate::text::{contains_text, texts};

verus! {

broadcast use vstd::string::group_string_axioms;

/// A page of the popup.
#[derive(Clone, Copy, PartialEq, Eq, Structural, Debug)]
pub enum Page {
    Calendar,
    Settings,
    Stopwatch,
    Timer,
}

/// A tab of the settings page.
#[derive(Clone, Copy, PartialEq, Eq, Structural, Debug)]
pub enum SettingsTab {
    General,
    Clocks,
    Calendar,
}

/// The longest span of time that a duration holds, in nanoseconds: one less than
/// 2^64 seconds, and 999999999 nanoseconds.
pub const DURATION_MAX: u128 = 18_446_744_073_709_551_615_999_999_999;

/// The longest countdown that can be set, 99 hours, in seconds.
pub const TIMER_MAX_SECS: i64 = 356_400;

/// Where the panel button stands, in whole pixels.
#[derive(Clone, Copy, PartialEq, Eq, Structural, Debug)]
pub struct Rectangle {
    pub x: i32,
    pub y: i32,
    pub width: i32,
    pub height: i32,
}

/// What the tracker of the panel button reports.
#[derive(Clone, Copy, PartialEq, Eq, Structural, Debug)]
pub enum RectangleUpdate {
    Rectangle(Rectangle),
    Init,
}

/// What the source of activation tokens reports.
#[derive(Clone, Copy, PartialEq, Eq, Structural, Debug)]
pub enum TokenUpdate {
    Init,
    Finished,
    ActivationToken,
}

/// What can happen to the applet. A window is known by a number.
#[derive(Clone, Debug)]
pub enum Message {
    TogglePopup,
    CloseRequested(u64),
    Tick,
    Rectangle(RectangleUpdate),
    SelectDay(i8),
    PreviousMonth,
    NextMonth,
    ToggleSettings,
    Token(TokenUpdate),
    ConfigChanged(TimeAppletConfig),
    TimezoneUpdate(String),
    Surface,
    SetMilitaryTime(bool),
    SetShowSeconds(bool),
    SetShowDate(bool),
    SetShowWeekday(bool),
    SetFirstDayOfWeek(usize),
    TabActivated(SettingsTab),
    SelectCity(CityEntry),
    RemoveClock(usize),
    SetShowPersianCalendar(bool),
    ToggleStopwatch,
    StopwatchStartPause,
    StopwatchReset,
    StopwatchLap,
    ToggleTimer,
    TimerStartPause,
    TimerReset,
    TimerAdd(i64),
    TimerHoldStart(i64),
    TimerHoldStop,
    TimerHoldTick,
    FastTick,
}

/// What was read from the outside when a message came in.
#[derive(Clone, Copy, PartialEq, Eq, Structural, Debug)]
pub struct Reading {
    /// A monotonic clock, in nanoseconds from a fixed origin.
    pub instant: u128,
    /// The wall clock in the time zone of the applet. With a `TimezoneUpdate` that names a
    /// zone there is, that is already this zone.
    pub now: Zoned,
    /// The wall clock in the time zone that a `TimezoneUpdate` names, `None` where
    /// there is no such zone.
    pub zoned: Option<Zoned>,
    /// A window number that was not used before.
    pub new_id: u64,
}

impl Reading {
    /// Every value is one that the clocks give.
    pub open spec fn valid(self) -> bool {
        &&& self.instant <= DURATION_MAX
        &&& self.now.valid()
        &&& self.zoned matches Some(z) ==> z.valid()
    }
}

/// A desktop notification.
#[derive(Debug)]
pub struct Notification {
    pub summary: String,
    pub body: String,
}

/// Work that is left for the outside once a message was handled.
#[derive(Debug)]
pub enum Task {
    Nothing,
    DestroyPopup(u64),
    GetPopup { id: u64, anchor: Rectangle },
    Surface,
    Notify(Notification),
}

/// What a message makes the applet send out.
#[derive(Debug)]
pub struct Effects {
    /// The repaint period in milliseconds that the fast tick gets.
    pub tick: Option<Option<u64>>,
    /// The step that the hold repeater gets.
    pub hold: Option<Option<i64>>,
    /// The value that the clock tick gets.
    pub show_seconds: Option<bool>,
    /// The settings are to be written out.
    pub save_config: bool,
    /// The city search is to start over.
    pub reset_city_search: bool,
    /// The day to select is not one of the month.
    pub invalid_date: bool,
    pub task: Task,
}

/// What a `Task` holds.
pub enum TaskView {
    Nothing,
    DestroyPopup(u64),
    GetPopup { id: u64, anchor: Rectangle },
    Surface,
    Notify { summary: Seq<char>, body: Seq<char> },
}

impl View for Task {
    type V = TaskView;

    open spec fn view(&self) -> TaskView {
        match self {
            Task::Nothing => TaskView::Nothing,
            Task::DestroyPopup(id) => TaskView::DestroyPopup(*id),
            Task::GetPopup { id, anchor } => TaskView::GetPopup { id: *id, anchor: *anchor },
            Task::Surface => TaskView::Surface,
            Task::Notify(n) => TaskView::Notify { summary: n.summary@, body: n.body@ },
        }
    }
}

/// What an `Effects` holds.
pub struct EffectsView {
    pub tick: Option<Option<u64>>,
    pub hold: Option<Option<i64>>,
    pub show_seconds: Option<bool>,
    pub save_config: bool,
    pub reset_city_search: bool,
    pub invalid_date: bool,
    pub task: TaskView,
}

impl View for Effects {
    type V = EffectsView;

    open spec fn view(&self) -> EffectsView {
        EffectsView {
            tick: self.tick,
            hold: self.hold,
            show_seconds: self.show_seconds,
            save_config: self.save_config,
            reset_city_search: self.reset_city_search,
            invalid_date: self.invalid_date,
            task: self.task@,
        }
    }
}

impl EffectsView {
    /// Nothing is sent out.
    pub open spec fn none() -> EffectsView {
        EffectsView {
            tick: None,
            hold: None,
            show_seconds: None,
            save_config: false,
            reset_city_search: false,
            invalid_date: false,
            task: TaskView::Nothing,
        }
    }
}

/// The applet. Instants are nanoseconds of a monotonic clock, durations are
/// nanoseconds.
#[derive(Debug)]
pub struct Window {
    pub(crate) popup: Option<u64>,
    pub(crate) now: Zoned,
    pub(crate) timezone: Option<String>,
    pub(crate) date_today: Date,
    pub(crate) date_selected: Date,
    /// The panel button is tracked.
    pub(crate) rectangle_tracker: bool,
    pub(crate) rectangle: Rectangle,
    /// Activation tokens can be asked for.
    pub(crate) token_tx: bool,
    pub(crate) config: TimeAppletConfig,
    /// The value that the clock tick has.
    pub(crate) show_seconds_tx: bool,
    /// The tag of the locale.
    pub(crate) locale: String,
    pub(crate) page: Page,
    pub(crate) active_tab: SettingsTab,
    /// Since when the stopwatch has been running. Elapsed time is computed from this
    /// anchor, never accumulated from ticks, so it can't drift or jump on a clock
    /// change.
    pub(crate) running_since: Option<u128>,
    /// What the stopwatch had counted before.
    pub(crate) accumulated: u128,
    pub(crate) laps: Vec<u128>,
    /// The length of the countdown, editable while the timer is idle.
    pub(crate) timer_duration: u128,
    /// When the countdown ends, while it runs. The remaining time is derived from it
    /// rather than decremented per tick.
    pub(crate) timer_deadline: Option<u128>,
    /// What is left of the countdown, while it is paused.
    pub(crate) timer_paused: Option<u128>,
    /// When the countdown reached zero.
    pub(crate) timer_finished_at: Option<u128>,
    /// The signed step of the stepper that is held down.
    pub(crate) timer_hold: Option<i64>,
}

/// What a `Window` holds.
#[verifier::ext_equal]
pub struct WindowView {
    pub popup: Option<u64>,
    pub now: Zoned,
    pub timezone: Option<Seq<char>>,
    pub date_today: Date,
    pub date_selected: Date,
    pub rectangle_tracker: bool,
    pub rectangle: Rectangle,
    pub token_tx: bool,
    pub config: ConfigView,
    pub show_seconds_tx: bool,
    pub locale: Seq<char>,
    pub page: Page,
    pub active_tab: SettingsTab,
    pub running_since: Option<u128>,
    pub accumulated: u128,
    pub laps: Seq<u128>,
    pub timer_duration: u128,
    pub timer_deadline: Option<u128>,
    pub timer_paused: Option<u128>,
    pub timer_finished_at: Option<u128>,
    pub timer_hold: Option<i64>,
}

impl View for Window {
    type V = WindowView;

    open(crate) spec fn view(&self) -> WindowView {
        WindowView {
            popup: self.popup,
            now: self.now,
            timezone: match self.timezone {
                Some(name) => Some(name@),
                None => None,
            },
            date_today: self.date_today,
            date_selected: self.date_selected,
            rectangle_tracker: self.rectangle_tracker,
            rectangle: self.rectangle,
            token_tx: self.token_tx,
            config: self.config@,
            show_seconds_tx: self.show_seconds_tx,
            locale: self.locale@,
            page: self.page,
            active_tab: self.active_tab,
            running_since: self.running_since,
            accumulated: self.accumulated,
            laps: self.laps@,
            timer_duration: self.timer_duration,
            timer_deadline: self.timer_deadline,
            timer_paused: self.timer_paused,
            timer_finished_at: self.timer_finished_at,
            timer_hold: self.timer_hold,
        }
    }
}

/// The time from `start` to `instant`, zero where `instant` comes first.
pub open spec fn time_since(start: int, instant: int) -> int {
    if start <= instant {
        instant - start
    } else {
        0
    }
}

impl WindowView {
    /// The dates exist, the countdown is a whole number of seconds and at most 99
    /// hours, and no instant or duration is longer than `DURATION_MAX`.
    pub open spec fn wf(self) -> bool {
        &&& self.now.valid()
        &&& self.date_today.valid()
        &&& self.date_selected.valid()
        &&& self.accumulated <= DURATION_MAX
        &&& self.running_since matches Some(t) ==> t <= DURATION_MAX
        &&& self.timer_duration % SECOND == 0
        &&& self.timer_duration <= TIMER_MAX_SECS * SECOND
        &&& self.timer_deadline matches Some(t) ==> t <= DURATION_MAX
        &&& self.timer_paused matches Some(t) ==> t <= DURATION_MAX
        &&& self.timer_finished_at matches Some(t) ==> t <= DURATION_MAX
    }

    /// What the stopwatch shows at `instant`.
    pub open spec fn stopwatch_elapsed(self, instant: int) -> int {
        self.accumulated + match self.running_since {
            Some(start) => time_since(start as int, instant),
            None => 0,
        }
    }

    pub open spec fn stopwatch_running(self) -> bool {
        self.running_since is Some
    }

    pub open spec fn timer_running(self) -> bool {
        self.timer_deadline is Some
    }

    pub open spec fn timer_finished(self) -> bool {
        self.timer_finished_at is Some
    }

    /// The timer is neither running, nor paused, nor done.
    pub open spec fn timer_idle(self) -> bool {
        self.timer_deadline is None && self.timer_paused is None && self.timer_finished_at is None
    }

    /// The timer claims the panel and the page that a click opens.
    pub open spec fn timer_active(self) -> bool {
        self.timer_running() || self.timer_finished()
    }

    /// The time left on the timer at `instant`, whichever state it is in.
    pub open spec fn timer_remaining(self, instant: int) -> int {
        match (self.timer_deadline, self.timer_paused) {
            (Some(deadline), _) => time_since(instant, deadline as int),
            (None, Some(paused)) => paused as int,
            (None, None) => self.timer_duration as int,
        }
    }

    /// The countdown runs and nothing of it is left at `instant`.
    pub open spec fn countdown_over(self, instant: int) -> bool {
        self.timer_running() && self.timer_remaining(instant) == 0
    }

    /// The countdown in seconds once `delta` was added, in `0..=TIMER_MAX_SECS`.
    pub open spec fn timer_secs_after(self, delta: i64) -> int {
        let secs = self.timer_duration as int / SECOND as int + delta;
        if secs < 0 {
            0
        } else if secs > TIMER_MAX_SECS {
            TIMER_MAX_SECS as int
        } else {
            secs
        }
    }

    /// The window once the timer's stepper moved by `delta`. A timer that is running,
    /// paused or done keeps its duration.
    pub open spec fn timer_added(self, delta: i64) -> WindowView {
        if self.timer_idle() {
            WindowView {
                timer_duration: (self.timer_secs_after(delta) * SECOND) as u128,
                ..self
            }
        } else {
            self
        }
    }

    /// The period of the repaints in milliseconds: fast while a readout is on screen,
    /// half a second while a finished timer blinks, slow while only the panel shows a
    /// count, none otherwise.
    pub open spec fn desired_tick(self) -> Option<u64> {
        let counting = self.stopwatch_running() || self.timer_running();
        let on_screen = self.popup is Some && (self.page == Page::Stopwatch || self.page
            == Page::Timer);
        if counting && on_screen {
            Some(100)
        } else if self.timer_finished() {
            Some(500)
        } else if counting {
            Some(1000)
        } else {
            None
        }
    }

    /// The timer is stopped and keeps its duration.
    pub open spec fn timer_reset(self) -> WindowView {
        WindowView { timer_deadline: None, timer_paused: None, timer_finished_at: None, ..self }
    }

    /// The window with a setting turned on or off.
    pub open spec fn with_setting(self, setting: Setting, value: bool) -> WindowView {
        WindowView { config: self.config.with(setting, value), ..self }
    }

    /// The window on another page.
    pub open spec fn on_page(self, page: Page) -> WindowView {
        WindowView { page, ..self }
    }

    /// The page that a click on the panel opens.
    pub open spec fn opening_page(self) -> Page {
        if self.timer_active() {
            Page::Timer
        } else if self.stopwatch_running() {
            Page::Stopwatch
        } else {
            Page::Calendar
        }
    }

    /// The page after the button of `page` was pressed.
    pub open spec fn toggled_page(self, page: Page) -> Page {
        if self.page == page {
            Page::Calendar
        } else {
            page
        }
    }
}

/// The applet as it starts.
pub open spec fn window_at_start(locale: Seq<char>, now: Zoned, config: ConfigView) -> WindowView {
    WindowView {
        popup: None,
        now,
        timezone: None,
        date_today: now.date,
        date_selected: now.date,
        rectangle_tracker: false,
        rectangle: Rectangle { x: 0, y: 0, width: 0, height: 0 },
        token_tx: false,
        config,
        show_seconds_tx: false,
        locale,
        page: Page::Calendar,
        active_tab: SettingsTab::General,
        running_since: None,
        accumulated: 0,
        laps: Seq::empty(),
        timer_duration: (300 * SECOND) as u128,
        timer_deadline: None,
        timer_paused: None,
        timer_finished_at: None,
        timer_hold: None,
    }
}

/// `rectangle` with no coordinate below 1.
pub open spec fn anchor_of(rectangle: Rectangle) -> Rectangle {
    Rectangle {
        x: at_least_one_spec(rectangle.x),
        y: at_least_one_spec(rectangle.y),
        width: at_least_one_spec(rectangle.width),
        height: at_least_one_spec(rectangle.height),
    }
}

pub open spec fn at_least_one_spec(value: i32) -> i32 {
    if value < 1 {
        1
    } else {
        value
    }
}

/// The window once `message` was handled.
pub open spec fn window_after(pre: WindowView, message: Message, reading: Reading) -> WindowView {
    match message {
        Message::TogglePopup => {
            if pre.popup is Some {
                WindowView { popup: None, ..pre }
            } else {
                let dismissed = if pre.timer_finished() {
                    pre.timer_reset()
                } else {
                    pre
                };
                WindowView {
                    date_today: pre.now.date,
                    date_selected: pre.now.date,
                    page: dismissed.opening_page(),
                    popup: Some(reading.new_id),
                    ..dismissed
                }
            }
        },
        Message::CloseRequested(id) => {
            if pre.popup == Some(id) {
                WindowView { popup: None, ..pre }
            } else {
                pre
            }
        },
        Message::Tick => WindowView { now: reading.now, ..pre },
        Message::Rectangle(update) => match update {
            RectangleUpdate::Rectangle(rectangle) => WindowView { rectangle, ..pre },
            RectangleUpdate::Init => WindowView { rectangle_tracker: true, ..pre },
        },
        Message::SelectDay(day) => match pre.date_selected.day_of_same_month(day) {
            Some(date) => WindowView { date_selected: date, ..pre },
            None => pre,
        },
        Message::PreviousMonth => match pre.date_selected.month_before() {
            Some(date) => WindowView { date_selected: date, ..pre },
            None => pre,
        },
        Message::NextMonth => match pre.date_selected.month_after() {
            Some(date) => WindowView { date_selected: date, ..pre },
            None => pre,
        },
        Message::ToggleSettings => pre.on_page(pre.toggled_page(Page::Settings)),
        Message::Token(update) => match update {
            TokenUpdate::Init => WindowView { token_tx: true, ..pre },
            TokenUpdate::Finished => WindowView { token_tx: false, ..pre },
            TokenUpdate::ActivationToken => pre,
        },
        Message::ConfigChanged(config) => WindowView {
            config: config@,
            show_seconds_tx: config.show_seconds,
            ..pre
        },
        Message::TimezoneUpdate(name) => match reading.zoned {
            Some(zoned) => WindowView {
                now: reading.now,
                date_today: zoned.date,
                date_selected: zoned.date,
                timezone: Some(name@),
                ..pre
            },
            None => WindowView { now: reading.now, ..pre },
        },
        Message::Surface => pre,
        Message::SetMilitaryTime(value) => pre.with_setting(Setting::MilitaryTime, value),
        Message::SetShowSeconds(value) => pre.with_setting(Setting::ShowSeconds, value),
        Message::SetShowDate(value) => pre.with_setting(Setting::ShowDate, value),
        Message::SetShowWeekday(value) => pre.with_setting(Setting::ShowWeekday, value),
        Message::SetFirstDayOfWeek(index) => WindowView {
            config: ConfigView { first_day_of_week: (index % 256) as u8, ..pre.config },
            ..pre
        },
        Message::TabActivated(tab) => WindowView { active_tab: tab, ..pre },
        Message::SelectCity(entry) => WindowView {
            config: pre.config.clock_added(entry.timezone@),
            ..pre
        },
        Message::RemoveClock(index) => WindowView {
            config: pre.config.clock_removed(index as int),
            ..pre
        },
        Message::SetShowPersianCalendar(value) => pre.with_setting(Setting::PersianCalendar, value),
        Message::ToggleStopwatch => pre.on_page(pre.toggled_page(Page::Stopwatch)),
        Message::StopwatchStartPause => {
            if pre.stopwatch_running() {
                WindowView {
                    running_since: None,
                    accumulated: pre.stopwatch_elapsed(reading.instant as int) as u128,
                    ..pre
                }
            } else {
                WindowView { running_since: Some(reading.instant), ..pre }
            }
        },
        Message::StopwatchReset => WindowView {
            running_since: None,
            accumulated: 0,
            laps: Seq::empty(),
            ..pre
        },
        Message::StopwatchLap => WindowView {
            laps: pre.laps.push(pre.stopwatch_elapsed(reading.instant as int) as u128),
            ..pre
        },
        Message::ToggleTimer => pre.on_page(pre.toggled_page(Page::Timer)),
        Message::TimerStartPause => {
            let remaining = pre.timer_remaining(reading.instant as int);
            if pre.timer_running() {
                WindowView { timer_deadline: None, timer_paused: Some(remaining as u128), ..pre }
            } else if remaining > 0 {
                WindowView {
                    timer_deadline: Some((reading.instant + remaining) as u128),
                    timer_paused: None,
                    ..pre
                }
            } else {
                WindowView { timer_paused: None, ..pre }
            }
        },
        Message::TimerReset => pre.timer_reset(),
        Message::TimerAdd(delta) => pre.timer_added(delta),
        Message::TimerHoldStart(delta) => WindowView {
            timer_hold: Some(delta),
            ..pre.timer_added(delta)
        },
        Message::TimerHoldStop => WindowView { timer_hold: None, ..pre },
        Message::TimerHoldTick => match pre.timer_hold {
            Some(delta) => pre.timer_added(delta),
            None => pre,
        },
        Message::FastTick => {
            if pre.countdown_over(reading.instant as int) {
                WindowView { timer_finished_at: Some(reading.instant), ..pre.timer_reset() }
            } else {
                pre
            }
        },
    }
}

/// What goes out when `message` is handled.
pub open spec fn effects_of(pre: WindowView, message: Message, reading: Reading) -> EffectsView {
    let none = EffectsView::none();
    let post = window_after(pre, message, reading);
    let refreshed = EffectsView { tick: Some(post.desired_tick()), ..none };
    let saved = EffectsView { save_config: true, ..none };
    match message {
        Message::TogglePopup => EffectsView {
            task: match pre.popup {
                Some(id) => TaskView::DestroyPopup(id),
                None => TaskView::GetPopup {
                    id: reading.new_id,
                    anchor: anchor_of(pre.rectangle),
                },
            },
            ..refreshed
        },
        Message::ToggleSettings
        | Message::ToggleStopwatch
        | Message::ToggleTimer
        | Message::StopwatchStartPause
        | Message::StopwatchReset
        | Message::TimerStartPause
        | Message::TimerReset => refreshed,
        Message::FastTick => {
            if pre.countdown_over(reading.instant as int) {
                EffectsView { task: notification_of(pre.timer_duration as nat), ..refreshed }
            } else {
                none
            }
        },
        Message::SelectDay(day) => EffectsView {
            invalid_date: pre.date_selected.day_of_same_month(day) is None,
            ..none
        },
        Message::CloseRequested(id) => {
            if pre.popup == Some(id) {
                refreshed
            } else {
                none
            }
        },
        Message::ConfigChanged(config) => EffectsView {
            show_seconds: if config.show_seconds == pre.show_seconds_tx {
                None
            } else {
                Some(config.show_seconds)
            },
            ..none
        },
        Message::Surface => EffectsView { task: TaskView::Surface, ..none },
        Message::SetMilitaryTime(_)
        | Message::SetShowSeconds(_)
        | Message::SetShowDate(_)
        | Message::SetShowWeekday(_)
        | Message::SetFirstDayOfWeek(_)
        | Message::SetShowPersianCalendar(_) => saved,
        Message::SelectCity(entry) => EffectsView {
            save_config: !pre.config.additional_clocks.contains(entry.timezone@),
            reset_city_search: true,
            ..none
        },
        Message::RemoveClock(index) => EffectsView {
            save_config: index < pre.config.additional_clocks.len(),
            ..none
        },
        Message::TimerHoldStart(delta) => EffectsView { hold: Some(Some(delta)), ..none },
        Message::TimerHoldStop => EffectsView { hold: Some(None), ..none },
        _ => none,
    }
}

/// What `message` makes the applet add up stays within the range of its clocks.
pub open spec fn update_fits(pre: WindowView, message: Message, reading: Reading) -> bool {
    match message {
        Message::StopwatchStartPause | Message::StopwatchLap => pre.stopwatch_elapsed(
            reading.instant as int,
        ) <= DURATION_MAX,
        Message::TimerStartPause => pre.timer_running() || reading.instant + pre.timer_remaining(
            reading.instant as int,
        ) <= DURATION_MAX,
        _ => true,
    }
}

/// The notification that a countdown of `nanos` is over.
pub open spec fn notification_of(nanos: nat) -> TaskView {
    TaskView::Notify {
        summary: "Timer finished"@,
        body: "Your "@ + elapsed_short_text(nanos) + " timer is done."@,
    }
}

fn at_least_one(value: i32) -> (result: i32)
    ensures
        result == at_least_one_spec(value),
{
    if value < 1 {
        1
    } else {
        value
    }
}

fn since(start: u128, instant: u128) -> (time: u128)
    ensures
        time == time_since(start as int, instant as int),
{
    if start <= instant {
        instant - start
    } else {
        0
    }
}

impl Effects {
    /// Nothing is sent out.
    pub fn none() -> (effects: Effects)
        ensures
            effects@ == EffectsView::none(),
    {
        Effects {
            tick: None,
            hold: None,
            show_seconds: None,
            save_config: false,
            reset_city_search: false,
            invalid_date: false,
            task: Task::Nothing,
        }
    }

    /// The settings are written out.
    fn saved() -> (effects: Effects)
        ensures
            effects@ == (EffectsView { save_config: true, ..EffectsView::none() }),
    {
        Effects { save_config: true, ..Effects::none() }
    }
}

impl Window {
    /// The applet as it starts: nothing is counting, the popup is closed, and the timer
    /// is set to five minutes.
    pub fn init(locale: String, now: Zoned, config: TimeAppletConfig) -> (window: Window)
        requires
            now.valid(),
        ensures
            window@ == window_at_start(locale@, now, config@),
            window@.wf(),
    {
        Window {
            popup: None,
            now,
            timezone: None,
            date_today: now.date,
            date_selected: now.date,
            rectangle_tracker: false,
            rectangle: Rectangle { x: 0, y: 0, width: 0, height: 0 },
            token_tx: false,
            config,
            show_seconds_tx: false,
            locale,
            page: Page::Calendar,
            active_tab: SettingsTab::General,
            running_since: None,
            accumulated: 0,
            laps: Vec::new(),
            timer_duration: 300 * SECOND,
            timer_deadline: None,
            timer_paused: None,
            timer_finished_at: None,
            timer_hold: None,
        }
    }

    /// What the stopwatch shows at `instant`.
    pub fn stopwatch_elapsed(&self, instant: u128) -> (elapsed: u128)
        requires
            self@.stopwatch_elapsed(instant as int) <= DURATION_MAX,
        ensures
            elapsed == self@.stopwatch_elapsed(instant as int),
    {
        match self.running_since {
            Some(start) => self.accumulated + since(start, instant),
            None => self.accumulated,
        }
    }

    /// Repaint cadence in milliseconds, serving the stopwatch and timer together. Fast
    /// while a readout is on screen, slow while only the panel needs it, off when
    /// neither is counting. A finished timer blinks, so it needs a steady repaint even
    /// when nothing is counting.
    pub fn desired_tick(&self) -> (period: Option<u64>)
        ensures
            period == self@.desired_tick(),
    {
        let counting = self.running_since.is_some() || self.timer_running();
        let base: Option<u64> = if !counting {
            None
        } else if self.popup.is_some() && (self.page == Page::Stopwatch || self.page
            == Page::Timer) {
            Some(100)
        } else {
            Some(1000)
        };
        if self.timer_finished() {
            match base {
                Some(period) if period < 500 => Some(period),
                _ => Some(500),
            }
        } else {
            base
        }
    }

    pub fn timer_running(&self) -> (running: bool)
        ensures
            running == self@.timer_running(),
    {
        self.timer_deadline.is_some()
    }

    pub fn timer_finished(&self) -> (finished: bool)
        ensures
            finished == self@.timer_finished(),
    {
        self.timer_finished_at.is_some()
    }

    /// True when the timer should claim the panel and the click-to-open page.
    pub fn timer_active(&self) -> (active: bool)
        ensures
            active == self@.timer_active(),
    {
        self.timer_running() || self.timer_finished()
    }

    /// Time left on the timer at `instant`, whichever state it is in.
    pub fn timer_remaining(&self, instant: u128) -> (remaining: u128)
        ensures
            remaining == self@.timer_remaining(instant as int),
    {
        if let Some(deadline) = self.timer_deadline {
            since(instant, deadline)
        } else if let Some(paused) = self.timer_paused {
            paused
        } else {
            self.timer_duration
        }
    }

    /// Adjusts the configured duration by `delta` seconds, clamped to [0, 99h]. Only
    /// meaningful while idle, so it is a no-op once the timer is running, paused or done.
    pub fn timer_add(&mut self, delta: i64)
        requires
            old(self)@.wf(),
        ensures
            final(self)@ == old(self)@.timer_added(delta),
            final(self)@.wf(),
    {
        if self.timer_deadline.is_none() && self.timer_paused.is_none() && !self.timer_finished() {
            let secs: i128 = (self.timer_duration / SECOND) as i128 + delta as i128;
            let longest: i128 = TIMER_MAX_SECS as i128;
            let clamped: i128 = if secs < 0 {
                0
            } else if secs > longest {
                longest
            } else {
                secs
            };
            self.timer_duration = clamped as u128 * SECOND;
        }
    }

    /// The repaint cadence to send out.
    fn refresh_tick(&self) -> (effects: Effects)
        ensures
            effects@ == (EffectsView {
                tick: Some(self@.desired_tick()),
                ..EffectsView::none()
            }),
    {
        Effects { tick: Some(self.desired_tick()), ..Effects::none() }
    }

    /// The page after the button of `page` was pressed.
    fn toggle_page(&mut self, page: Page) -> (effects: Effects)
        requires
            old(self)@.wf(),
        ensures
            final(self)@ == old(self)@.on_page(old(self)@.toggled_page(page)),
            final(self)@.wf(),
            effects@ == (EffectsView {
                tick: Some(final(self)@.desired_tick()),
                ..EffectsView::none()
            }),
    {
        self.page = if self.page == page {
            Page::Calendar
        } else {
            page
        };
        self.refresh_tick()
    }

    /// Turns a setting on or off, and has the settings written out.
    fn change_setting(&mut self, setting: Setting, value: bool) -> (effects: Effects)
        requires
            old(self)@.wf(),
        ensures
            final(self)@ == old(self)@.with_setting(setting, value),
            final(self)@.wf(),
            effects@ == (EffectsView { save_config: true, ..EffectsView::none() }),
    {
        self.config.set(setting, value);
        Effects::saved()
    }

    /// Opens or closes the popup. Opening the applet dismisses a finished timer: it
    /// resets and the flashing panel indicator goes away.
    fn toggle_popup(&mut self, reading: Reading) -> (effects: Effects)
        requires
            old(self)@.wf(),
        ensures
            final(self)@ == window_after(old(self)@, Message::TogglePopup, reading),
            effects@ == effects_of(old(self)@, Message::TogglePopup, reading),
            final(self)@.wf(),
    {
        if let Some(id) = self.popup {
            self.popup = None;
            Effects { task: Task::DestroyPopup(id), ..self.refresh_tick() }
        } else {
            self.date_today = self.now.date;
            self.date_selected = self.date_today;
            if self.timer_finished() {
                self.timer_deadline = None;
                self.timer_paused = None;
                self.timer_finished_at = None;
            }
            self.page = if self.timer_active() {
                Page::Timer
            } else if self.running_since.is_some() {
                Page::Stopwatch
            } else {
                Page::Calendar
            };
            self.popup = Some(reading.new_id);
            let anchor = Rectangle {
                x: at_least_one(self.rectangle.x),
                y: at_least_one(self.rectangle.y),
                width: at_least_one(self.rectangle.width),
                height: at_least_one(self.rectangle.height),
            };
            Effects { task: Task::GetPopup { id: reading.new_id, anchor }, ..self.refresh_tick() }
        }
    }

    /// Forgets the popup that was closed. A readout that was on screen no longer is.
    fn close_requested(&mut self, id: u64, reading: Reading) -> (effects: Effects)
        requires
            old(self)@.wf(),
            reading.valid(),
            update_fits(old(self)@, Message::CloseRequested(id), reading),
        ensures
            final(self)@ == window_after(old(self)@, Message::CloseRequested(id), reading),
            effects@ == effects_of(old(self)@, Message::CloseRequested(id), reading),
            final(self)@.wf(),
    {
        if let Some(popup) = self.popup {
            if popup == id {
                self.popup = None;
                return self.refresh_tick();
            }
        }
        Effects::none()
    }

    /// Notes where the panel button stands, or that it is tracked.
    fn track_rectangle(&mut self, update: RectangleUpdate, reading: Reading) -> (effects: Effects)
        requires
            old(self)@.wf(),
            reading.valid(),
            update_fits(old(self)@, Message::Rectangle(update), reading),
        ensures
            final(self)@ == window_after(old(self)@, Message::Rectangle(update), reading),
            effects@ == effects_of(old(self)@, Message::Rectangle(update), reading),
            final(self)@.wf(),
    {
        match update {
            RectangleUpdate::Rectangle(rectangle) => {
                self.rectangle = rectangle;
            },
            RectangleUpdate::Init => {
                self.rectangle_tracker = true;
            },
        }
        Effects::none()
    }

    /// Selects a day of the month on show, where it has that day.
    fn select_day(&mut self, day: i8, reading: Reading) -> (effects: Effects)
        requires
            old(self)@.wf(),
            reading.valid(),
            update_fits(old(self)@, Message::SelectDay(day), reading),
        ensures
            final(self)@ == window_after(old(self)@, Message::SelectDay(day), reading),
            effects@ == effects_of(old(self)@, Message::SelectDay(day), reading),
            final(self)@.wf(),
    {
        if let Some(date) = with_day(self.date_selected, day) {
            self.date_selected = date;
            Effects::none()
        } else {
            Effects { invalid_date: true, ..Effects::none() }
        }
    }

    /// Shows the previous month, where there is one.
    fn previous_month(&mut self, reading: Reading) -> (effects: Effects)
        requires
            old(self)@.wf(),
            reading.valid(),
            update_fits(old(self)@, Message::PreviousMonth, reading),
        ensures
            final(self)@ == window_after(old(self)@, Message::PreviousMonth, reading),
            effects@ == effects_of(old(self)@, Message::PreviousMonth, reading),
            final(self)@.wf(),
    {
        if let Some(date) = checked_sub_month(self.date_selected) {
            self.date_selected = date;
        }
        Effects::none()
    }

    /// Shows the next month, where there is one.
    fn next_month(&mut self, reading: Reading) -> (effects: Effects)
        requires
            old(self)@.wf(),
            reading.valid(),
            update_fits(old(self)@, Message::NextMonth, reading),
        ensures
            final(self)@ == window_after(old(self)@, Message::NextMonth, reading),
            effects@ == effects_of(old(self)@, Message::NextMonth, reading),
            final(self)@.wf(),
    {
        if let Some(date) = checked_add_month(self.date_selected) {
            self.date_selected = date;
        }
        Effects::none()
    }

    /// Notes whether activation tokens can be asked for.
    fn note_token(&mut self, update: TokenUpdate, reading: Reading) -> (effects: Effects)
        requires
            old(self)@.wf(),
            reading.valid(),
            update_fits(old(self)@, Message::Token(update), reading),
        ensures
            final(self)@ == window_after(old(self)@, Message::Token(update), reading),
            effects@ == effects_of(old(self)@, Message::Token(update), reading),
            final(self)@.wf(),
    {
        match update {
            TokenUpdate::Init => {
                self.token_tx = true;
            },
            TokenUpdate::Finished => {
                self.token_tx = false;
            },
            TokenUpdate::ActivationToken => {},
        }
        Effects::none()
    }

    /// Takes over settings, and tells the clock tick where it changes.
    fn config_changed(&mut self, config: TimeAppletConfig, reading: Reading) -> (effects: Effects)
        requires
            old(self)@.wf(),
            reading.valid(),
            update_fits(old(self)@, Message::ConfigChanged(config), reading),
        ensures
            final(self)@ == window_after(old(self)@, Message::ConfigChanged(config), reading),
            effects@ == effects_of(old(self)@, Message::ConfigChanged(config), reading),
            final(self)@.wf(),
    {
        let show_seconds = if self.show_seconds_tx == config.show_seconds {
            None
        } else {
            Some(config.show_seconds)
        };
        self.show_seconds_tx = config.show_seconds;
        self.config = config;
        Effects { show_seconds, ..Effects::none() }
    }

    /// Moves to another time zone, where it is known.
    fn timezone_update(&mut self, name: String, reading: Reading) -> (effects: Effects)
        requires
            old(self)@.wf(),
            reading.valid(),
            update_fits(old(self)@, Message::TimezoneUpdate(name), reading),
        ensures
            final(self)@ == window_after(old(self)@, Message::TimezoneUpdate(name), reading),
            effects@ == effects_of(old(self)@, Message::TimezoneUpdate(name), reading),
            final(self)@.wf(),
    {
        if let Some(zoned) = reading.zoned {
            self.date_today = zoned.date;
            self.date_selected = self.date_today;
            self.timezone = Some(name);
        }
        self.now = reading.now;
        Effects::none()
    }

    /// Adds the clock of a city, once.
    fn select_city(&mut self, entry: CityEntry, reading: Reading) -> (effects: Effects)
        requires
            old(self)@.wf(),
            reading.valid(),
            update_fits(old(self)@, Message::SelectCity(entry), reading),
        ensures
            final(self)@ == window_after(old(self)@, Message::SelectCity(entry), reading),
            effects@ == effects_of(old(self)@, Message::SelectCity(entry), reading),
            final(self)@.wf(),
    {
        let known = contains_text(&self.config.additional_clocks, &entry.timezone);
        if !known {
            let ghost before = self.config.additional_clocks@;
            self.config.additional_clocks.push(entry.timezone);
            assert(texts(self.config.additional_clocks@) == texts(before).push(
                entry.timezone@,
            ));
        }
        Effects { save_config: !known, reset_city_search: true, ..Effects::none() }
    }

    /// Removes a clock.
    fn remove_clock(&mut self, index: usize, reading: Reading) -> (effects: Effects)
        requires
            old(self)@.wf(),
            reading.valid(),
            update_fits(old(self)@, Message::RemoveClock(index), reading),
        ensures
            final(self)@ == window_after(old(self)@, Message::RemoveClock(index), reading),
            effects@ == effects_of(old(self)@, Message::RemoveClock(index), reading),
            final(self)@.wf(),
    {
        let found = index < self.config.additional_clocks.len();
        if found {
            let ghost before = self.config.additional_clocks@;
            self.config.additional_clocks.remove(index);
            assert(texts(self.config.additional_clocks@) == texts(before).remove(
                index as int,
            ));
        }
        Effects { save_config: found, ..Effects::none() }
    }

    /// Starts or pauses the stopwatch.
    fn stopwatch_start_pause(&mut self, reading: Reading) -> (effects: Effects)
        requires
            old(self)@.wf(),
            reading.valid(),
            update_fits(old(self)@, Message::StopwatchStartPause, reading),
        ensures
            final(self)@ == window_after(old(self)@, Message::StopwatchStartPause, reading),
            effects@ == effects_of(old(self)@, Message::StopwatchStartPause, reading),
            final(self)@.wf(),
    {
        if let Some(_) = self.running_since {
            // Was running: fold the current segment into the total.
            self.accumulated = self.stopwatch_elapsed(reading.instant);
            self.running_since = None;
        } else {
            // Was stopped: open a new segment.
            self.running_since = Some(reading.instant);
        }
        self.refresh_tick()
    }

    /// Stops the stopwatch at zero.
    fn stopwatch_reset(&mut self, reading: Reading) -> (effects: Effects)
        requires
            old(self)@.wf(),
            reading.valid(),
            update_fits(old(self)@, Message::StopwatchReset, reading),
        ensures
            final(self)@ == window_after(old(self)@, Message::StopwatchReset, reading),
            effects@ == effects_of(old(self)@, Message::StopwatchReset, reading),
            final(self)@.wf(),
    {
        self.running_since = None;
        self.accumulated = 0;
        self.laps.clear();
        self.refresh_tick()
    }

    /// Notes what the stopwatch shows.
    fn stopwatch_lap(&mut self, reading: Reading) -> (effects: Effects)
        requires
            old(self)@.wf(),
            reading.valid(),
            update_fits(old(self)@, Message::StopwatchLap, reading),
        ensures
            final(self)@ == window_after(old(self)@, Message::StopwatchLap, reading),
            effects@ == effects_of(old(self)@, Message::StopwatchLap, reading),
            final(self)@.wf(),
    {
        let elapsed = self.stopwatch_elapsed(reading.instant);
        self.laps.push(elapsed);
        Effects::none()
    }

    /// Starts, pauses or resumes the countdown.
    fn timer_start_pause(&mut self, reading: Reading) -> (effects: Effects)
        requires
            old(self)@.wf(),
            reading.valid(),
            update_fits(old(self)@, Message::TimerStartPause, reading),
        ensures
            final(self)@ == window_after(old(self)@, Message::TimerStartPause, reading),
            effects@ == effects_of(old(self)@, Message::TimerStartPause, reading),
            final(self)@.wf(),
    {
        let remaining = self.timer_remaining(reading.instant);
        if let Some(_) = self.timer_deadline {
            // Was running: freeze the remaining time.
            self.timer_deadline = None;
            self.timer_paused = Some(remaining);
        } else {
            // Was paused or idle: count down from whatever is left.
            self.timer_paused = None;
            if remaining > 0 {
                self.timer_deadline = Some(reading.instant + remaining);
            }
        }
        self.refresh_tick()
    }

    /// Stops the countdown, which keeps its length.
    fn timer_reset(&mut self, reading: Reading) -> (effects: Effects)
        requires
            old(self)@.wf(),
            reading.valid(),
            update_fits(old(self)@, Message::TimerReset, reading),
        ensures
            final(self)@ == window_after(old(self)@, Message::TimerReset, reading),
            effects@ == effects_of(old(self)@, Message::TimerReset, reading),
            final(self)@.wf(),
    {
        self.timer_deadline = None;
        self.timer_paused = None;
        self.timer_finished_at = None;
        self.refresh_tick()
    }

    /// Takes one immediate step, after which the repeat accelerates.
    fn timer_hold_start(&mut self, delta: i64, reading: Reading) -> (effects: Effects)
        requires
            old(self)@.wf(),
            reading.valid(),
            update_fits(old(self)@, Message::TimerHoldStart(delta), reading),
        ensures
            final(self)@ == window_after(old(self)@, Message::TimerHoldStart(delta), reading),
            effects@ == effects_of(old(self)@, Message::TimerHoldStart(delta), reading),
            final(self)@.wf(),
    {
        self.timer_add(delta);
        self.timer_hold = Some(delta);
        Effects { hold: Some(Some(delta)), ..Effects::none() }
    }

    /// Repeats the step of the stepper that is held.
    fn timer_hold_tick(&mut self, reading: Reading) -> (effects: Effects)
        requires
            old(self)@.wf(),
            reading.valid(),
            update_fits(old(self)@, Message::TimerHoldTick, reading),
        ensures
            final(self)@ == window_after(old(self)@, Message::TimerHoldTick, reading),
            effects@ == effects_of(old(self)@, Message::TimerHoldTick, reading),
            final(self)@.wf(),
    {
        if let Some(delta) = self.timer_hold {
            self.timer_add(delta);
        }
        Effects::none()
    }

    /// Detects the countdown reaching zero.
    fn fast_tick(&mut self, reading: Reading) -> (effects: Effects)
        requires
            old(self)@.wf(),
            reading.valid(),
            update_fits(old(self)@, Message::FastTick, reading),
        ensures
            final(self)@ == window_after(old(self)@, Message::FastTick, reading),
            effects@ == effects_of(old(self)@, Message::FastTick, reading),
            final(self)@.wf(),
    {
        if self.timer_running() && self.timer_remaining(reading.instant) == 0 {
            self.timer_deadline = None;
            self.timer_paused = None;
            self.timer_finished_at = Some(reading.instant);
            Effects {
                task: Task::Notify(timer_notification(self.timer_duration)),
                ..self.refresh_tick()
            }
        } else {
            Effects::none()
        }
    }

    /// Handles a message, and says what is to be sent out.
    #[verifier::rlimit(40)]
    pub fn update(&mut self, message: Message, reading: Reading) -> (effects: Effects)
        requires
            old(self)@.wf(),
            reading.valid(),
            update_fits(old(self)@, message, reading),
        ensures
            final(self)@ == window_after(old(self)@, message, reading),
            effects@ == effects_of(old(self)@, message, reading),
            final(self)@.wf(),
    {
        match message {
            Message::TogglePopup => self.toggle_popup(reading),
            Message::CloseRequested(id) => self.close_requested(id, reading),
            Message::Tick => {
                self.now = reading.now;
                Effects::none()
            },
            Message::Rectangle(update) => self.track_rectangle(update, reading),
            Message::SelectDay(day) => self.select_day(day, reading),
            Message::PreviousMonth => self.previous_month(reading),
            Message::NextMonth => self.next_month(reading),
            Message::ToggleSettings => self.toggle_page(Page::Settings),
            Message::Token(update) => self.note_token(update, reading),
            Message::ConfigChanged(config) => self.config_changed(config, reading),
            Message::TimezoneUpdate(name) => self.timezone_update(name, reading),
            Message::Surface => Effects { task: Task::Surface, ..Effects::none() },
            Message::SetMilitaryTime(value) => self.change_setting(Setting::MilitaryTime, value),
            Message::SetShowSeconds(value) => self.change_setting(Setting::ShowSeconds, value),
            Message::SetShowDate(value) => self.change_setting(Setting::ShowDate, value),
            Message::SetShowWeekday(value) => self.change_setting(Setting::ShowWeekday, value),
            Message::SetFirstDayOfWeek(index) => {
                self.config.first_day_of_week = (index % 256) as u8;
                Effects::saved()
            },
            Message::TabActivated(tab) => {
                self.active_tab = tab;
                Effects::none()
            },
            Message::SelectCity(entry) => self.select_city(entry, reading),
            Message::RemoveClock(index) => self.remove_clock(index, reading),
            Message::SetShowPersianCalendar(value) => self.change_setting(
                Setting::PersianCalendar,
                value,
            ),
            Message::ToggleStopwatch => self.toggle_page(Page::Stopwatch),
            Message::StopwatchStartPause => self.stopwatch_start_pause(reading),
            Message::StopwatchReset => self.stopwatch_reset(reading),
            Message::StopwatchLap => self.stopwatch_lap(reading),
            Message::ToggleTimer => self.toggle_page(Page::Timer),
            Message::TimerStartPause => self.timer_start_pause(reading),
            Message::TimerReset => self.timer_reset(reading),
            Message::TimerAdd(delta) => {
                self.timer_add(delta);
                Effects::none()
            },
            Message::TimerHoldStart(delta) => self.timer_hold_start(delta, reading),
            Message::TimerHoldStop => {
                self.timer_hold = None;
                Effects { hold: Some(None), ..Effects::none() }
            },
            Message::TimerHoldTick => self.timer_hold_tick(reading),
            Message::FastTick => self.fast_tick(reading),
        }
    }
}

impl Window {
    /// The open popup.
    pub fn popup(&self) -> (popup: Option<u64>)
        ensures
            popup == self@.popup,
    {
        self.popup
    }

    /// The wall clock.
    pub fn now(&self) -> (now: Zoned)
        ensures
            now == self@.now,
    {
        self.now
    }

    /// The name of the time zone, where it is not that of the system.
    pub fn timezone(&self) -> (timezone: &Option<String>)
        ensures
            self@.timezone == (match *timezone {
                Some(name) => Some(name@),
                None => None,
            }),
    {
        &self.timezone
    }

    /// Today, as the calendar marks it.
    pub fn date_today(&self) -> (date_today: Date)
        ensures
            date_today == self@.date_today,
    {
        self.date_today
    }

    /// The selected date.
    pub fn date_selected(&self) -> (date_selected: Date)
        ensures
            date_selected == self@.date_selected,
    {
        self.date_selected
    }

    /// Whether the panel button is tracked.
    pub fn rectangle_tracker(&self) -> (rectangle_tracker: bool)
        ensures
            rectangle_tracker == self@.rectangle_tracker,
    {
        self.rectangle_tracker
    }

    /// Whether activation tokens can be asked for.
    pub fn token_tx(&self) -> (token_tx: bool)
        ensures
            token_tx == self@.token_tx,
    {
        self.token_tx
    }

    /// The settings.
    pub fn config(&self) -> (config: &TimeAppletConfig)
        ensures
            config@ == self@.config,
    {
        &self.config
    }

    /// The page of the popup.
    pub fn page(&self) -> (page: Page)
        ensures
            page == self@.page,
    {
        self.page
    }

    /// The tab of the settings page.
    pub fn active_tab(&self) -> (active_tab: SettingsTab)
        ensures
            active_tab == self@.active_tab,
    {
        self.active_tab
    }

    /// The laps of the stopwatch, in order.
    pub fn laps(&self) -> (laps: &Vec<u128>)
        ensures
            laps@ == self@.laps,
    {
        &self.laps
    }

    /// The length of the countdown.
    pub fn timer_duration(&self) -> (timer_duration: u128)
        ensures
            timer_duration == self@.timer_duration,
    {
        self.timer_duration
    }

    /// What is left of the countdown, while it is paused.
    pub fn timer_paused(&self) -> (timer_paused: Option<u128>)
        ensures
            timer_paused == self@.timer_paused,
    {
        self.timer_paused
    }

    /// Whether what the stopwatch shows at `instant` is within the range of durations.
    pub fn stopwatch_fits(&self, instant: u128) -> (fits: bool)
        requires
            self@.wf(),
        ensures
            fits == (self@.stopwatch_elapsed(instant as int) <= DURATION_MAX),
    {
        match self.running_since {
            Some(start) => since(start, instant) <= DURATION_MAX - self.accumulated,
            None => true,
        }
    }

    /// Whether what `message` makes the applet add up stays within the range of its clocks.
    pub fn can_handle(&self, message: &Message, reading: Reading) -> (fits: bool)
        requires
            self@.wf(),
            reading.valid(),
        ensures
            fits == update_fits(self@, *message, reading),
    {
        match message {
            Message::StopwatchStartPause | Message::StopwatchLap => self.stopwatch_fits(
                reading.instant,
            ),
            Message::TimerStartPause => self.timer_running() || self.timer_remaining(
                reading.instant,
            ) <= DURATION_MAX - reading.instant,
            _ => true,
        }
    }
}

/// The notification that a countdown of `nanos` is over.
pub fn timer_notification(nanos: u128) -> (notification: Notification)
    ensures
        Task::Notify(notification)@ == notification_of(nanos as nat),
{
    let mut body = "Your ".to_string();
    body.append(format_elapsed_short(nanos).as_str());
    body.append(" timer is done.");
    Notification { summary: "Timer finished".to_string(), body }
}

} // verus!
