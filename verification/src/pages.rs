//! The pages of the popup.

use vstd::prelude::*;
use crate::calendar::CalendarPage;
use crate::controls::{page_header, PageHeader};
use crate::date::Zoned;
use crate::panel::TextClass;
use crate::readout::{
    elapsed_short_text, elapsed_text, format_elapsed, format_elapsed_short, SECOND,
};
use crate::settings::SettingsPage;
use crate::text::{decimal, decimal_string, padded, padded_string};
use crate::window::{Message, Page, Window, WindowView, DURATION_MAX};

verus! {

broadcast use vstd::string::group_string_axioms;

/// A button with a label. One without a message cannot be pressed.
#[derive(Debug)]
pub struct Button {
    pub label: String,
    /// The button stands out.
    pub suggested: bool,
    pub on_press: Option<Message>,
}

/// What a `Button` holds.
pub struct ButtonView {
    pub label: Seq<char>,
    pub suggested: bool,
    pub on_press: Option<Message>,
}

impl View for Button {
    type V = ButtonView;

    open spec fn view(&self) -> ButtonView {
        ButtonView { label: self.label@, suggested: self.suggested, on_press: self.on_press }
    }
}

/// What a row of buttons holds.
pub open spec fn button_row(row: Seq<Button>) -> Seq<ButtonView> {
    row.map_values(|b: Button| b@)
}

fn button(label: &str, suggested: bool, on_press: Option<Message>) -> (button: Button)
    ensures
        button@ == (ButtonView { label: label@, suggested, on_press }),
{
    Button { label: label.to_string(), suggested, on_press }
}

/// The two arrows that set a unit of the countdown.
#[derive(Debug)]
pub struct Stepper {
    pub label: String,
    pub value: String,
    /// The seconds that one step adds.
    pub step: i64,
}

/// What a `Stepper` holds.
pub struct StepperView {
    pub label: Seq<char>,
    pub value: Seq<char>,
    pub step: i64,
}

impl View for Stepper {
    type V = StepperView;

    open spec fn view(&self) -> StepperView {
        StepperView { label: self.label@, value: self.value@, step: self.step }
    }
}

/// What the steppers hold.
pub open spec fn stepper_row(row: Seq<Stepper>) -> Seq<StepperView> {
    row.map_values(|s: Stepper| s@)
}

/// The steppers of a countdown of `seconds`.
pub open spec fn steppers_of(seconds: nat) -> Seq<StepperView> {
    seq![
        StepperView { label: "hr"@, value: padded(seconds / 3600), step: 3600 },
        StepperView { label: "min"@, value: padded((seconds / 60) % 60), step: 60 },
        StepperView { label: "sec"@, value: padded(seconds % 60), step: 1 },
    ]
}

/// The way in which a wheel turns.
#[derive(Clone, Copy, PartialEq, Eq, Structural, Debug)]
pub enum Scroll {
    Up,
    Down,
    Still,
}

impl StepperView {
    /// The message of the upper arrow.
    pub open spec fn up_message(self) -> Message {
        Message::TimerHoldStart(self.step)
    }

    /// The message of the lower arrow.
    pub open spec fn down_message(self) -> Message {
        Message::TimerHoldStart((-self.step) as i64)
    }

    /// The message of a wheel that turns over the stepper.
    pub open spec fn scroll_message(self, scroll: Scroll) -> Message {
        Message::TimerAdd(
            match scroll {
                Scroll::Up => self.step,
                Scroll::Down => (-self.step) as i64,
                Scroll::Still => 0,
            },
        )
    }
}

impl Stepper {
    /// Pressing the upper arrow starts a repeat of steps up.
    pub fn on_press_up(&self) -> (message: Message)
        ensures
            message == self@.up_message(),
    {
        Message::TimerHoldStart(self.step)
    }

    /// Pressing the lower arrow starts a repeat of steps down.
    pub fn on_press_down(&self) -> (message: Message)
        requires
            self.step > i64::MIN,
        ensures
            message == self@.down_message(),
    {
        Message::TimerHoldStart(-self.step)
    }

    /// Scrolling over the column nudges the value one step per notch.
    pub fn on_scroll(&self, scroll: Scroll) -> (message: Message)
        requires
            self.step > i64::MIN,
        ensures
            message == self@.scroll_message(scroll),
    {
        Message::TimerAdd(
            match scroll {
                Scroll::Up => self.step,
                Scroll::Down => -self.step,
                Scroll::Still => 0,
            },
        )
    }
}

/// The timer page.
#[derive(Debug)]
pub struct TimerPage {
    pub header: PageHeader,
    /// A heading above the readout.
    pub heading: Option<String>,
    pub readout: String,
    pub class: TextClass,
    /// Steppers to set the duration.
    pub steppers: Option<Vec<Stepper>>,
    /// The buttons, from left to right.
    pub controls: Vec<Button>,
}

impl WindowView {
    /// The steppers of the countdown.
    pub open spec fn timer_steppers(self) -> Seq<StepperView> {
        steppers_of((self.timer_duration as nat) / (SECOND as nat))
    }

    /// The buttons of the timer page, from left to right. A finished timer can only be
    /// dismissed.
    pub open spec fn timer_controls(self, instant: int) -> Seq<ButtonView> {
        if self.timer_finished() {
            seq![
                ButtonView {
                    label: "Dismiss"@,
                    suggested: true,
                    on_press: Some(Message::TimerReset),
                },
            ]
        } else {
            seq![
                ButtonView {
                    label: "Reset"@,
                    suggested: false,
                    on_press: if self.timer_idle() {
                        None
                    } else {
                        Some(Message::TimerReset)
                    },
                },
                ButtonView {
                    label: if self.timer_running() {
                        "Pause"@
                    } else {
                        "Start"@
                    },
                    suggested: true,
                    on_press: if self.timer_running() || self.timer_remaining(instant) > 0 {
                        Some(Message::TimerStartPause)
                    } else {
                        None
                    },
                },
            ]
        }
    }

    /// The buttons of the stopwatch page, from left to right.
    pub open spec fn stopwatch_controls(self, instant: int) -> Seq<ButtonView> {
        seq![
            if self.stopwatch_running() {
                ButtonView {
                    label: "Lap"@,
                    suggested: false,
                    on_press: Some(Message::StopwatchLap),
                }
            } else {
                ButtonView {
                    label: "Reset"@,
                    suggested: false,
                    on_press: if self.stopwatch_elapsed(instant) > 0 {
                        Some(Message::StopwatchReset)
                    } else {
                        None
                    },
                }
            },
            ButtonView {
                label: if self.stopwatch_running() {
                    "Pause"@
                } else {
                    "Start"@
                },
                suggested: true,
                on_press: Some(Message::StopwatchStartPause),
            },
        ]
    }
}

impl TimerPage {
    /// The page shows the timer of `window` at `instant`.
    pub open spec fn shows(self, window: WindowView, instant: int) -> bool {
        &&& self.header.shows("Timer"@, Message::ToggleTimer)
        &&& self.heading is Some <==> window.timer_finished()
        &&& self.heading matches Some(text) ==> text@ == "Time's up"@
        &&& self.readout@ == elapsed_short_text(window.timer_readout(instant) as nat)
        &&& self.class == window.timer_text_class(instant)
        &&& self.steppers is Some <==> window.timer_idle()
        &&& self.steppers matches Some(s) ==> stepper_row(s@) == window.timer_steppers()
        &&& button_row(self.controls@) == window.timer_controls(instant)
    }
}

/// A lap time with its number.
#[derive(Debug)]
pub struct LapRow {
    pub label: String,
    pub time: String,
}

/// The stopwatch page.
#[derive(Debug)]
pub struct StopwatchPage {
    pub header: PageHeader,
    pub readout: String,
    /// The buttons, from left to right.
    pub controls: Vec<Button>,
    pub laps: Vec<LapRow>,
}

impl StopwatchPage {
    /// The page shows the stopwatch of `window` at `instant`, and its laps by number.
    pub open spec fn shows(self, window: WindowView, instant: int) -> bool {
        &&& self.header.shows("Stopwatch"@, Message::ToggleStopwatch)
        &&& self.readout@ == elapsed_text(window.stopwatch_elapsed(instant) as nat)
        &&& button_row(self.controls@) == window.stopwatch_controls(instant)
        &&& self.laps@.len() == window.laps.len()
        &&& forall|i: int|
            0 <= i < window.laps.len() ==> {
                &&& (#[trigger] self.laps@[i]).label@ == "Lap "@ + decimal((i + 1) as nat)
                &&& self.laps@[i].time@ == elapsed_text(window.laps[i] as nat)
            }
    }
}

/// The page of the popup.
#[derive(Debug)]
pub enum PopupPage {
    Calendar(CalendarPage),
    Settings(SettingsPage),
    Stopwatch(StopwatchPage),
    Timer(TimerPage),
}

impl PopupPage {
    /// The page is that of `window`, at `instant` and with `readings` for its clocks.
    pub open spec fn shows(
        self,
        window: WindowView,
        readings: Seq<Option<Zoned>>,
        instant: int,
    ) -> bool {
        match window.page {
            Page::Calendar => self matches PopupPage::Calendar(page) && page.shows(
                window,
                readings,
            ),
            Page::Settings => self matches PopupPage::Settings(page) && page.shows(window),
            Page::Stopwatch => self matches PopupPage::Stopwatch(page) && page.shows(
                window,
                instant,
            ),
            Page::Timer => self matches PopupPage::Timer(page) && page.shows(window, instant),
        }
    }
}

/// The message for a window that is to be closed.
pub open spec fn close_message(id: u64) -> Option<Message> {
    Some(Message::CloseRequested(id))
}

impl Window {
    /// Up and down steppers for hours, minutes and seconds.
    pub fn timer_steppers(&self) -> (steppers: Vec<Stepper>)
        ensures
            stepper_row(steppers@) == self@.timer_steppers(),
    {
        let total: u128 = self.timer_duration / SECOND;
        let mut steppers: Vec<Stepper> = Vec::new();
        steppers.push(
            Stepper { label: "hr".to_string(), value: padded_string(total / 3600), step: 3600 },
        );
        steppers.push(
            Stepper { label: "min".to_string(), value: padded_string((total / 60) % 60), step: 60 },
        );
        steppers.push(
            Stepper { label: "sec".to_string(), value: padded_string(total % 60), step: 1 },
        );
        assert(stepper_row(steppers@) == steppers_of(total as nat));
        steppers
    }

    /// The timer page.
    pub fn timer_view(&self, instant: u128) -> (page: TimerPage)
        ensures
            page.shows(self@, instant as int),
    {
        let running = self.timer_running();
        let paused = self.timer_paused.is_some();
        let finished = self.timer_finished();
        let idle = !running && !paused && !finished;
        let remaining = self.timer_readout(instant);
        let heading = if finished {
            Some("Time's up".to_string())
        } else {
            None
        };
        let steppers = if idle {
            Some(self.timer_steppers())
        } else {
            None
        };
        let mut controls: Vec<Button> = Vec::new();
        if finished {
            controls.push(button("Dismiss", true, Some(Message::TimerReset)));
        } else {
            let reset = if running || paused {
                Some(Message::TimerReset)
            } else {
                None
            };
            let primary = if running || remaining > 0 {
                Some(Message::TimerStartPause)
            } else {
                None
            };
            controls.push(button("Reset", false, reset));
            controls.push(
                button(
                    if running {
                        "Pause"
                    } else {
                        "Start"
                    },
                    true,
                    primary,
                ),
            );
        }
        assert(button_row(controls@) == self@.timer_controls(instant as int));
        TimerPage {
            header: page_header("Timer", Message::ToggleTimer),
            heading,
            readout: format_elapsed_short(remaining),
            class: self.timer_text_class(instant),
            steppers,
            controls,
        }
    }

    /// The stopwatch page.
    pub fn stopwatch_view(&self, instant: u128) -> (page: StopwatchPage)
        requires
            self@.stopwatch_elapsed(instant as int) <= DURATION_MAX,
        ensures
            page.shows(self@, instant as int),
    {
        let running = self.running_since.is_some();
        let elapsed = self.stopwatch_elapsed(instant);
        let mut controls: Vec<Button> = Vec::new();
        if running {
            controls.push(button("Lap", false, Some(Message::StopwatchLap)));
        } else {
            let reset = if elapsed > 0 {
                Some(Message::StopwatchReset)
            } else {
                None
            };
            controls.push(button("Reset", false, reset));
        }
        controls.push(
            button(
                if running {
                    "Pause"
                } else {
                    "Start"
                },
                true,
                Some(Message::StopwatchStartPause),
            ),
        );
        assert(button_row(controls@) == self@.stopwatch_controls(instant as int));
        let mut laps: Vec<LapRow> = Vec::new();
        let mut i: usize = 0;
        while i < self.laps.len()
            invariant
                i <= self.laps.len(),
                laps.len() == i,
                forall|j: int|
                    0 <= j < i ==> (#[trigger] laps@[j]).label@ == "Lap "@ + decimal(
                        (j + 1) as nat,
                    ) && laps@[j].time@ == elapsed_text(self@.laps[j] as nat),
            decreases self.laps.len() - i,
        {
            let mut label = "Lap ".to_string();
            label.append(decimal_string(i as u128 + 1).as_str());
            laps.push(LapRow { label, time: format_elapsed(self.laps[i]) });
            i += 1;
        }
        StopwatchPage {
            header: page_header("Stopwatch", Message::ToggleStopwatch),
            readout: format_elapsed(elapsed),
            controls,
            laps,
        }
    }

    /// The page of the popup, `None` where a text of the calendar cannot be written.
    /// `readings` has the time of each clock whose time zone is known.
    pub fn view_window(&self, readings: &Vec<Option<Zoned>>, instant: u128) -> (page: Option<
        PopupPage,
    >)
        requires
            self@.wf(),
            readings.len() == self@.config.additional_clocks.len(),
            forall|i: int| 0 <= i < readings.len() && (#[trigger] readings@[i]) is Some
                ==> readings@[i]->0.valid(),
            self@.page == Page::Stopwatch ==> self@.stopwatch_elapsed(instant as int)
                <= DURATION_MAX,
        ensures
            page is Some <==> (self@.page == Page::Calendar ==> self@.has_calendar_page(
                readings@,
            )),
            page matches Some(p) ==> p.shows(self@, readings@, instant as int),
    {
        match self.page {
            Page::Calendar => match self.calendar_view(readings) {
                Some(page) => Some(PopupPage::Calendar(page)),
                None => None,
            },
            Page::Settings => Some(PopupPage::Settings(self.settings_view())),
            Page::Stopwatch => Some(PopupPage::Stopwatch(self.stopwatch_view(instant))),
            Page::Timer => Some(PopupPage::Timer(self.timer_view(instant))),
        }
    }

    /// The message for a window that is to be closed, of which the applet is told.
    pub fn on_close_requested(&self, id: u64) -> (message: Option<Message>)
        ensures
            message == close_message(id),
    {
        Some(Message::CloseRequested(id))
    }
}

} // verus!
