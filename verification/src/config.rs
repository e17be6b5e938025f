//! The settings of the applet.

use vstd::prelude::*;
use crate::text::texts;

verus! {

/// The settings that the user can change.
#[derive(Clone, Debug)]
pub struct TimeAppletConfig {
    pub military_time: bool,
    pub show_seconds: bool,
    pub first_day_of_week: u8,
    pub show_date_in_top_panel: bool,
    pub show_weekday: bool,
    /// Names of the time zones that have a clock of their own.
    pub additional_clocks: Vec<String>,
    pub show_persian_calendar: bool,
}

/// What a `TimeAppletConfig` holds.
#[verifier::ext_equal]
pub struct ConfigView {
    pub military_time: bool,
    pub show_seconds: bool,
    pub first_day_of_week: u8,
    pub show_date_in_top_panel: bool,
    pub show_weekday: bool,
    pub additional_clocks: Seq<Seq<char>>,
    pub show_persian_calendar: bool,
}

/// A setting that is either on or off.
#[derive(Clone, Copy, PartialEq, Eq, Structural, Debug)]
pub enum Setting {
    MilitaryTime,
    ShowSeconds,
    ShowDate,
    ShowWeekday,
    PersianCalendar,
}

impl ConfigView {
    /// Whether `setting` is on.
    pub open spec fn get(self, setting: Setting) -> bool {
        match setting {
            Setting::MilitaryTime => self.military_time,
            Setting::ShowSeconds => self.show_seconds,
            Setting::ShowDate => self.show_date_in_top_panel,
            Setting::ShowWeekday => self.show_weekday,
            Setting::PersianCalendar => self.show_persian_calendar,
        }
    }

    /// The settings with `setting` turned on or off.
    pub open spec fn with(self, setting: Setting, value: bool) -> ConfigView {
        match setting {
            Setting::MilitaryTime => ConfigView { military_time: value, ..self },
            Setting::ShowSeconds => ConfigView { show_seconds: value, ..self },
            Setting::ShowDate => ConfigView { show_date_in_top_panel: value, ..self },
            Setting::ShowWeekday => ConfigView { show_weekday: value, ..self },
            Setting::PersianCalendar => ConfigView { show_persian_calendar: value, ..self },
        }
    }

    /// The settings with a clock for `name`, which has no second one.
    pub open spec fn clock_added(self, name: Seq<char>) -> ConfigView {
        if self.additional_clocks.contains(name) {
            self
        } else {
            ConfigView { additional_clocks: self.additional_clocks.push(name), ..self }
        }
    }

    /// The settings without the clock at `index`, where there is one.
    pub open spec fn clock_removed(self, index: int) -> ConfigView {
        if 0 <= index < self.additional_clocks.len() {
            ConfigView { additional_clocks: self.additional_clocks.remove(index), ..self }
        } else {
            self
        }
    }
}

impl View for TimeAppletConfig {
    type V = ConfigView;

    open spec fn view(&self) -> ConfigView {
        ConfigView {
            military_time: self.military_time,
            show_seconds: self.show_seconds,
            first_day_of_week: self.first_day_of_week,
            show_date_in_top_panel: self.show_date_in_top_panel,
            show_weekday: self.show_weekday,
            additional_clocks: texts(self.additional_clocks@),
            show_persian_calendar: self.show_persian_calendar,
        }
    }
}

impl TimeAppletConfig {
    /// Turns `setting` on or off.
    pub fn set(&mut self, setting: Setting, value: bool)
        ensures
            final(self)@ == old(self)@.with(setting, value),
    {
        match setting {
            Setting::MilitaryTime => {
                self.military_time = value;
            },
            Setting::ShowSeconds => {
                self.show_seconds = value;
            },
            Setting::ShowDate => {
                self.show_date_in_top_panel = value;
            },
            Setting::ShowWeekday => {
                self.show_weekday = value;
            },
            Setting::PersianCalendar => {
                self.show_persian_calendar = value;
            },
        }
    }
}

} // verus!
