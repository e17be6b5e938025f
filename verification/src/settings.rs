//! The settings page.

use vstd::prelude::*;
use crate::calendar::place_name;
use crate::cities::CityEntry;
use crate::config::Setting;
use crate::controls::{page_header, PageHeader};
use crate::text::{clock_display_name, texts};
use crate::window::{Message, SettingsTab, Window, WindowView};

verus! {

broadcast use vstd::string::group_string_axioms;

impl Setting {
    /// The message that turns the setting on or off.
    pub open spec fn message_for(self, value: bool) -> Message {
        match self {
            Setting::MilitaryTime => Message::SetMilitaryTime(value),
            Setting::ShowSeconds => Message::SetShowSeconds(value),
            Setting::ShowDate => Message::SetShowDate(value),
            Setting::ShowWeekday => Message::SetShowWeekday(value),
            Setting::PersianCalendar => Message::SetShowPersianCalendar(value),
        }
    }

    /// The message that turns the setting on or off.
    pub fn message(self, value: bool) -> (message: Message)
        ensures
            message == self.message_for(value),
    {
        match self {
            Setting::MilitaryTime => Message::SetMilitaryTime(value),
            Setting::ShowSeconds => Message::SetShowSeconds(value),
            Setting::ShowDate => Message::SetShowDate(value),
            Setting::ShowWeekday => Message::SetShowWeekday(value),
            Setting::PersianCalendar => Message::SetShowPersianCalendar(value),
        }
    }

    /// What the setting is called.
    pub open spec fn label(self) -> Seq<char> {
        match self {
            Setting::MilitaryTime => "24-hour time"@,
            Setting::ShowSeconds => "Show seconds"@,
            Setting::ShowDate => "Show date in panel"@,
            Setting::ShowWeekday => "Show weekday"@,
            Setting::PersianCalendar => "Persian (Shamsi)"@,
        }
    }
}

/// A switch for a setting.
#[derive(Debug)]
pub struct ToggleRow {
    pub label: String,
    pub setting: Setting,
    pub value: bool,
}

/// What a `ToggleRow` holds.
pub struct ToggleView {
    pub label: Seq<char>,
    pub setting: Setting,
    pub value: bool,
}

impl View for ToggleRow {
    type V = ToggleView;

    open spec fn view(&self) -> ToggleView {
        ToggleView { label: self.label@, setting: self.setting, value: self.value }
    }
}

/// What the switches of a section hold.
pub open spec fn toggle_rows(rows: Seq<ToggleRow>) -> Seq<ToggleView> {
    rows.map_values(|r: ToggleRow| r@)
}

impl WindowView {
    /// The switch for a setting shows its value.
    pub open spec fn toggle_row(self, setting: Setting) -> ToggleView {
        ToggleView { label: setting.label(), setting, value: self.config.get(setting) }
    }
}

/// The general settings: what the panel shows, how time is written, and the day with which
/// weeks start.
#[derive(Debug)]
pub struct GeneralSettings {
    pub panel: Vec<ToggleRow>,
    pub time: Vec<ToggleRow>,
    /// The names of the days that weeks can start with.
    pub first_day_options: Vec<String>,
    /// Which of them is chosen.
    pub first_day: usize,
}

/// The names of the days that weeks can start with.
pub open spec fn first_day_options() -> Seq<Seq<char>> {
    seq![
        "Monday"@,
        "Tuesday"@,
        "Wednesday"@,
        "Thursday"@,
        "Friday"@,
        "Saturday"@,
        "Sunday"@,
    ]
}

/// A clock that can be removed.
#[derive(Debug)]
pub struct ClockSetting {
    pub place: String,
    pub timezone: String,
    pub on_remove: Message,
}

/// The settings of the clocks.
#[derive(Debug)]
pub struct ClocksSettings {
    /// A note where there is no clock.
    pub note: Option<String>,
    pub clocks: Vec<ClockSetting>,
}

/// The settings of the calendars.
#[derive(Debug)]
pub struct CalendarSettings {
    pub persian: ToggleRow,
    /// Other names of the calendar.
    pub note: String,
}

/// The settings of a tab.
#[derive(Debug)]
pub enum SettingsContent {
    General(GeneralSettings),
    Clocks(ClocksSettings),
    Calendar(CalendarSettings),
}

/// The settings page.
#[derive(Debug)]
pub struct SettingsPage {
    pub header: PageHeader,
    pub content: SettingsContent,
}

impl GeneralSettings {
    /// The page shows the settings of `window`.
    pub open spec fn shows(self, window: WindowView) -> bool {
        &&& toggle_rows(self.panel@) == seq![
            window.toggle_row(Setting::ShowDate),
            window.toggle_row(Setting::ShowWeekday),
        ]
        &&& toggle_rows(self.time@) == seq![
            window.toggle_row(Setting::MilitaryTime),
            window.toggle_row(Setting::ShowSeconds),
        ]
        &&& texts(self.first_day_options@) == first_day_options()
        &&& self.first_day == window.config.first_day_of_week
    }
}

impl ClocksSettings {
    /// The page lists the clocks of `window`, in order, each with a button that removes it.
    pub open spec fn shows(self, window: WindowView) -> bool {
        let names = window.config.additional_clocks;
        &&& self.note is Some <==> names.len() == 0
        &&& self.note matches Some(text) ==> text@ == "No clocks added yet"@
        &&& self.clocks@.len() == names.len()
        &&& forall|i: int|
            0 <= i < names.len() ==> {
                &&& (#[trigger] self.clocks@[i]).place@ == place_name(names[i])
                &&& self.clocks@[i].timezone@ == names[i]
                &&& self.clocks@[i].on_remove == Message::RemoveClock(i as usize)
            }
    }
}

impl CalendarSettings {
    /// The page shows the settings of `window`.
    pub open spec fn shows(self, window: WindowView) -> bool {
        &&& self.persian@ == window.toggle_row(Setting::PersianCalendar)
        &&& self.note@ == "Solar Hijri / Jalali calendar"@
    }
}

impl SettingsPage {
    /// The page shows the settings of the active tab of `window`.
    pub open spec fn shows(self, window: WindowView) -> bool {
        &&& self.header.shows("Settings"@, Message::ToggleSettings)
        &&& match window.active_tab {
            SettingsTab::General => self.content matches SettingsContent::General(page)
                && page.shows(window),
            SettingsTab::Clocks => self.content matches SettingsContent::Clocks(page)
                && page.shows(window),
            SettingsTab::Calendar => self.content matches SettingsContent::Calendar(page)
                && page.shows(window),
        }
    }
}

/// The message for the choice of a day that weeks start with.
pub open spec fn first_day_message(index: usize) -> Message {
    Message::SetFirstDayOfWeek(index)
}

/// The message for the choice of a city.
pub open spec fn city_message(entry: CityEntry) -> Message {
    Message::SelectCity(entry)
}

impl GeneralSettings {
    /// Choosing one of the days makes it the one that weeks start with.
    pub fn on_first_day(&self, index: usize) -> (message: Message)
        ensures
            message == first_day_message(index),
    {
        Message::SetFirstDayOfWeek(index)
    }
}

impl ClocksSettings {
    /// Choosing a city that was searched for adds its clock.
    pub fn on_select(&self, entry: CityEntry) -> (message: Message)
        ensures
            message == city_message(entry),
    {
        Message::SelectCity(entry)
    }
}

impl ToggleRow {
    /// Turning the switch sets the setting that it shows.
    pub fn on_toggle(&self, value: bool) -> (message: Message)
        ensures
            message == self.setting.message_for(value),
    {
        self.setting.message(value)
    }
}

/// The names of the days that weeks can start with.
fn day_names() -> (names: Vec<String>)
    ensures
        texts(names@) == first_day_options(),
{
    let mut names: Vec<String> = Vec::new();
    names.push("Monday".to_string());
    names.push("Tuesday".to_string());
    names.push("Wednesday".to_string());
    names.push("Thursday".to_string());
    names.push("Friday".to_string());
    names.push("Saturday".to_string());
    names.push("Sunday".to_string());
    assert(texts(names@) == first_day_options());
    names
}

impl Window {
    fn toggle_row(&self, setting: Setting) -> (row: ToggleRow)
        ensures
            row@ == self@.toggle_row(setting),
    {
        match setting {
            Setting::MilitaryTime => ToggleRow {
                label: "24-hour time".to_string(),
                setting,
                value: self.config.military_time,
            },
            Setting::ShowSeconds => ToggleRow {
                label: "Show seconds".to_string(),
                setting,
                value: self.config.show_seconds,
            },
            Setting::ShowDate => ToggleRow {
                label: "Show date in panel".to_string(),
                setting,
                value: self.config.show_date_in_top_panel,
            },
            Setting::ShowWeekday => ToggleRow {
                label: "Show weekday".to_string(),
                setting,
                value: self.config.show_weekday,
            },
            Setting::PersianCalendar => ToggleRow {
                label: "Persian (Shamsi)".to_string(),
                setting,
                value: self.config.show_persian_calendar,
            },
        }
    }

    /// The general settings.
    pub fn general_settings(&self) -> (settings: GeneralSettings)
        ensures
            settings.shows(self@),
    {
        let mut panel: Vec<ToggleRow> = Vec::new();
        panel.push(self.toggle_row(Setting::ShowDate));
        panel.push(self.toggle_row(Setting::ShowWeekday));
        let mut time: Vec<ToggleRow> = Vec::new();
        time.push(self.toggle_row(Setting::MilitaryTime));
        time.push(self.toggle_row(Setting::ShowSeconds));
        let settings = GeneralSettings {
            panel,
            time,
            first_day_options: day_names(),
            first_day: self.config.first_day_of_week as usize,
        };
        assert(toggle_rows(settings.panel@) == seq![
            self@.toggle_row(Setting::ShowDate),
            self@.toggle_row(Setting::ShowWeekday),
        ]);
        assert(toggle_rows(settings.time@) == seq![
            self@.toggle_row(Setting::MilitaryTime),
            self@.toggle_row(Setting::ShowSeconds),
        ]);
        settings
    }

    /// The clocks that were added.
    pub fn clocks_settings(&self) -> (settings: ClocksSettings)
        ensures
            settings.shows(self@),
    {
        let names = &self.config.additional_clocks;
        let note = if names.len() == 0 {
            Some("No clocks added yet".to_string())
        } else {
            None
        };
        let mut clocks: Vec<ClockSetting> = Vec::new();
        let mut i: usize = 0;
        while i < names.len()
            invariant
                i <= names.len(),
                clocks.len() == i,
                forall|j: int|
                    0 <= j < i ==> {
                        &&& (#[trigger] clocks@[j]).place@ == place_name(names@[j]@)
                        &&& clocks@[j].timezone@ == names@[j]@
                        &&& clocks@[j].on_remove == Message::RemoveClock(j as usize)
                    },
            decreases names.len() - i,
        {
            clocks.push(
                ClockSetting {
                    place: clock_display_name(names[i].as_str()),
                    timezone: names[i].clone(),
                    on_remove: Message::RemoveClock(i),
                },
            );
            i += 1;
        }
        ClocksSettings { note, clocks }
    }

    /// The calendars that can be added.
    pub fn calendar_settings(&self) -> (settings: CalendarSettings)
        ensures
            settings.shows(self@),
    {
        CalendarSettings {
            persian: self.toggle_row(Setting::PersianCalendar),
            note: "Solar Hijri / Jalali calendar".to_string(),
        }
    }

    /// The settings of the tab on show.
    pub fn settings_view(&self) -> (page: SettingsPage)
        ensures
            page.shows(self@),
    {
        let content = match self.active_tab {
            SettingsTab::General => SettingsContent::General(self.general_settings()),
            SettingsTab::Clocks => SettingsContent::Clocks(self.clocks_settings()),
            SettingsTab::Calendar => SettingsContent::Calendar(self.calendar_settings()),
        };
        SettingsPage { header: page_header("Settings", Message::ToggleSettings), content }
    }
}

} // verus!
