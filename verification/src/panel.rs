//! What the panel shows.

use vstd::prelude::*;
use crate::datetime::{
    format_month_day, format_month_day_time, format_time, format_weekday_time, month_day_text,
    month_day_time_text, opt_text, time_text, weekday_time_text, TimePrecision,
};
use crate::readout::{elapsed_short_text, format_elapsed_short, SECOND};
use crate::text::{
    all_fields, is_space, law_fields_of_words_are_plain, law_words_are_plain, split_fields,
    split_words, texts, words,
};
use crate::window::{time_since, Message, Window, WindowView, DURATION_MAX};

verus! {

broadcast use vstd::string::group_string_axioms;

/// The edge of the screen at which the panel lies.
#[derive(Clone, Copy, PartialEq, Eq, Structural, Debug)]
pub enum PanelAnchor {
    Left,
    Right,
    Top,
    Bottom,
}

/// The measures that the panel suggests to an applet, in pixels: across and along it.
#[derive(Clone, Copy, Debug)]
pub struct PanelMetrics {
    pub anchor: PanelAnchor,
    pub size: (u16, u16),
    pub padding: (u16, u16),
}

/// The color of a readout that stands out.
#[derive(Clone, Copy, PartialEq, Eq, Structural, Debug)]
pub enum TextColor {
    Red,
    Transparent,
}

/// How a readout looks.
#[derive(Clone, Copy, PartialEq, Eq, Structural, Debug)]
pub enum TextClass {
    Default,
    Color(TextColor),
}

/// A part of the clock of an upright panel.
#[derive(Debug)]
pub enum PanelPiece {
    Text(String),
    Rule,
}

/// What a `PanelPiece` holds.
pub enum PieceView {
    Text(Seq<char>),
    Rule,
}

impl View for PanelPiece {
    type V = PieceView;

    open spec fn view(&self) -> PieceView {
        match self {
            PanelPiece::Text(text) => PieceView::Text(text@),
            PanelPiece::Rule => PieceView::Rule,
        }
    }
}

/// What the pieces of a clock hold.
pub open spec fn pieces(list: Seq<PanelPiece>) -> Seq<PieceView> {
    list.map_values(|p: PanelPiece| p@)
}

/// What stands on the panel.
#[derive(Debug)]
pub enum PanelContent {
    /// The timer: its icon and what it reads, in a row where `horizontal`, and otherwise in a
    /// column.
    Timer { icon: String, text: String, class: TextClass, horizontal: bool },
    /// The stopwatch, laid out as the timer is.
    Stopwatch { icon: String, text: String, horizontal: bool },
    /// The clock of a level panel.
    Horizontal(String),
    /// The clock of an upright panel, from top to bottom.
    Vertical(Vec<PanelPiece>),
}

/// What a `PanelContent` holds.
pub enum ContentView {
    Timer { icon: Seq<char>, text: Seq<char>, class: TextClass, horizontal: bool },
    Stopwatch { icon: Seq<char>, text: Seq<char>, horizontal: bool },
    Horizontal(Seq<char>),
    Vertical(Seq<PieceView>),
}

impl View for PanelContent {
    type V = ContentView;

    open spec fn view(&self) -> ContentView {
        match self {
            PanelContent::Timer { icon, text, class, horizontal } => ContentView::Timer {
                icon: icon@,
                text: text@,
                class: *class,
                horizontal: *horizontal,
            },
            PanelContent::Stopwatch { icon, text, horizontal } => ContentView::Stopwatch {
                icon: icon@,
                text: text@,
                horizontal: *horizontal,
            },
            PanelContent::Horizontal(text) => ContentView::Horizontal(text@),
            PanelContent::Vertical(list) => ContentView::Vertical(pieces(list@)),
        }
    }
}

/// The button on the panel.
#[derive(Debug)]
pub struct Panel {
    pub content: PanelContent,
    pub horizontal: bool,
    /// Padding above and below, and at the sides.
    pub padding: (u16, u16),
    /// The space that the button takes across the panel.
    pub extent: u16,
    pub on_press: Message,
}

impl Panel {
    /// The button is that of `window` at `instant`, on a panel with these measures.
    pub open spec fn shows(self, window: WindowView, metrics: PanelMetrics, instant: int) -> bool {
        &&& Some(self.content@) == window.panel_content(metrics.anchor.is_horizontal(), instant)
        &&& self.horizontal == metrics.anchor.is_horizontal()
        &&& self.padding == metrics.applet_padding()
        &&& self.extent == metrics.extent()
        &&& self.on_press == Message::TogglePopup
    }
}

/// The pieces of a list of texts, one for each.
pub open spec fn text_pieces(list: Seq<Seq<char>>) -> Seq<PieceView> {
    list.map_values(|t: Seq<char>| PieceView::Text(t))
}

/// The clock of an upright panel: the words of the date and a rule, where a date is shown,
/// and the parts of the time.
pub open spec fn vertical_pieces(date: Option<Seq<char>>, time: Seq<char>) -> Seq<PieceView> {
    let time_pieces = text_pieces(all_fields(words(time), ':'));
    match date {
        Some(date) => text_pieces(words(date)).push(PieceView::Rule) + time_pieces,
        None => time_pieces,
    }
}

impl PanelAnchor {
    /// The panel lies level.
    pub open spec fn is_horizontal(self) -> bool {
        self == PanelAnchor::Top || self == PanelAnchor::Bottom
    }
}

impl PanelMetrics {
    /// The space that an applet takes across the panel.
    pub open spec fn extent(self) -> int {
        (if self.anchor.is_horizontal() {
            self.size.1
        } else {
            self.size.0
        }) + 2 * self.padding.1
    }

    /// The padding above and below an applet, and at its sides.
    pub open spec fn applet_padding(self) -> (u16, u16) {
        if self.anchor.is_horizontal() {
            (0, self.padding.0)
        } else {
            (self.padding.0, 0)
        }
    }
}

impl WindowView {
    /// The color of the timer's readout: red while the last 10 seconds count down. When
    /// finished, it alternates between red and transparent every half second.
    pub open spec fn timer_text_color(self, instant: int) -> Option<TextColor> {
        match self.timer_finished_at {
            Some(finished_at) => if (time_since(finished_at as int, instant) / 500_000_000) % 2
                == 0 {
                Some(TextColor::Red)
            } else {
                Some(TextColor::Transparent)
            },
            None => if self.timer_running() && self.timer_remaining(instant) <= 10 * SECOND {
                Some(TextColor::Red)
            } else {
                None
            },
        }
    }

    /// The look of the timer's readout.
    pub open spec fn timer_text_class(self, instant: int) -> TextClass {
        match self.timer_text_color(instant) {
            Some(color) => TextClass::Color(color),
            None => TextClass::Default,
        }
    }

    /// What the timer reads: zero when it is finished, and otherwise what is left.
    pub open spec fn timer_readout(self, instant: int) -> int {
        if self.timer_finished() {
            0
        } else {
            self.timer_remaining(instant)
        }
    }

    /// How much of the time the panel shows.
    pub open spec fn precision(self) -> TimePrecision {
        if self.config.show_seconds {
            TimePrecision::Full
        } else {
            TimePrecision::Minute
        }
    }

    /// The second, where the panel shows it.
    pub open spec fn shown_second(self) -> Option<int> {
        if self.config.show_seconds {
            Some(self.now.second as int)
        } else {
            None
        }
    }

    /// The time on the panel.
    pub open spec fn panel_time(self) -> Option<Seq<char>> {
        time_text(
            self.locale,
            self.hour_cycle(),
            self.now.hour as int,
            self.now.minute as int,
            self.shown_second(),
        )
    }

    /// The date on an upright panel.
    pub open spec fn panel_date(self) -> Option<Seq<char>> {
        month_day_text(
            self.locale,
            self.hour_cycle(),
            self.now.date.year as int,
            self.now.date.month as int,
            self.now.date.day as int,
        )
    }

    /// The clock of a level panel: the time, after the date and the weekday where they are
    /// shown.
    pub open spec fn horizontal_layout(self) -> Option<Seq<char>> {
        if !self.config.show_date_in_top_panel {
            self.panel_time()
        } else if self.config.show_weekday {
            weekday_time_text(
                self.locale,
                self.hour_cycle(),
                self.now.date.year as int,
                self.now.date.month as int,
                self.now.date.day as int,
                self.now.hour as int,
                self.now.minute as int,
                self.shown_second(),
            )
        } else {
            month_day_time_text(
                self.locale,
                self.hour_cycle(),
                self.now.date.year as int,
                self.now.date.month as int,
                self.now.date.day as int,
                self.now.hour as int,
                self.now.minute as int,
                self.shown_second(),
            )
        }
    }

    /// The clock of an upright panel.
    pub open spec fn vertical_layout(self) -> Option<Seq<PieceView>> {
        match self.panel_time() {
            Some(time) => if self.config.show_date_in_top_panel {
                match self.panel_date() {
                    Some(date) => Some(vertical_pieces(Some(date), time)),
                    None => None,
                }
            } else {
                Some(vertical_pieces(None, time))
            },
            None => None,
        }
    }

    /// The timer on the panel.
    pub open spec fn timer_panel(self, horizontal: bool, instant: int) -> ContentView {
        ContentView::Timer {
            icon: "alarm-symbolic"@,
            text: elapsed_short_text(self.timer_readout(instant) as nat),
            class: self.timer_text_class(instant),
            horizontal,
        }
    }

    /// The stopwatch on the panel.
    pub open spec fn stopwatch_panel(self, horizontal: bool, instant: int) -> ContentView {
        ContentView::Stopwatch {
            icon: "accessories-clock-symbolic"@,
            text: elapsed_short_text(self.stopwatch_elapsed(instant) as nat),
            horizontal,
        }
    }

    /// What stands on the panel: the timer where it counts or is done, or else the stopwatch
    /// where it runs, or else the clock.
    pub open spec fn panel_content(self, horizontal: bool, instant: int) -> Option<ContentView> {
        if self.timer_active() {
            Some(self.timer_panel(horizontal, instant))
        } else if self.stopwatch_running() {
            Some(self.stopwatch_panel(horizontal, instant))
        } else if horizontal {
            match self.horizontal_layout() {
                Some(text) => Some(ContentView::Horizontal(text)),
                None => None,
            }
        } else {
            match self.vertical_layout() {
                Some(list) => Some(ContentView::Vertical(list)),
                None => None,
            }
        }
    }
}

fn push_texts(list: &mut Vec<PanelPiece>, parts: Vec<String>)
    ensures
        pieces(final(list)@) == pieces(old(list)@) + text_pieces(texts(parts@)),
{
    let mut i: usize = 0;
    let ghost start = pieces(list@);
    assert(start + text_pieces(texts(parts@).take(0)) == start);
    while i < parts.len()
        invariant
            i <= parts.len(),
            pieces(list@) == start + text_pieces(texts(parts@).take(i as int)),
        decreases parts.len() - i,
    {
        let ghost before = list@;
        list.push(PanelPiece::Text(parts[i].clone()));
        assert(pieces(list@) == pieces(before).push(PieceView::Text(parts[i as int]@)));
        assert(text_pieces(texts(parts@).take(i + 1)) == text_pieces(
            texts(parts@).take(i as int),
        ).push(PieceView::Text(parts[i as int]@)));
        i += 1;
    }
    assert(texts(parts@).take(i as int) == texts(parts@));
}

/// The clock of an upright panel: the words of the date and a rule, where a date is shown,
/// and the parts of the time.
pub fn vertical_clock(date: Option<String>, time: &str) -> (list: Vec<PanelPiece>)
    ensures
        pieces(list@) == vertical_pieces(opt_text(date), time@),
{
    let mut list: Vec<PanelPiece> = Vec::new();
    if let Some(date) = date {
        push_texts(&mut list, split_words(date.as_str()));
        let ghost before = list@;
        list.push(PanelPiece::Rule);
        assert(pieces(list@) == pieces(before).push(PieceView::Rule));
        assert(pieces(before) == text_pieces(words(date@)));
    }
    let ghost start = pieces(list@);
    let parts = split_words(time);
    let ghost all = texts(parts@);
    let mut i: usize = 0;
    assert(all.take(0) == Seq::<Seq<char>>::empty());
    assert(start + text_pieces(all_fields(all.take(0), ':')) == start);
    while i < parts.len()
        invariant
            i <= parts.len(),
            all == texts(parts@),
            pieces(list@) == start + text_pieces(all_fields(all.take(i as int), ':')),
        decreases parts.len() - i,
    {
        let ghost before = list@;
        let more = split_fields(parts[i].as_str(), ':');
        let ghost added = texts(more@);
        push_texts(&mut list, more);
        proof {
            let seen = all.take(i + 1);
            assert(seen.drop_last() == all.take(i as int));
            assert(text_pieces(all_fields(seen, ':')) == text_pieces(
                all_fields(all.take(i as int), ':'),
            ) + text_pieces(added));
            assert(pieces(list@) == start + text_pieces(all_fields(seen, ':')));
        }
        i += 1;
    }
    assert(all.take(i as int) == all);
    assert(opt_text(date) is None ==> start + text_pieces(all_fields(all, ':')) == text_pieces(
        all_fields(all, ':'),
    ));
    list
}

impl Window {
    /// Red while the last 10 seconds count down. When finished, alternates between red and
    /// transparent every 500ms to flash the zeroed readout.
    pub fn timer_text_color(&self, instant: u128) -> (color: Option<TextColor>)
        ensures
            color == self@.timer_text_color(instant as int),
    {
        if let Some(finished_at) = self.timer_finished_at {
            let elapsed: u128 = if finished_at <= instant {
                instant - finished_at
            } else {
                0
            };
            let on = (elapsed / 500_000_000) % 2 == 0;
            Some(
                if on {
                    TextColor::Red
                } else {
                    TextColor::Transparent
                },
            )
        } else if self.timer_running() && self.timer_remaining(instant) <= 10 * SECOND {
            Some(TextColor::Red)
        } else {
            None
        }
    }

    /// Text style for the timer readout, red or flashing per `timer_text_color`.
    pub fn timer_text_class(&self, instant: u128) -> (class: TextClass)
        ensures
            class == self@.timer_text_class(instant as int),
    {
        match self.timer_text_color(instant) {
            Some(color) => TextClass::Color(color),
            None => TextClass::Default,
        }
    }

    /// What the timer reads. A finished timer reads zero and flashes; otherwise it shows
    /// what's left.
    pub fn timer_readout(&self, instant: u128) -> (readout: u128)
        ensures
            readout == self@.timer_readout(instant as int),
    {
        if self.timer_finished() {
            0
        } else {
            self.timer_remaining(instant)
        }
    }

    /// Compact countdown or alarm indicator shown on the panel.
    pub fn timer_panel(&self, horizontal: bool, instant: u128) -> (content: PanelContent)
        ensures
            content@ == self@.timer_panel(horizontal, instant as int),
    {
        PanelContent::Timer {
            icon: "alarm-symbolic".to_string(),
            text: format_elapsed_short(self.timer_readout(instant)),
            class: self.timer_text_class(instant),
            horizontal,
        }
    }

    /// Compact running indicator shown on the panel in place of the clock.
    pub fn stopwatch_panel(&self, horizontal: bool, instant: u128) -> (content: PanelContent)
        requires
            self@.stopwatch_elapsed(instant as int) <= DURATION_MAX,
        ensures
            content@ == self@.stopwatch_panel(horizontal, instant as int),
    {
        PanelContent::Stopwatch {
            icon: "accessories-clock-symbolic".to_string(),
            text: format_elapsed_short(self.stopwatch_elapsed(instant)),
            horizontal,
        }
    }

    fn precision(&self) -> (precision: TimePrecision)
        ensures
            precision == self@.precision(),
    {
        if self.config.show_seconds {
            TimePrecision::Full
        } else {
            TimePrecision::Minute
        }
    }

    /// The clock of an upright panel, `None` where a text cannot be written.
    pub fn vertical_layout(&self) -> (content: Option<PanelContent>)
        requires
            self@.wf(),
        ensures
            content is Some <==> self@.vertical_layout() is Some,
            content matches Some(c) ==> c@ == ContentView::Vertical(self@.vertical_layout()->0),
    {
        let datetime = self.create_datetime(&self.now.date);
        let cycle = self.hour_cycle();
        let date = if self.config.show_date_in_top_panel {
            match format_month_day(self.locale.as_str(), cycle, datetime) {
                Some(date) => Some(date),
                None => {
                    return None;
                },
            }
        } else {
            None
        };
        match format_time(self.locale.as_str(), cycle, self.precision(), datetime) {
            Some(time) => Some(PanelContent::Vertical(vertical_clock(date, time.as_str()))),
            None => None,
        }
    }

    /// The clock of a level panel, `None` where a text cannot be written.
    pub fn horizontal_layout(&self) -> (content: Option<PanelContent>)
        requires
            self@.wf(),
        ensures
            content is Some <==> self@.horizontal_layout() is Some,
            content matches Some(c) ==> c@ == ContentView::Horizontal(
                self@.horizontal_layout()->0,
            ),
    {
        let datetime = self.create_datetime(&self.now.date);
        let cycle = self.hour_cycle();
        let precision = self.precision();
        let text = if self.config.show_date_in_top_panel {
            if self.config.show_weekday {
                format_weekday_time(
                    self.locale.as_str(),
                    cycle,
                        precision,
                    datetime,
                )
            } else {
                format_month_day_time(self.locale.as_str(), cycle, precision, datetime)
            }
        } else {
            format_time(self.locale.as_str(), cycle, precision, datetime)
        };
        match text {
            Some(text) => Some(PanelContent::Horizontal(text)),
            None => None,
        }
    }

    /// The button on the panel, `None` where a text of its clock cannot be written. A press
    /// opens or closes the popup, whatever the button shows.
    pub fn panel_view(&self, metrics: PanelMetrics, instant: u128) -> (panel: Option<Panel>)
        requires
            self@.wf(),
            self@.timer_active() || self@.stopwatch_elapsed(instant as int) <= DURATION_MAX,
            metrics.extent() <= u16::MAX,
        ensures
            panel is Some <==> self@.panel_content(
                metrics.anchor.is_horizontal(),
                instant as int,
            ) is Some,
            panel matches Some(p) ==> p.shows(self@, metrics, instant as int),
    {
        let horizontal = match metrics.anchor {
            PanelAnchor::Top | PanelAnchor::Bottom => true,
            _ => false,
        };
        let content = if self.timer_active() {
            self.timer_panel(horizontal, instant)
        } else if self.running_since.is_some() {
            self.stopwatch_panel(horizontal, instant)
        } else {
            let clock = if horizontal {
                self.horizontal_layout()
            } else {
                self.vertical_layout()
            };
            match clock {
                Some(content) => content,
                None => {
                    return None;
                },
            }
        };
        let padding = if horizontal {
            (0, metrics.padding.0)
        } else {
            (metrics.padding.0, 0)
        };
        let across: u16 = if horizontal {
            metrics.size.1
        } else {
            metrics.size.0
        };
        Some(
            Panel {
                content,
                horizontal,
                padding,
                extent: across + 2 * metrics.padding.1,
                on_press: Message::TogglePopup,
            },
        )
    }
}

/// What an upright clock shows does not change with the weekday setting, nor with the second
/// where seconds are not shown, nor with the date where that is not shown.
pub proof fn law_upright_clock(a: WindowView, b: WindowView)
    requires
        a.locale == b.locale,
        a.config.military_time == b.config.military_time,
        a.config.show_seconds == b.config.show_seconds,
        a.config.show_date_in_top_panel == b.config.show_date_in_top_panel,
        a.config.show_date_in_top_panel ==> a.now.date == b.now.date,
        a.now.hour == b.now.hour,
        a.now.minute == b.now.minute,
        a.config.show_seconds ==> a.now.second == b.now.second,
    ensures
        a.vertical_layout() == b.vertical_layout(),
{
}

/// What a level clock shows does not change with the second where seconds are not shown, nor
/// with the date and the weekday setting where the date is not shown.
pub proof fn law_level_clock(a: WindowView, b: WindowView)
    requires
        a.locale == b.locale,
        a.config.military_time == b.config.military_time,
        a.config.show_seconds == b.config.show_seconds,
        a.config.show_date_in_top_panel == b.config.show_date_in_top_panel,
        a.config.show_date_in_top_panel ==> a.now.date == b.now.date && a.config.show_weekday
            == b.config.show_weekday,
        a.now.hour == b.now.hour,
        a.now.minute == b.now.minute,
        a.config.show_seconds ==> a.now.second == b.now.second,
    ensures
        a.horizontal_layout() == b.horizontal_layout(),
{
}

/// The text of a piece holds no character of the kind.
pub open spec fn piece_free_of(piece: PieceView, kind: spec_fn(char) -> bool) -> bool {
    piece matches PieceView::Text(text) ==> forall|i: int|
        0 <= i < text.len() ==> !kind(#[trigger] text[i])
}

/// The pieces of an upright clock hold no white space, and those of the time no colon. Those of
/// the date and the rule below them are there exactly where the date is shown.
pub proof fn law_upright_pieces(date: Option<Seq<char>>, time: Seq<char>)
    ensures
        ({
            let list = vertical_pieces(date, time);
            let time_from = match date {
                Some(date) => words(date).len() + 1,
                None => 0nat,
            };
            &&& time_from <= list.len()
            &&& forall|i: int|
                0 <= i < list.len() ==> piece_free_of(#[trigger] list[i], |c: char| is_space(c))
            &&& forall|i: int|
                time_from <= i < list.len() ==> piece_free_of(
                    #[trigger] list[i],
                    |c: char| c == ':',
                )
            &&& forall|i: int|
                0 <= i < list.len() ==> (#[trigger] list[i] is Rule <==> i == time_from - 1)
        }),
{
    let list = vertical_pieces(date, time);
    let parts = all_fields(words(time), ':');
    law_fields_of_words_are_plain(time, ':');
    match date {
        Some(date) => {
            law_words_are_plain(date);
            let n = words(date).len() as int;
            assert forall|i: int| 0 <= i < list.len() implies piece_free_of(
                #[trigger] list[i],
                |c: char| is_space(c),
            ) by {
                if i < n {
                    assert(list[i] == PieceView::Text(words(date)[i]));
                } else if i > n {
                    assert(list[i] == PieceView::Text(parts[i - n - 1]));
                }
            }
            assert forall|i: int| n + 1 <= i < list.len() implies piece_free_of(
                #[trigger] list[i],
                |c: char| c == ':',
            ) by {
                assert(list[i] == PieceView::Text(parts[i - n - 1]));
            }
        },
        None => {
            assert forall|i: int| 0 <= i < list.len() implies piece_free_of(
                #[trigger] list[i],
                |c: char| is_space(c),
            ) && piece_free_of(list[i], |c: char| c == ':') by {
                assert(list[i] == PieceView::Text(parts[i]));
            }
        },
    }
}

/// An upright clock has a rule exactly where the settings show the date.
pub proof fn law_rule_below_date(window: WindowView)
    requires
        window.vertical_layout() is Some,
    ensures
        window.vertical_layout()->0.contains(PieceView::Rule)
            <==> window.config.show_date_in_top_panel,
{
    let date = if window.config.show_date_in_top_panel {
        window.panel_date()
    } else {
        None
    };
    let list = window.vertical_layout()->0;
    law_upright_pieces(date, window.panel_time()->0);
    if window.config.show_date_in_top_panel {
        assert(list[words(date->0).len() as int] is Rule);
        assert(list[words(date->0).len() as int] == PieceView::Rule);
    }
}

} // verus!
