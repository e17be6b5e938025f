use day_applet::config::TimeAppletConfig;
use day_applet::date::{Date, Zoned};
use day_applet::panel::{
    vertical_clock, Panel, PanelAnchor, PanelContent, PanelMetrics, PanelPiece, TextClass,
    TextColor,
};
use day_applet::readout::SECOND;
use day_applet::window::{Message, Reading, Window};

fn window(locale: &str) -> Window {
    let config = TimeAppletConfig {
        military_time: false,
        show_seconds: false,
        first_day_of_week: 6,
        show_date_in_top_panel: true,
        show_weekday: false,
        additional_clocks: Vec::new(),
        show_persian_calendar: false,
    };
    Window::init(locale.to_string(), now(), config)
}

fn now() -> Zoned {
    let date = Date { year: 2024, month: 2, day: 29 };
    Zoned { date, hour: 13, minute: 5, second: 9 }
}

fn send(window: &mut Window, message: Message, seconds: u128) {
    let reading = Reading { instant: seconds * SECOND, now: now(), zoned: None, new_id: 1 };
    window.update(message, reading);
}

fn tick(window: &mut Window, now: Zoned) {
    window.update(Message::Tick, Reading { instant: 0, now, zoned: None, new_id: 1 });
}

fn metrics(anchor: PanelAnchor) -> PanelMetrics {
    PanelMetrics { anchor, size: (16, 20), padding: (8, 4) }
}

fn level(window: &Window) -> String {
    match window.horizontal_layout() {
        Some(PanelContent::Horizontal(text)) => text,
        other => panic!("{other:?}"),
    }
}

fn upright(window: &Window) -> Vec<String> {
    match window.vertical_layout() {
        Some(PanelContent::Vertical(list)) => shown(&list),
        other => panic!("{other:?}"),
    }
}

fn shown(list: &[PanelPiece]) -> Vec<String> {
    list.iter()
        .map(|piece| match piece {
            PanelPiece::Text(text) => text.clone(),
            PanelPiece::Rule => "---".to_string(),
        })
        .collect()
}

fn panel(window: &Window, anchor: PanelAnchor) -> Panel {
    window.panel_view(metrics(anchor), 0).expect("panel")
}

#[test]
fn level_clock_follows_the_settings() {
    let mut w = window("en-US");
    assert_eq!(level(&w), "Feb 29, 1:05\u{202F}PM");
    send(&mut w, Message::SetShowWeekday(true), 0);
    assert_eq!(level(&w), "Thu, Feb 29, 1:05\u{202F}PM");
    send(&mut w, Message::SetShowSeconds(true), 0);
    assert_eq!(level(&w), "Thu, Feb 29, 1:05:09\u{202F}PM");
    send(&mut w, Message::SetMilitaryTime(true), 0);
    assert_eq!(level(&w), "Thu, Feb 29, 13:05:09");
    send(&mut w, Message::SetShowWeekday(false), 0);
    assert_eq!(level(&w), "Feb 29, 13:05:09");
    send(&mut w, Message::SetShowDate(false), 0);
    assert_eq!(level(&w), "13:05:09");
    send(&mut w, Message::SetShowWeekday(true), 0);
    assert_eq!(level(&w), "13:05:09");
    send(&mut w, Message::SetShowSeconds(false), 0);
    assert_eq!(level(&w), "13:05");
}

#[test]
fn upright_clock_stacks_its_parts() {
    let mut w = window("en-US");
    assert_eq!(upright(&w), ["Feb", "29", "---", "1", "05", "PM"]);
    send(&mut w, Message::SetMilitaryTime(true), 0);
    send(&mut w, Message::SetShowSeconds(true), 0);
    assert_eq!(upright(&w), ["Feb", "29", "---", "13", "05", "09"]);
    send(&mut w, Message::SetShowDate(false), 0);
    assert_eq!(upright(&w), ["13", "05", "09"]);
}

#[test]
fn clock_is_in_the_words_of_the_locale() {
    let mut w = window("de-DE");
    send(&mut w, Message::SetMilitaryTime(true), 0);
    assert_eq!(level(&w), "29. Feb., 13:05");
}

#[test]
fn unknown_locale_has_no_clock() {
    let w = window("?");
    assert!(w.horizontal_layout().is_none());
    assert!(w.vertical_layout().is_none());
    assert!(w.panel_view(metrics(PanelAnchor::Top), 0).is_none());
    assert!(w.panel_view(metrics(PanelAnchor::Left), 0).is_none());
}

#[test]
fn pieces_of_an_upright_clock() {
    let list = vertical_clock(Some("29. Feb".to_string()), "1:05 PM");
    assert_eq!(shown(&list), ["29.", "Feb", "---", "1", "05", "PM"]);
    assert_eq!(shown(&vertical_clock(None, "")), Vec::<String>::new());
    assert_eq!(shown(&vertical_clock(Some(String::new()), "7")), ["---", "7"]);
}

#[test]
fn panel_is_level_at_top_and_bottom() {
    let w = window("en-US");
    for anchor in [PanelAnchor::Top, PanelAnchor::Bottom] {
        let p = panel(&w, anchor);
        assert!(p.horizontal);
        assert_eq!(p.padding, (0, 8));
        assert_eq!(p.extent, 28);
        assert!(matches!(p.content, PanelContent::Horizontal(_)));
    }
    for anchor in [PanelAnchor::Left, PanelAnchor::Right] {
        let p = panel(&w, anchor);
        assert!(!p.horizontal);
        assert_eq!(p.padding, (8, 0));
        assert_eq!(p.extent, 24);
        assert!(matches!(p.content, PanelContent::Vertical(_)));
    }
}

#[test]
fn stopwatch_takes_the_place_of_the_clock() {
    let mut w = window("?");
    send(&mut w, Message::StopwatchStartPause, 0);
    let p = w.panel_view(metrics(PanelAnchor::Top), 83 * SECOND).expect("panel");
    match p.content {
        PanelContent::Stopwatch { icon, text, horizontal } => {
            assert_eq!(icon, "accessories-clock-symbolic");
            assert_eq!(text, "01:23");
            assert!(horizontal);
        }
        other => panic!("{other:?}"),
    }
}

#[test]
fn timer_takes_the_place_of_the_stopwatch() {
    let mut w = window("en-US");
    send(&mut w, Message::StopwatchStartPause, 0);
    send(&mut w, Message::TimerStartPause, 0);
    let p = w.panel_view(metrics(PanelAnchor::Left), 200 * SECOND).expect("panel");
    match p.content {
        PanelContent::Timer { icon, text, class, horizontal } => {
            assert_eq!(icon, "alarm-symbolic");
            assert_eq!(text, "01:40");
            assert_eq!(class, TextClass::Default);
            assert!(!horizontal);
        }
        other => panic!("{other:?}"),
    }
}

#[test]
fn paused_timer_leaves_the_panel_to_the_clock() {
    let mut w = window("en-US");
    send(&mut w, Message::TimerStartPause, 0);
    send(&mut w, Message::TimerStartPause, 295);
    assert_eq!(w.timer_paused(), Some(5 * SECOND));
    assert!(matches!(panel(&w, PanelAnchor::Top).content, PanelContent::Horizontal(_)));
    assert_eq!(w.timer_text_color(0), None);
}

#[test]
fn press_opens_the_popup_in_every_state() {
    let clock = window("en-US");
    let mut stopwatch = window("en-US");
    send(&mut stopwatch, Message::StopwatchStartPause, 0);
    let mut timer = window("en-US");
    send(&mut timer, Message::TimerStartPause, 0);
    let mut finished = window("en-US");
    send(&mut finished, Message::TimerStartPause, 0);
    send(&mut finished, Message::FastTick, 300);
    assert!(finished.timer_finished());
    for w in [clock, stopwatch, timer, finished] {
        for anchor in [PanelAnchor::Top, PanelAnchor::Left] {
            assert!(matches!(panel(&w, anchor).on_press, Message::TogglePopup));
        }
    }
}

#[test]
fn clock_changes_only_with_what_it_shows() {
    for locale in ["en-US", "de-DE", "fa-IR", "zh-TW", "ja-JP-u-ca-japanese"] {
        let mut a = window(locale);
        let mut b = window(locale);
        // Noon has a name of its own in some places.
        for hour in [0, 12, 13] {
            let late = Zoned { hour, minute: 0, second: 59, ..now() };
            tick(&mut a, Zoned { second: 0, ..late });
            tick(&mut b, late);
            assert_eq!(level(&a), level(&b));
            assert_eq!(upright(&a), upright(&b));
            send(&mut a, Message::SetShowDate(false), 0);
            send(&mut b, Message::SetShowDate(false), 0);
            send(&mut b, Message::SetShowWeekday(true), 0);
            tick(&mut b, Zoned { date: Date { year: 1, month: 7, day: 4 }, ..late });
            assert_eq!(level(&a), level(&b));
            assert_eq!(upright(&a), upright(&b));
            send(&mut b, Message::SetShowWeekday(false), 0);
            send(&mut a, Message::SetShowDate(true), 0);
            send(&mut b, Message::SetShowDate(true), 0);
        }
    }
}

#[test]
fn pieces_hold_neither_white_space_nor_colons() {
    let list = shown(&vertical_clock(Some("29.\u{00A0}Feb\t".to_string()), "1:05\u{202F}PM"));
    assert_eq!(list, ["29.", "Feb", "---", "1", "05", "PM"]);
    for piece in list {
        assert!(!piece.contains(':') && !piece.contains(char::is_whitespace));
    }
}

#[test]
fn last_ten_seconds_are_red() {
    let mut w = window("en-US");
    send(&mut w, Message::TimerStartPause, 0);
    assert_eq!(w.timer_text_color(290 * SECOND - 1), None);
    assert_eq!(w.timer_text_class(290 * SECOND - 1), TextClass::Default);
    assert_eq!(w.timer_text_color(290 * SECOND), Some(TextColor::Red));
    assert_eq!(w.timer_text_class(299 * SECOND), TextClass::Color(TextColor::Red));
}

#[test]
fn finished_timer_reads_zero_and_flashes() {
    let mut w = window("en-US");
    send(&mut w, Message::TimerStartPause, 0);
    send(&mut w, Message::FastTick, 300);
    let half = SECOND / 2;
    assert_eq!(w.timer_text_color(300 * SECOND), Some(TextColor::Red));
    assert_eq!(w.timer_text_color(300 * SECOND + half - 1), Some(TextColor::Red));
    assert_eq!(w.timer_text_color(300 * SECOND + half), Some(TextColor::Transparent));
    assert_eq!(w.timer_text_color(301 * SECOND), Some(TextColor::Red));
    assert_eq!(w.timer_readout(301 * SECOND), 0);
    match w.timer_panel(true, 300 * SECOND + half) {
        PanelContent::Timer { text, class, horizontal, .. } => {
            assert_eq!(text, "00:00");
            assert!(horizontal);
            assert_eq!(class, TextClass::Color(TextColor::Transparent));
        }
        other => panic!("{other:?}"),
    }
}
