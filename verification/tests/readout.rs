use day_applet::readout::{format_elapsed, format_elapsed_short, CENTISECOND, SECOND};

#[test]
fn elapsed_has_centiseconds() {
    assert_eq!(format_elapsed(83 * SECOND + 45 * CENTISECOND), "01:23.45");
    assert_eq!(format_elapsed(3723 * SECOND + 45 * CENTISECOND), "1:02:03.45");
    assert_eq!(format_elapsed(0), "00:00.00");
}

#[test]
fn elapsed_drops_what_is_below_a_centisecond() {
    assert_eq!(format_elapsed(CENTISECOND - 1), "00:00.00");
    assert_eq!(format_elapsed(SECOND - 1), "00:00.99");
    assert_eq!(format_elapsed(SECOND), "00:01.00");
}

#[test]
fn short_readout_has_no_centiseconds() {
    assert_eq!(format_elapsed_short(83 * SECOND + 999_999_999), "01:23");
    assert_eq!(format_elapsed_short(3723 * SECOND), "1:02:03");
    assert_eq!(format_elapsed_short(0), "00:00");
}

#[test]
fn hours_are_shown_from_the_first_one_on() {
    assert_eq!(format_elapsed_short(3599 * SECOND), "59:59");
    assert_eq!(format_elapsed_short(3600 * SECOND), "1:00:00");
    assert_eq!(format_elapsed_short(356_400 * SECOND), "99:00:00");
    assert_eq!(format_elapsed_short(360_000 * SECOND), "100:00:00");
}

#[test]
fn different_seconds_read_differently() {
    let mut seen: Vec<String> = Vec::new();
    for seconds in [0, 1, 59, 60, 61, 599, 600, 3599, 3600, 3601, 36_000, 356_400] {
        let text = format_elapsed_short(seconds * SECOND);
        assert!(!seen.contains(&text));
        seen.push(text);
    }
}

#[test]
fn long_readout_extends_the_short_one() {
    for nanos in [0, 999_999_999, 61 * SECOND + 5 * CENTISECOND, 7322 * SECOND] {
        assert!(format_elapsed(nanos).starts_with(&format_elapsed_short(nanos)));
    }
}

#[test]
fn longest_duration_can_be_read() {
    let nanos = day_applet::window::DURATION_MAX;
    assert_eq!(format_elapsed_short(nanos), "5124095576030431:00:15");
    assert_eq!(format_elapsed(nanos), "5124095576030431:00:15.99");
}
