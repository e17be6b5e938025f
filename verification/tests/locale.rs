use day_applet::locale::{first_locale, get_system_locale, locale_candidates, uses_fallback};

fn text(value: &str) -> Option<String> {
    Some(value.to_string())
}

#[test]
fn encoding_is_dropped_and_underscores_become_hyphens() {
    assert_eq!(get_system_locale(text("de_DE.UTF-8"), None, None), text("de-DE"));
    assert_eq!(get_system_locale(None, text("fr_CA"), None), text("fr-CA"));
    assert_eq!(get_system_locale(None, None, text("ja_JP.eucJP")), text("ja-JP"));
}

#[test]
fn first_variable_decides() {
    assert_eq!(
        get_system_locale(text("fa_IR.UTF-8"), text("de_DE.UTF-8"), text("en_GB.UTF-8")),
        text("fa-IR")
    );
    assert_eq!(
        get_system_locale(None, text("de_DE.UTF-8"), text("en_GB.UTF-8")),
        text("de-DE")
    );
}

#[test]
fn language_alone_is_tried_next() {
    assert_eq!(get_system_locale(text("sv_toolongregion"), None, text("de_DE")), text("sv"));
}

#[test]
fn variables_that_name_no_locale_are_passed_over() {
    assert_eq!(
        get_system_locale(text("C.UTF-8"), text(""), text("it_IT.UTF-8")),
        text("it-IT")
    );
    assert_eq!(get_system_locale(text("C"), text("1"), text("?")), text("en-US"));
}

#[test]
fn fallback_is_american_english() {
    assert_eq!(get_system_locale(None, None, None), text("en-US"));
}

#[test]
fn fallback_is_told_from_a_locale_of_that_name() {
    assert!(uses_fallback(&None, &None, &None));
    assert!(uses_fallback(&text("C"), &text("1"), &text("?")));
    assert!(!uses_fallback(&None, &None, &text("en_US.UTF-8")));
    assert!(!uses_fallback(&text("C.UTF-8"), &text("sv_toolongregion"), &None));
    assert_eq!(get_system_locale(None, None, text("en_US.UTF-8")), text("en-US"));
}

#[test]
fn tags_are_written_as_the_locale_has_them() {
    assert_eq!(get_system_locale(text("EN_us"), None, None), text("en-US"));
}

#[test]
fn candidates_in_order() {
    let values = vec!["de_DE.UTF-8".to_string(), "C".to_string()];
    assert_eq!(locale_candidates(&values), vec!["de-DE", "de", "C", "C", "en-US"]);
    assert_eq!(locale_candidates(&Vec::new()), vec!["en-US"]);
}

#[test]
fn first_that_is_there() {
    assert_eq!(first_locale(vec![None, text("sv"), text("de")]), text("sv"));
    assert_eq!(first_locale(vec![None, None]), None);
    assert_eq!(first_locale(Vec::new()), None);
}
