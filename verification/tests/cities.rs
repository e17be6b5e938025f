use day_applet::cities::{cities, comes_before, CityEntry, TzEntry};

fn zone(name: &str, country: &str, cities: &[&str]) -> TzEntry {
    TzEntry {
        name: name.to_string(),
        country_name: country.to_string(),
        main_cities: cities.iter().map(|c| c.to_string()).collect(),
    }
}

fn entry(city: &str, timezone: &str, country: &str) -> CityEntry {
    CityEntry {
        city: city.to_string(),
        timezone: timezone.to_string(),
        country: country.to_string(),
    }
}

#[test]
fn every_city_and_utc_sorted_by_name() {
    let zones = vec![
        zone("Europe/Zurich", "Switzerland", &["Zurich", "Geneva"]),
        zone("Asia/Tokyo", "Japan", &["Tokyo"]),
        zone("Antarctica/Troll", "Antarctica", &[]),
    ];
    assert_eq!(
        cities(&zones),
        vec![
            entry("Geneva", "Europe/Zurich", "Switzerland"),
            entry("Tokyo", "Asia/Tokyo", "Japan"),
            entry("UTC", "UTC", "Coordinated Universal Time"),
            entry("Zurich", "Europe/Zurich", "Switzerland"),
        ]
    );
}

#[test]
fn utc_is_there_without_zones() {
    assert_eq!(
        cities(&Vec::new()),
        vec![entry("UTC", "UTC", "Coordinated Universal Time")]
    );
}

#[test]
fn cities_with_one_name_keep_their_order() {
    let zones = vec![
        zone("America/New_York", "United States", &["Portland"]),
        zone("America/Los_Angeles", "United States", &["Portland", "Fresno"]),
        zone("Australia/Melbourne", "Australia", &["Portland"]),
    ];
    let sorted = cities(&zones);
    let zones_of_portland: Vec<&str> = sorted
        .iter()
        .filter(|c| c.city == "Portland")
        .map(|c| c.timezone.as_str())
        .collect();
    assert_eq!(
        zones_of_portland,
        vec!["America/New_York", "America/Los_Angeles", "Australia/Melbourne"]
    );
    assert_eq!(sorted[0].city, "Fresno");
}

#[test]
fn sorting_agrees_with_that_of_strings() {
    let names = [
        "\u{015E}anl\u{0131}urfa", "S\u{00E3}o Paulo", "Sao", "Saob", "", "\u{1F600}",
        "\u{FFFD}", "zurich", "Zurich",
    ];
    let zones = vec![zone("X/Y", "Z", &names)];
    let sorted: Vec<String> = cities(&zones).into_iter().map(|c| c.city).collect();
    let mut expected: Vec<String> = names.iter().map(|n| n.to_string()).collect();
    expected.push("UTC".to_string());
    expected.sort();
    assert_eq!(sorted, expected);
}

#[test]
fn order_of_texts() {
    assert!(comes_before("Geneva", "Zurich"));
    assert!(!comes_before("Zurich", "Geneva"));
    assert!(!comes_before("Geneva", "Geneva"));
    assert!(comes_before("Gen", "Geneva"));
    assert!(!comes_before("Geneva", "Gen"));
    assert!(comes_before("", "a"));
    assert!(!comes_before("", ""));
}

#[test]
fn an_entry_reads_city_and_country() {
    assert_eq!(entry("Tokyo", "Asia/Tokyo", "Japan").to_string(), "Tokyo, Japan");
}
