use time_settings::clock::DateTimeSample;
use time_settings::format::{format_date, language_of};

fn sample() -> DateTimeSample {
    DateTimeSample { year: 2024, month: 1, day: 5, hour: 13, minute: 30, second: 0 }
}

#[test]
fn language_drops_encoding() {
    assert_eq!(language_of("en_US.UTF-8"), "en_US");
    assert_eq!(language_of("de_DE"), "de_DE");
    assert_eq!(language_of(""), "");
    assert_eq!(language_of(".UTF-8"), "");
    assert_eq!(language_of("fr_FR.UTF-8.x"), "fr_FR");
}

#[test]
fn no_language_gives_empty_text() {
    assert_eq!(format_date(&None, &sample(), false), "");
    assert_eq!(format_date(&None, &sample(), true), "");
}

#[test]
fn unparsable_language_gives_empty_text() {
    let lang = Some("!!not a locale!!".to_string());
    assert_eq!(format_date(&lang, &sample(), true), "");
}

#[test]
fn hour_cycle_follows_military_flag() {
    let lang = Some("en_US.UTF-8".to_string());
    let twelve = format_date(&lang, &sample(), false);
    let twenty_four = format_date(&lang, &sample(), true);
    assert!(twelve.contains("1:30"), "{twelve}");
    assert!(!twelve.contains("13:30"), "{twelve}");
    assert!(twenty_four.contains("13:30"), "{twenty_four}");
}

#[test]
fn text_holds_year_month_and_day() {
    let lang = Some("en_US.UTF-8".to_string());
    let text = format_date(&lang, &sample(), true);
    assert!(text.contains("2024"), "{text}");
    assert!(text.contains("January"), "{text}");
    assert!(text.contains('5'), "{text}");
    assert_ne!(text, "en_US");
}
