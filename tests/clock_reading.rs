use time_settings::clock::{local_now, unix_timestamp, ClockReading, DateTimeSample};
use time_settings::page::{Message, Page};

fn reading(after_epoch: bool, secs: u64, nanos: u32) -> ClockReading {
    ClockReading { after_epoch, secs, nanos }
}

#[test]
fn after_epoch_keeps_seconds() {
    assert_eq!(unix_timestamp(reading(true, 1_704_461_400, 250)), Some((1_704_461_400, 250)));
    assert_eq!(unix_timestamp(reading(true, 0, 0)), Some((0, 0)));
}

#[test]
fn before_epoch_rounds_down() {
    assert_eq!(unix_timestamp(reading(false, 10, 0)), Some((-10, 0)));
    assert_eq!(unix_timestamp(reading(false, 10, 250_000_000)), Some((-11, 750_000_000)));
    assert_eq!(unix_timestamp(reading(false, 0, 1)), Some((-1, 999_999_999)));
}

#[test]
fn far_readings_give_none() {
    assert_eq!(unix_timestamp(reading(true, 8_000_000_000_000, 999_999_999)), Some((8_000_000_000_000, 999_999_999)));
    assert_eq!(unix_timestamp(reading(true, 8_000_000_000_001, 0)), None);
    assert_eq!(unix_timestamp(reading(false, 8_000_000_000_000, 0)), Some((-8_000_000_000_000, 0)));
    assert_eq!(unix_timestamp(reading(false, 8_000_000_000_000, 1)), None);
    assert_eq!(unix_timestamp(reading(true, u64::MAX, 0)), None);
}

#[test]
fn local_now_is_a_calendar_date() {
    let t = local_now().expect("the clock reads a calendar date");
    assert!((1..=12).contains(&t.month));
    assert!((1..=31).contains(&t.day));
    assert!(t.hour < 24 && t.minute < 60 && t.second < 60);
    assert!(t.year >= 2000);
}

#[test]
fn set_local_time_renders_the_sample() {
    let mut p = Page::new(Some(true), None, None, Some("en_US.UTF-8".to_string()));
    let t = DateTimeSample { year: 2024, month: 1, day: 5, hour: 13, minute: 30, second: 0 };
    p.set_local_time(t);
    assert_eq!(p.local_time(), Some(t));
    assert!(p.formatted_date().contains("13:30"), "{}", p.formatted_date());
    p.update(Message::MilitaryTime(false));
    assert!(p.local_time().is_some());
    assert!(!p.formatted_date().is_empty());
}

#[test]
fn apply_sample_none_rerenders_last() {
    let mut p = Page::new(Some(false), None, None, Some("en_US.UTF-8".to_string()));
    p.apply_sample(None);
    assert!(p.local_time().is_none());
    assert_eq!(p.formatted_date(), "");
    let t = DateTimeSample { year: 2024, month: 1, day: 5, hour: 13, minute: 30, second: 0 };
    p.apply_sample(Some(t));
    assert_eq!(p.local_time(), Some(t));
    assert!(p.formatted_date().contains("1:30"), "{}", p.formatted_date());
    p.update(Message::NoOp);
    p.apply_sample(None);
    assert_eq!(p.local_time(), Some(t));
}

#[test]
fn out_of_range_years_render_empty() {
    let lang = Some("en_US.UTF-8".to_string());
    let far = DateTimeSample { year: 10_000, month: 1, day: 5, hour: 13, minute: 30, second: 0 };
    assert_eq!(time_settings::format::format_date(&lang, &far, true), "");
    let far = DateTimeSample { year: -10_000, month: 1, day: 5, hour: 13, minute: 30, second: 0 };
    assert_eq!(time_settings::format::format_date(&lang, &far, true), "");
    let edge = DateTimeSample { year: 9999, month: 12, day: 31, hour: 23, minute: 59, second: 59 };
    assert!(!time_settings::format::format_date(&lang, &edge, true).is_empty());
}

#[test]
fn invalid_samples_render_empty() {
    let lang = Some("en_US.UTF-8".to_string());
    let feb29 = |year| DateTimeSample { year, month: 2, day: 29, hour: 0, minute: 0, second: 0 };
    assert_eq!(time_settings::format::format_date(&lang, &feb29(2023), false), "");
    assert_eq!(time_settings::format::format_date(&lang, &feb29(1900), false), "");
    assert!(!time_settings::format::format_date(&lang, &feb29(2000), false).is_empty());
    assert!(!time_settings::format::format_date(&lang, &feb29(-4), false).is_empty());
    let bad = DateTimeSample { year: 2024, month: 13, day: 1, hour: 0, minute: 0, second: 0 };
    assert_eq!(time_settings::format::format_date(&lang, &bad, false), "");
    let bad = DateTimeSample { year: 2024, month: 4, day: 31, hour: 0, minute: 0, second: 0 };
    assert_eq!(time_settings::format::format_date(&lang, &bad, false), "");
    let bad = DateTimeSample { year: 2024, month: 4, day: 30, hour: 24, minute: 0, second: 0 };
    assert_eq!(time_settings::format::format_date(&lang, &bad, false), "");
}
