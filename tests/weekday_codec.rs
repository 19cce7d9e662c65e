use time_settings::weekday::{weekday_code, weekday_index};

#[test]
fn known_codes_round_trip() {
    assert_eq!(weekday_index(4), 0);
    assert_eq!(weekday_index(5), 1);
    assert_eq!(weekday_index(0), 3);
    for code in [4usize, 5, 0] {
        assert_eq!(weekday_code(weekday_index(code)), code);
    }
}

#[test]
fn other_codes_collapse_to_sunday() {
    for code in [1usize, 2, 3, 6, 7, 100, usize::MAX] {
        assert_eq!(weekday_index(code), 2);
        assert_eq!(weekday_code(weekday_index(code)), 6);
    }
    assert_eq!(weekday_code(2), 6);
}

#[test]
fn positions_encode() {
    assert_eq!(weekday_code(0), 4);
    assert_eq!(weekday_code(1), 5);
    assert_eq!(weekday_code(3), 0);
    assert_eq!(weekday_code(9), 6);
    for index in 0..4usize {
        assert_eq!(weekday_index(weekday_code(index)), index);
    }
}
