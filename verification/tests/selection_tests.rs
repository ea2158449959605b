use timetable_view::selection::parse_u8_dec;
use timetable_view::selection::rehydrate_component;
use timetable_view::selection::u8_to_dec_string;

#[test]
fn parse_accepts_plain_numbers() {
    assert_eq!(parse_u8_dec(&"0".to_string()), Some(0));
    assert_eq!(parse_u8_dec(&"7".to_string()), Some(7));
    assert_eq!(parse_u8_dec(&"42".to_string()), Some(42));
    assert_eq!(parse_u8_dec(&"255".to_string()), Some(255));
    assert_eq!(parse_u8_dec(&"007".to_string()), Some(7));
}

#[test]
fn parse_rejects_non_numbers() {
    assert_eq!(parse_u8_dec(&"".to_string()), None);
    assert_eq!(parse_u8_dec(&"abc".to_string()), None);
    assert_eq!(parse_u8_dec(&"12a".to_string()), None);
    assert_eq!(parse_u8_dec(&"-3".to_string()), None);
    assert_eq!(parse_u8_dec(&" 3".to_string()), None);
    assert_eq!(parse_u8_dec(&"256".to_string()), None);
    assert_eq!(parse_u8_dec(&"99999999999999999999".to_string()), None);
}

#[test]
fn rehydrate_defaults_to_one_on_corruption() {
    assert_eq!(rehydrate_component(&None), 1);
    assert_eq!(rehydrate_component(&Some("".to_string())), 1);
    assert_eq!(rehydrate_component(&Some("abc".to_string())), 1);
    assert_eq!(rehydrate_component(&Some("0".to_string())), 1);
    assert_eq!(rehydrate_component(&Some("256".to_string())), 1);
}

#[test]
fn rehydrate_restores_positive_values() {
    assert_eq!(rehydrate_component(&Some("1".to_string())), 1);
    assert_eq!(rehydrate_component(&Some("2".to_string())), 2);
    assert_eq!(rehydrate_component(&Some("13".to_string())), 13);
    assert_eq!(rehydrate_component(&Some("255".to_string())), 255);
}

#[test]
fn dec_string_is_canonical() {
    assert_eq!(u8_to_dec_string(0), "0");
    assert_eq!(u8_to_dec_string(7), "7");
    assert_eq!(u8_to_dec_string(10), "10");
    assert_eq!(u8_to_dec_string(42), "42");
    assert_eq!(u8_to_dec_string(100), "100");
    assert_eq!(u8_to_dec_string(205), "205");
    assert_eq!(u8_to_dec_string(255), "255");
}

#[test]
fn dec_string_round_trips_through_rehydration() {
    for v in 1..=255u8 {
        let persisted = u8_to_dec_string(v);
        assert_eq!(rehydrate_component(&Some(persisted)), v);
    }
}
