use rtmap::model::line::{LineDescription, TransportMode};
use rtmap::model::types::{ColorType, Direction};
use rtmap::model::{enums, line_stop::LineStop};
use rtmap::repository::columns::{column_text, line_clusters};
use rtmap::repository::records::{RawFahrplanR, RawFahrplanStop, RawFahrplanZ, RawStop};
use rtmap::text::parse_decimal;

#[test]
fn stop_record_fields_are_trimmed_column_texts() {
    let line = "8587057 Genève, gare Cornavin 00812  00815";
    let s = RawFahrplanStop::from_line(line).ok().unwrap();
    assert_eq!(s.id, 8587057);
    assert_eq!(s.name, "Genève, gare Cornavi");
    assert_eq!(s.arrival_time, "00812");
    assert_eq!(s.departure_time, "00815");
}

#[test]
fn columns_count_grapheme_clusters() {
    let line = "e\u{301}bcdef";
    let g = line_clusters(line);
    assert_eq!(g.len(), 6);
    assert_eq!(g[0], "e\u{301}");
    assert_eq!(column_text(&g, 0, 2), "e\u{301}b");
    assert_eq!(column_text(&g, 4, 99), "ef");
    assert_eq!(column_text(&g, 50, 99), "");
}

#[test]
fn column_text_is_trimmed() {
    let g = line_clusters("   ab  c   ");
    assert_eq!(column_text(&g, 0, 11), "ab  c");
    assert_eq!(column_text(&g, 0, 2), "");
}

#[test]
fn short_line_leaves_trailing_fields_empty() {
    let s = RawFahrplanStop::from_line("0000042 Name").ok().unwrap();
    assert_eq!(s.id, 42);
    assert_eq!(s.name, "Name");
    assert_eq!(s.arrival_time, "");
    assert_eq!(s.departure_time, "");
}

#[test]
fn bad_integer_field_fails_the_record() {
    let e = RawFahrplanZ::from_line("*Z 00x123 000881   001").err().unwrap();
    assert_eq!(e.field, "journey_number");
    assert_eq!(e.text, "00x123");
}

#[test]
fn option_count_must_be_numeric() {
    assert!(RawFahrplanZ::from_line("*Z 000123 000881   999").is_ok());
    assert!(RawFahrplanZ::from_line("*Z 000123 000881   0x1").is_err());
}

#[test]
fn direction_token_is_strict() {
    assert_eq!(RawFahrplanR::from_line("*R H  000001 8587057 8587058").ok().unwrap().direction, Direction::Outward);
    assert_eq!(RawFahrplanR::from_line("*R R  000001 8587057 8587058").ok().unwrap().direction, Direction::Return);
    let e = RawFahrplanR::from_line("*R Q  000001 8587057 8587058").err().unwrap();
    assert_eq!(e.field, "direction");
    assert_eq!(e.text, "Q");
}

#[test]
fn coordinates_stay_as_text() {
    let line = "8587057   6.142296  46.210212          Genève";
    let s = RawStop::from_line(line).ok().unwrap();
    assert_eq!(s.id, 8587057);
    assert_eq!(s.lon, "6.142296");
    assert_eq!(s.lat, "46.210212");
    assert_eq!(s.name, "Genève");
}

#[test]
fn decimal_parsing_follows_integer_syntax() {
    assert_eq!(parse_decimal("-42", -100, 100), Some(-42));
    assert_eq!(parse_decimal("+7", -100, 100), Some(7));
    assert_eq!(parse_decimal("007", -100, 100), Some(7));
    assert_eq!(parse_decimal("101", -100, 100), None);
    assert_eq!(parse_decimal("-", -100, 100), None);
    assert_eq!(parse_decimal("", -100, 100), None);
    assert_eq!(parse_decimal("1 2", -100, 100), None);
    assert_eq!(parse_decimal("99999999999999999999", i32::MIN as i64, i32::MAX as i64), None);
    assert_eq!(parse_decimal("2147483647", i32::MIN as i64, i32::MAX as i64), Some(2147483647));
    assert_eq!(parse_decimal("-2147483648", i32::MIN as i64, i32::MAX as i64), Some(-2147483648));
}

#[test]
fn transport_mode_tokens() {
    assert_eq!(TransportMode::from_str("B"), Ok(TransportMode::Bus));
    assert_eq!(TransportMode::from_str("T"), Ok(TransportMode::Tramway));
    assert_eq!(TransportMode::from_str("Rail"), Ok(TransportMode::Rail));
    assert_eq!(TransportMode::from_str("??"), Ok(TransportMode::Unknown));
}

#[test]
fn descriptions_group_into_modes() {
    assert_eq!(TransportMode::from_description(&LineDescription::Nightbus), TransportMode::Bus);
    assert_eq!(TransportMode::from_description(&LineDescription::GondolaLift), TransportMode::CableWay);
    assert_eq!(TransportMode::from_description(&LineDescription::Aircraft), TransportMode::Unknown);
    assert_eq!(TransportMode::from_description(&LineDescription::InterCity), TransportMode::Rail);
    assert_eq!(LineDescription::from_code("IC"), LineDescription::InterCity);
    assert_eq!(LineDescription::from_code("NFB"), LineDescription::LowFloorBus);
    assert_eq!(LineDescription::from_code("QQQ"), LineDescription::UnknownMode);
}

#[test]
fn color_and_direction_tables() {
    assert_eq!(ColorType::from_str("255 255 255"), Ok(ColorType::Light));
    assert_eq!(ColorType::from_str("000 000 000"), Ok(ColorType::Dark));
    assert_eq!(ColorType::from_str("128 0 0"), Ok(ColorType::Unknown));
    assert_eq!(Direction::from_str("Return"), Ok(Direction::Return));
    assert_eq!(Direction::from_str("X"), Err(()));
    assert_eq!(enums::ColorType::from_str("Light"), Err(()));
    assert_eq!(enums::Direction::from_str("H"), Ok(enums::Direction::Outward));
}

#[test]
fn line_stop_gets_a_random_id() {
    let a = LineStop::new("1".to_string(), "2".to_string(), enums::Direction::Return, 3, "v".to_string(), 4);
    let b = LineStop::new("1".to_string(), "2".to_string(), enums::Direction::Return, 3, "v".to_string(), 4);
    assert_eq!(a.id.len(), 36);
    assert_ne!(a.id, b.id);
    assert_eq!(a.stop_id, "2");
    assert_eq!(a.sequence, 3);
}
