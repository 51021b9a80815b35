use river::color::darken_color;
use river::text::{parse_i64_radix, push_decimal, push_signed_decimal, str_eq, trim_white_space};

#[test]
fn decimal_numbers_are_read() {
    assert_eq!(parse_i64_radix("42", 10), Some(42));
    assert_eq!(parse_i64_radix("+7", 10), Some(7));
    assert_eq!(parse_i64_radix("-15", 10), Some(-15));
    assert_eq!(parse_i64_radix("007", 10), Some(7));
    assert_eq!(parse_i64_radix("9223372036854775807", 10), Some(i64::MAX));
    assert_eq!(parse_i64_radix("-9223372036854775808", 10), Some(i64::MIN));
}

#[test]
fn malformed_numbers_are_refused() {
    for text in ["", "-", "+", "12a", " 1", "1 ", "9223372036854775808", "-9223372036854775809", "99999999999999999999999"] {
        assert_eq!(parse_i64_radix(text, 10), None, "{text:?}");
        assert_eq!(text.parse::<i64>().ok(), None);
    }
}

#[test]
fn hexadecimal_numbers_are_read_like_std() {
    for text in ["2196f3", "FFFFFF", "-1", "+a", "0", "7fffffffffffffff", "8000000000000000", "g", ""] {
        assert_eq!(parse_i64_radix(text, 16), i64::from_str_radix(text, 16).ok(), "{text:?}");
    }
}

#[test]
fn numbers_are_written_in_decimal() {
    let mut s = String::from("#");
    push_decimal(&mut s, 1203);
    assert_eq!(s, "#1203");
    let mut s = String::new();
    push_signed_decimal(&mut s, -45);
    assert_eq!(s, "-45");
    let mut s = String::new();
    push_signed_decimal(&mut s, i64::MIN);
    assert_eq!(s, i64::MIN.to_string());
    let mut s = String::new();
    push_decimal(&mut s, 0);
    assert_eq!(s, "0");
}

#[test]
fn button_colour_darkens_by_percent() {
    assert_eq!(darken_color("#2196f3", 10), "#1e87db");
    assert_eq!(darken_color("#2196f3", 20), "#1b78c3");
    assert_eq!(darken_color("#000000", 10), "#000000");
    assert_eq!(darken_color("#ffffff", 0), "#ffffff");
}

#[test]
fn darkening_keeps_channels_in_range() {
    assert_eq!(darken_color("#c8c8c8", -50), "#ffffff");
    assert_eq!(darken_color("#c8c8c8", 200), "#000000");
}

#[test]
fn colour_without_hash_or_with_several_is_read() {
    assert_eq!(darken_color("2196f3", 10), "#1e87db");
    assert_eq!(darken_color("##abc", 10), "#0009aa");
    assert_eq!(darken_color("#-1", 10), "#e6e6e6");
}

#[test]
fn colour_that_is_not_hexadecimal_is_given_back_without_hashes() {
    assert_eq!(darken_color("#red", 10), "red");
    assert_eq!(darken_color("##", 10), "");
}

#[test]
fn strings_compare_by_content() {
    assert!(str_eq("osm", "osm"));
    assert!(!str_eq("osm", "OSM"));
    assert!(!str_eq("osm", "os"));
    assert!(str_eq("", ""));
}

#[test]
fn white_space_is_trimmed_at_both_ends() {
    assert_eq!(trim_white_space("  多摩川\t\n"), "多摩川");
    assert_eq!(trim_white_space("\u{3000}a b\u{3000}"), "a b");
    assert_eq!(trim_white_space(" \t "), "");
    assert_eq!(trim_white_space(""), "");
    assert_eq!(trim_white_space("x"), "x");
}
