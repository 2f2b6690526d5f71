//! The text parsers on concrete inputs: accepted shapes, rejected shapes,
//! resolution and range limits.

use millcalc::parse::{parse_diameter, parse_flute_count};

#[test]
fn diameter_accepts_plain_decimals() {
    assert_eq!(parse_diameter(b"8"), Some(8_000));
    assert_eq!(parse_diameter(b"10.5"), Some(10_500));
    assert_eq!(parse_diameter(b"0.001"), Some(1));
    assert_eq!(parse_diameter(b"0"), Some(0));
    assert_eq!(parse_diameter(b"007"), Some(7_000));
}

#[test]
fn diameter_accepts_signs_and_bare_dots() {
    assert_eq!(parse_diameter(b"+8"), Some(8_000));
    assert_eq!(parse_diameter(b"-3"), Some(-3_000));
    assert_eq!(parse_diameter(b".5"), Some(500));
    assert_eq!(parse_diameter(b"8."), Some(8_000));
    assert_eq!(parse_diameter(b"-.25"), Some(-250));
}

#[test]
fn diameter_ignores_digits_beyond_micrometres() {
    assert_eq!(parse_diameter(b"2.0005"), Some(2_000));
    assert_eq!(parse_diameter(b"1.23456"), Some(1_234));
}

#[test]
fn diameter_rejects_malformed_text() {
    assert_eq!(parse_diameter(b""), None);
    assert_eq!(parse_diameter(b"+"), None);
    assert_eq!(parse_diameter(b"-"), None);
    assert_eq!(parse_diameter(b"."), None);
    assert_eq!(parse_diameter(b"+."), None);
    assert_eq!(parse_diameter(b"abc"), None);
    assert_eq!(parse_diameter(b"1e3"), None);
    assert_eq!(parse_diameter(b"1.2.3"), None);
    assert_eq!(parse_diameter(b" 8"), None);
    assert_eq!(parse_diameter(b"8 "), None);
    assert_eq!(parse_diameter(b"--8"), None);
}

#[test]
fn diameter_rejects_out_of_range_values() {
    // The limit is 100 m, i.e. 100 million micrometres.
    assert_eq!(parse_diameter(b"100000"), Some(100_000_000));
    assert_eq!(parse_diameter(b"-100000"), Some(-100_000_000));
    assert_eq!(parse_diameter(b"100000.001"), None);
    assert_eq!(parse_diameter(b"100001"), None);
    assert_eq!(parse_diameter(b"99999999999999999999"), None);
}

#[test]
fn flute_count_accepts_u8_values() {
    assert_eq!(parse_flute_count(b"0"), Some(0));
    assert_eq!(parse_flute_count(b"2"), Some(2));
    assert_eq!(parse_flute_count(b"+7"), Some(7));
    assert_eq!(parse_flute_count(b"255"), Some(255));
    assert_eq!(parse_flute_count(b"007"), Some(7));
}

#[test]
fn flute_count_rejects_other_text() {
    assert_eq!(parse_flute_count(b""), None);
    assert_eq!(parse_flute_count(b"+"), None);
    assert_eq!(parse_flute_count(b"-1"), None);
    assert_eq!(parse_flute_count(b"256"), None);
    assert_eq!(parse_flute_count(b"2.0"), None);
    assert_eq!(parse_flute_count(b"two"), None);
    assert_eq!(parse_flute_count(b" 2"), None);
    assert_eq!(parse_flute_count(b"99999999999999999999"), None);
}
