use solc_ast::location::format_location;
use solc_ast::location::format_number;
use solc_ast::location::parse_component;
use solc_ast::location::parse_location;
use solc_ast::location::SourceLocation;

fn loc(start: Option<usize>, length: Option<usize>, index: Option<usize>) -> SourceLocation {
    SourceLocation { start, length, index }
}

#[test]
fn parse_known_components() {
    assert_eq!(parse_location("12:5:0"), Some(loc(Some(12), Some(5), Some(0))));
}

#[test]
fn parse_unknown_components() {
    assert_eq!(parse_location("-1:-1:-1"), Some(loc(None, None, None)));
}

#[test]
fn parse_mixed_components() {
    assert_eq!(parse_location("58:17:-1"), Some(loc(Some(58), Some(17), None)));
}

#[test]
fn parse_rejects_two_components() {
    assert_eq!(parse_location("12:5"), None);
}

#[test]
fn parse_rejects_four_components() {
    assert_eq!(parse_location("1:2:3:4"), None);
}

#[test]
fn parse_rejects_empty() {
    assert_eq!(parse_location(""), None);
    assert_eq!(parse_location("::"), None);
}

#[test]
fn parse_rejects_non_digits() {
    assert_eq!(parse_location("a:1:2"), None);
    assert_eq!(parse_location("1:2:3x"), None);
}

#[test]
fn parse_rejects_overflow() {
    // one more than the largest 64-bit value
    assert_eq!(parse_location("18446744073709551616:1:1"), None);
}

#[test]
fn parse_accepts_leading_zeros() {
    assert_eq!(parse_location("007:0:1"), Some(loc(Some(7), Some(0), Some(1))));
}

#[test]
fn parse_component_values() {
    assert_eq!(parse_component("42"), Some(Some(42)));
    assert_eq!(parse_component("-7"), Some(None));
    assert_eq!(parse_component("-0"), Some(None));
    assert_eq!(parse_component(""), None);
    assert_eq!(parse_component("-"), None);
    assert_eq!(parse_component("4x"), None);
}

#[test]
fn format_known_location() {
    assert_eq!(format_location(&loc(Some(12), Some(5), Some(0))), "12:5:0");
}

#[test]
fn format_unknown_location() {
    assert_eq!(format_location(&loc(None, None, None)), "-1:-1:-1");
}

#[test]
fn format_number_digits() {
    assert_eq!(format_number(0), "0");
    assert_eq!(format_number(9), "9");
    assert_eq!(format_number(1234), "1234");
}

#[test]
fn format_then_parse_round_trip() {
    let cases = [
        loc(Some(0), Some(0), Some(0)),
        loc(None, None, None),
        loc(Some(123456), None, Some(7)),
        loc(None, Some(1), None),
    ];
    for c in cases {
        assert_eq!(parse_location(&format_location(&c)), Some(c));
    }
}

#[test]
fn parse_rejects_empty_third_component() {
    assert_eq!(parse_location("1:2:"), None);
}

#[test]
fn parse_rejects_sign_inside_digits() {
    assert_eq!(parse_location("1-2:3:4"), None);
    assert_eq!(parse_location("--1:2:3"), None);
}
