use aseprite_mcp::color::{parse_hex_color, parse_hex_color_with_alpha, validate_hex_color};
use aseprite_mcp::decimal::decimal;

#[test]
fn validate_accepts_six_and_eight_digits() {
    assert_eq!(validate_hex_color("#ff0000"), Ok(()));
    assert_eq!(validate_hex_color("#FF000080"), Ok(()));
    assert_eq!(validate_hex_color("a1B2c3"), Ok(()));
    assert_eq!(validate_hex_color("##abcdef"), Ok(()));
}

#[test]
fn validate_rejects_wrong_length() {
    assert_eq!(
        validate_hex_color("#fff"),
        Err("expected 6 or 8 hex digits (got 3), format: #rrggbb or #rrggbbaa".to_string())
    );
    assert_eq!(
        validate_hex_color(""),
        Err("expected 6 or 8 hex digits (got 0), format: #rrggbb or #rrggbbaa".to_string())
    );
    assert_eq!(
        validate_hex_color("#1234567"),
        Err("expected 6 or 8 hex digits (got 7), format: #rrggbb or #rrggbbaa".to_string())
    );
}

#[test]
fn validate_counts_bytes_not_characters() {
    // Three two-byte characters make six bytes, which are not hex digits.
    assert_eq!(validate_hex_color("#ééé"), Err("contains non-hex characters".to_string()));
    assert_eq!(
        validate_hex_color("#éé"),
        Err("expected 6 or 8 hex digits (got 4), format: #rrggbb or #rrggbbaa".to_string())
    );
}

#[test]
fn validate_rejects_non_hex() {
    assert_eq!(validate_hex_color("#gg0000"), Err("contains non-hex characters".to_string()));
}

#[test]
fn parse_rgb() {
    assert_eq!(parse_hex_color("#ff8000"), (255, 128, 0));
    assert_eq!(parse_hex_color("0a0B0c"), (10, 11, 12));
    assert_eq!(parse_hex_color("#11223344"), (0x11, 0x22, 0x33));
}

#[test]
fn parse_rgba_with_and_without_alpha() {
    assert_eq!(parse_hex_color_with_alpha("#ff000080"), (255, 0, 0, 128));
    assert_eq!(parse_hex_color_with_alpha("#00ff00"), (0, 255, 0, 255));
}

#[test]
fn decimal_text() {
    assert_eq!(decimal(0), "0");
    assert_eq!(decimal(7), "7");
    assert_eq!(decimal(60), "60");
    assert_eq!(decimal(1234567890), "1234567890");
    assert_eq!(decimal(u128::MAX), u128::MAX.to_string());
}
