use theme_importer::color::{parse_color, Color, ColorParseError};

fn rgba(r: u8, g: u8, b: u8, a: u8) -> Color {
    Color { r, g, b, a }
}

#[test]
fn parses_six_digit_hex() {
    assert_eq!(parse_color("#1e1e1e"), Ok(rgba(0x1e, 0x1e, 0x1e, 255)));
    assert_eq!(parse_color("#000000"), Ok(rgba(0, 0, 0, 255)));
    assert_eq!(parse_color("#ffffff"), Ok(rgba(255, 255, 255, 255)));
}

#[test]
fn parses_eight_digit_hex() {
    assert_eq!(parse_color("#11223344"), Ok(rgba(0x11, 0x22, 0x33, 0x44)));
    assert_eq!(parse_color("#608b4e80"), Ok(rgba(0x60, 0x8b, 0x4e, 0x80)));
}

#[test]
fn parses_short_hex_by_duplicating_digits() {
    assert_eq!(parse_color("#abc"), Ok(rgba(0xaa, 0xbb, 0xcc, 255)));
    assert_eq!(parse_color("#abcd"), Ok(rgba(0xaa, 0xbb, 0xcc, 0xdd)));
    assert_eq!(parse_color("#123"), Ok(rgba(0x11, 0x22, 0x33, 255)));
}

#[test]
fn parses_upper_case_hex() {
    assert_eq!(parse_color("#A1B2C3"), Ok(rgba(0xa1, 0xb2, 0xc3, 255)));
    assert_eq!(parse_color("#ABCDEF12"), Ok(rgba(0xab, 0xcd, 0xef, 0x12)));
}

#[test]
fn parses_rgb_functional_notation() {
    assert_eq!(parse_color("rgb(1,2,3)"), Ok(rgba(1, 2, 3, 255)));
    assert_eq!(parse_color("rgb(30, 41, 59)"), Ok(rgba(30, 41, 59, 255)));
    assert_eq!(parse_color("rgb( 255 , 0 , 128 )"), Ok(rgba(255, 0, 128, 255)));
}

#[test]
fn parses_rgba_functional_notation() {
    assert_eq!(parse_color("rgba(1,2,3,1)"), Ok(rgba(1, 2, 3, 255)));
    assert_eq!(parse_color("rgba(1,2,3,0)"), Ok(rgba(1, 2, 3, 0)));
    // 0.5 of 255, rounded to nearest
    assert_eq!(parse_color("rgba(0, 128, 255, 0.5)"), Ok(rgba(0, 128, 255, 128)));
    // 0.25 of 255 = 63.75, rounds to 64
    assert_eq!(parse_color("rgba(9,9,9,0.25)"), Ok(rgba(9, 9, 9, 64)));
    assert_eq!(parse_color("rgba(9,9,9,1.000)"), Ok(rgba(9, 9, 9, 255)));
}

#[test]
fn rejects_unrecognized_formats() {
    assert_eq!(parse_color("not-a-color"), Err(ColorParseError::UnrecognizedFormat));
    assert_eq!(parse_color(""), Err(ColorParseError::UnrecognizedFormat));
    assert_eq!(parse_color("hsl(1,2,3)"), Err(ColorParseError::UnrecognizedFormat));
    assert_eq!(parse_color("1e1e1e"), Err(ColorParseError::UnrecognizedFormat));
}

#[test]
fn rejects_malformed_hex() {
    assert_eq!(parse_color("#12345"), Err(ColorParseError::MalformedLiteral));
    assert_eq!(parse_color("#1g1e1e"), Err(ColorParseError::MalformedLiteral));
    assert_eq!(parse_color("#"), Err(ColorParseError::MalformedLiteral));
    assert_eq!(parse_color("#1122334455"), Err(ColorParseError::MalformedLiteral));
}

#[test]
fn rejects_malformed_functional_notation() {
    assert_eq!(parse_color("rgb(1,2)"), Err(ColorParseError::MalformedLiteral));
    assert_eq!(parse_color("rgb(1,2,3"), Err(ColorParseError::MalformedLiteral));
    assert_eq!(parse_color("rgb(1,2,3,4)"), Err(ColorParseError::MalformedLiteral));
    assert_eq!(parse_color("rgb(1,,3)"), Err(ColorParseError::MalformedLiteral));
    assert_eq!(parse_color("rgb(a,2,3)"), Err(ColorParseError::MalformedLiteral));
    assert_eq!(parse_color("rgba(1,2,3)"), Err(ColorParseError::MalformedLiteral));
    assert_eq!(parse_color("rgba(1,2,3,0.1234)"), Err(ColorParseError::MalformedLiteral));
}

#[test]
fn rejects_out_of_range_components() {
    assert_eq!(parse_color("rgb(256,0,0)"), Err(ColorParseError::OutOfRangeComponent));
    assert_eq!(parse_color("rgb(0,999,0)"), Err(ColorParseError::OutOfRangeComponent));
    assert_eq!(parse_color("rgba(0,0,0,1.5)"), Err(ColorParseError::OutOfRangeComponent));
    assert_eq!(parse_color("rgba(0,0,0,2)"), Err(ColorParseError::OutOfRangeComponent));
}

#[test]
fn never_clamps_or_defaults() {
    // a failing parse returns the error, not a substituted color
    assert!(parse_color("#zzzzzz").is_err());
    assert!(parse_color("rgb(300,300,300)").is_err());
}
