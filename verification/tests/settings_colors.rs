use lib::color_scheme::{format_color, parse_color, Color, ColorSchemeParseError};

#[test]
fn scheme_colors_read_six_hex_digits() {
    assert_eq!(parse_color("#0C0c1F"), Ok(Color::rgb(0x0c, 0x0c, 0x1f)));
    assert_eq!(parse_color("#+a+b+c"), Err(ColorSchemeParseError::InvalidColor));
    assert_eq!(parse_color("0C0C1F"), Err(ColorSchemeParseError::InvalidColor));
    assert_eq!(parse_color("#0C0C1F00"), Err(ColorSchemeParseError::InvalidColor));
    assert_eq!(parse_color("#0C0C1G"), Err(ColorSchemeParseError::InvalidColor));
    assert_eq!(parse_color("#ééé"), Err(ColorSchemeParseError::InvalidColor));
}

#[test]
fn scheme_colors_write_upper_case_and_read_back() {
    let color = Color { r: 0xab, g: 0x05, b: 0xf0, a: 7 };
    assert_eq!(format_color(color), "#AB05F0");
    assert_eq!(parse_color(&format_color(color)), Ok(Color::rgb(0xab, 0x05, 0xf0)));
}
