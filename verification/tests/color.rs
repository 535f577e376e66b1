use serde_json::Value;
use streamdeck_rs::color::{Color, ColorError};

#[test]
fn color() {
    let color_a = Color::Rgb {
        r: 0x12,
        g: 0x34,
        b: 0x56,
    };
    let color_b = Color::Rgba {
        r: 0x12,
        g: 0x12,
        b: 0x12,
        a: 0x12,
    };

    let as_json = r##"["#123456","#12121212"]"##;
    let parsed: Value = serde_json::from_str(as_json).expect("array of colors");
    let colors: Vec<Color> = parsed
        .as_array()
        .expect("array of colors")
        .iter()
        .map(|v| Color::from_json(v).expect("array of colors"))
        .collect();

    assert_eq!(2, colors.len());
    assert_eq!(color_a, colors[0]);
    assert_eq!(color_b, colors[1]);

    let json_str: String =
        serde_json::to_string(&Value::from(vec![color_a.to_value(), color_b.to_value()]))
            .expect("JSON array");
    assert_eq!(as_json, json_str);
}

#[test]
fn color_text_is_lower_case_hex() {
    assert_eq!(Color::Rgb { r: 0, g: 0xab, b: 0xff }.to_text(), "#00abff");
    assert_eq!(Color::Rgba { r: 1, g: 2, b: 3, a: 0xf0 }.to_text(), "#010203f0");
}

#[test]
fn color_parse_accepts_both_cases() {
    assert_eq!(Color::parse("#ABCDEF"), Ok(Color::Rgb { r: 0xab, g: 0xcd, b: 0xef }));
    assert_eq!(Color::parse("#abcdef"), Ok(Color::Rgb { r: 0xab, g: 0xcd, b: 0xef }));
}

#[test]
fn color_round_trip_keeps_the_form() {
    let rgb = Color::Rgb { r: 7, g: 8, b: 9 };
    let rgba = Color::Rgba { r: 7, g: 8, b: 9, a: 0 };
    assert_eq!(Color::parse(&rgb.to_text()), Ok(rgb));
    assert_eq!(Color::parse(&rgba.to_text()), Ok(rgba));
    assert_ne!(Color::parse(&rgba.to_text()), Ok(rgb));
}

#[test]
fn color_rejects_wrong_length() {
    assert_eq!(Color::parse(""), Err(ColorError::InvalidLength(0)));
    assert_eq!(Color::parse("#12345"), Err(ColorError::InvalidLength(6)));
    assert_eq!(Color::parse("#1234567"), Err(ColorError::InvalidLength(8)));
    assert_eq!(Color::parse("#123456789"), Err(ColorError::InvalidLength(10)));
}

#[test]
fn color_rejects_missing_hash() {
    assert_eq!(Color::parse("1234567"), Err(ColorError::MissingHash));
    assert_eq!(Color::parse("123456789"), Err(ColorError::MissingHash));
}

#[test]
fn color_rejects_bad_digits() {
    assert_eq!(Color::parse("#12345g"), Err(ColorError::InvalidComponent));
    assert_eq!(Color::parse("#+1+2+3"), Err(ColorError::InvalidComponent));
    assert_eq!(Color::parse("#1234567g"), Err(ColorError::InvalidComponent));
}

#[test]
fn color_is_read_from_strings_only() {
    assert_eq!(Color::from_json(&Value::from(123456u64)), None);
    assert_eq!(Color::from_json(&Value::from("#zzzzzz")), None);
    assert_eq!(
        Color::from_json(&Value::from("#000000")),
        Some(Color::Rgb { r: 0, g: 0, b: 0 })
    );
}
