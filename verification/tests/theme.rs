use egelm::theme::{Color, ColorError};

#[test]
fn colors_are_written_as_lowercase_hex() {
    assert_eq!(Color { r: 0xf9, g: 0xd5, b: 0x07 }.to_hex(), "#f9d507");
    assert_eq!(Color { r: 0, g: 0, b: 0 }.to_hex(), "#000000");
    assert_eq!(Color { r: 255, g: 255, b: 255 }.to_hex(), "#ffffff");
}

#[test]
fn colors_are_read_from_hex_of_either_case() {
    assert_eq!(Color::from_hex("#1B1b1C"), Ok(Color { r: 0x1b, g: 0x1b, b: 0x1c }));
    assert_eq!(Color::from_hex("#+f+f+f"), Ok(Color { r: 15, g: 15, b: 15 }));
}

#[test]
fn malformed_colors_are_refused() {
    assert_eq!(Color::from_hex("123456"), Err(ColorError::MissingHash));
    assert_eq!(Color::from_hex(""), Err(ColorError::MissingHash));
    assert_eq!(Color::from_hex("#12345"), Err(ColorError::WrongLength));
    assert_eq!(Color::from_hex("#1234567"), Err(ColorError::WrongLength));
    assert_eq!(Color::from_hex("#12345g"), Err(ColorError::InvalidDigit));
    assert_eq!(Color::from_hex("#é1234"), Err(ColorError::InvalidDigit));
    assert_eq!(ColorError::MissingHash.message(), "expected '#' prefix");
    assert_eq!(ColorError::WrongLength.message(), "expected 6 hexadecimal characters");
}

#[test]
fn written_colors_read_back() {
    for c in [Color { r: 1, g: 2, b: 3 }, Color { r: 0xab, g: 0xcd, b: 0xef }] {
        assert_eq!(Color::from_hex(&c.to_hex()), Ok(c));
    }
}

#[test]
fn texts_whose_channels_cut_a_character_are_recognised() {
    assert!(Color::would_split_character("#a\u{e9}123"));
    assert!(!Color::would_split_character("#\u{e9}1234"));
    assert!(!Color::would_split_character("#123456"));
    assert!(!Color::would_split_character("#12"));
}
