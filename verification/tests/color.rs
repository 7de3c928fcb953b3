use termal::color::{Color, ColorError};

#[test]
fn color_from_notation() {
    assert_eq!(Color::from_str("cc-24-1d"), Ok(Color::new(0xcc, 0x24, 0x1d)));
    assert_eq!(Color::from_str("d7-e0-da"), Ok(Color::new(0xd7, 0xe0, 0xda)));
    assert_eq!(Color::from_str("0D-16-17"), Ok(Color::new(0x0d, 0x16, 0x17)));
    assert_eq!(Color::from_str("+f-0-00000000000000000000a"), Ok(Color::new(15, 0, 10)));
    assert_eq!(
        Color::from_str("ffffffffffffffff-1-2"),
        Ok(Color::new(u64::MAX, 1, 2))
    );
}

#[test]
fn empty_text_is_black() {
    assert_eq!(Color::from_str(""), Ok(Color::new(0, 0, 0)));
}

#[test]
fn color_format_errors() {
    assert_eq!(Color::from_str("cc-24"), Err(ColorError::Format));
    assert_eq!(Color::from_str("cc"), Err(ColorError::Format));
    assert_eq!(Color::from_str("cc-24-1d-00"), Err(ColorError::Format));
    assert_eq!(Color::from_str("--"), Err(ColorError::Empty));
    assert_eq!(Color::from_str("cc--1d"), Err(ColorError::Empty));
    assert_eq!(Color::from_str("cc-2g-1d"), Err(ColorError::InvalidDigit));
    assert_eq!(Color::from_str("+-1-1"), Err(ColorError::InvalidDigit));
    assert_eq!(Color::from_str(" 1-1-1"), Err(ColorError::InvalidDigit));
    assert_eq!(Color::from_str("1-1-é"), Err(ColorError::InvalidDigit));
    assert_eq!(Color::from_str("10000000000000000-1-1"), Err(ColorError::Overflow));
    assert_eq!(Color::from_str("fffffffffffffffffg-1-1"), Err(ColorError::Overflow));
    // The first field that is no number decides.
    assert_eq!(Color::from_str("x--10000000000000000"), Err(ColorError::InvalidDigit));
    assert_eq!(Color::from_str("1--x"), Err(ColorError::Empty));
}

#[test]
fn color_agrees_with_std_parsing() {
    for text in ["0", "ff", "+ff", "FF", "", "+", "-1", "1_0", "g", "00ff", "123456789abcdef01"] {
        let ours = Color::from_str(&format!("{}-0-0", text)).map(|c| c.r).ok();
        if text.contains('-') {
            continue;
        }
        let std = u64::from_str_radix(text, 16).ok();
        assert_eq!(ours, std, "{}", text);
    }
}

#[test]
fn color_encode() {
    assert_eq!(Color::new(0xcc, 0x24, 0x1d).encode(), 0xcc241d);
    assert_eq!(Color::new(0, 0, 0).encode(), 0);
    assert_eq!(Color::new(255, 255, 255).encode(), 0xffffff);
    assert_eq!(Color::new(1, 2, 3).encode(), 3 + (2 << 8) + (1 << 16));
    assert!(Color::new(255, 0, 1).fits());
    assert!(!Color::new(256, 0, 1).fits());
}

#[test]
fn color_hex() {
    assert_eq!(Color::new(0xcc, 0x24, 0x1d).hex(), "#cc241d");
    assert_eq!(Color::new(0, 1, 15).hex(), "#00010f");
    assert_eq!(Color::new(256, 16, 0xabcdef).hex(), "#10010abcdef");
    assert_eq!(
        Color::new(u64::MAX, 0, 0).hex(),
        format!("#{:02x}{:02x}{:02x}", u64::MAX, 0, 0)
    );
}
