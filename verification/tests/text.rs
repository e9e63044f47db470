use launcher_updater::text::{decimal_text, hex_text};

#[test]
fn numbers_are_rendered_in_decimal() {
    assert_eq!(decimal_text(0), "0");
    assert_eq!(decimal_text(9), "9");
    assert_eq!(decimal_text(10), "10");
    assert_eq!(decimal_text(1_000_203), "1000203");
    assert_eq!(decimal_text(u64::MAX), "18446744073709551615");
}

#[test]
fn bytes_are_rendered_in_lower_case_hex() {
    assert_eq!(hex_text(&[]), "");
    assert_eq!(hex_text(&[0x00, 0x0f, 0xa0, 0xff]), "000fa0ff");
    assert_eq!(hex_text(&[0x09, 0x9a]), "099a");
}

#[test]
fn hex_text_has_two_digits_for_each_byte() {
    let all: Vec<u8> = (0..=255).collect();
    let text = hex_text(&all);
    assert_eq!(text.len(), 512);
    assert!(text.chars().all(|c| c.is_ascii_digit() || ('a'..='f').contains(&c)));
}

#[test]
fn different_bytes_have_different_hex_text() {
    assert_ne!(hex_text(&[0x01, 0x10]), hex_text(&[0x11, 0x00]));
    assert_ne!(hex_text(&[0x01]), hex_text(&[0x01, 0x00]));
}
