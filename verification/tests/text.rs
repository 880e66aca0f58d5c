//! Fixed-length text fields: the bytes before the first NUL become the
//! text; a field without a NUL inside its bound fails to decode.

use ossaudio::c_chars_to_string;

#[test]
fn nul_terminated_text() {
    let field = [b'h', b'e', b'l', b'l', b'o', 0, b'x', b'y'];
    assert_eq!(c_chars_to_string(&field), Some(String::from("hello")));
}

#[test]
fn text_stops_at_first_nul() {
    let field = [b'a', b'b', 0, b'c', 0, b'd'];
    assert_eq!(c_chars_to_string(&field), Some(String::from("ab")));
}

#[test]
fn nul_at_start_is_empty_text() {
    let field = [0u8, b'q', b'r'];
    assert_eq!(c_chars_to_string(&field), Some(String::new()));
}

#[test]
fn no_nul_is_a_decode_failure() {
    let field = [b'f', b'u', b'l', b'l'];
    assert_eq!(c_chars_to_string(&field), None);
}

#[test]
fn empty_field_is_a_decode_failure() {
    let field: [u8; 0] = [];
    assert_eq!(c_chars_to_string(&field), None);
}

#[test]
fn invalid_utf8_before_nul_is_a_decode_failure() {
    let field = [0xff, 0xfe, 0, 0];
    assert_eq!(c_chars_to_string(&field), None);
}

#[test]
fn multibyte_utf8_text_decodes() {
    // "é" is 0xc3 0xa9 in UTF-8.
    let field = [0xc3, 0xa9, 0, 0];
    assert_eq!(c_chars_to_string(&field), Some(String::from("\u{e9}")));
}
