use bgpstream::text::{array_to_string, contains_nul};
use bgpstream::BgpStreamError;

#[test]
fn name_ends_at_the_first_nul() {
    let mut buffer = [0u8; 32];
    buffer[..10].copy_from_slice(b"routeviews");
    assert_eq!(array_to_string(&buffer), Ok("routeviews".to_string()));
}

#[test]
fn bytes_after_the_first_nul_never_count() {
    let buffer = b"rrc00\0garbage\0\xff\xfe";
    assert_eq!(array_to_string(buffer), Ok("rrc00".to_string()));
}

#[test]
fn a_buffer_without_nul_is_read_whole() {
    assert_eq!(array_to_string(b"ris"), Ok("ris".to_string()));
}

#[test]
fn empty_names() {
    assert_eq!(array_to_string(b""), Ok(String::new()));
    assert_eq!(array_to_string(b"\0abc"), Ok(String::new()));
}

#[test]
fn multi_byte_text_is_decoded() {
    let buffer = "z\u{fc}rich\0".as_bytes();
    assert_eq!(array_to_string(buffer), Ok("z\u{fc}rich".to_string()));
}

#[test]
fn invalid_utf8_before_the_nul_is_invalid_text() {
    assert_eq!(array_to_string(b"ab\xffcd\0"), Err(BgpStreamError::InvalidText));
    assert_eq!(array_to_string(b"\xc3"), Err(BgpStreamError::InvalidText));
}

#[test]
fn nul_characters_are_found() {
    assert!(!contains_nul(""));
    assert!(!contains_nul("route-views.amsix"));
    assert!(contains_nul("\0"));
    assert!(contains_nul("abc\0"));
    assert!(contains_nul("a\0bc"));
    assert!(!contains_nul("z\u{fc}rich"));
}
