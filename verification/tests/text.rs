use rustgl::text::{contains_nul, read_log};

#[test]
fn contains_nul_finds_a_zero_byte_anywhere() {
    assert!(!contains_nul(""));
    assert!(!contains_nul("void main() {}"));
    assert!(contains_nul("\0"));
    assert!(contains_nul("\0void"));
    assert!(contains_nul("void\0main"));
    assert!(contains_nul("void main\0"));
}

#[test]
fn contains_nul_is_not_misled_by_long_characters() {
    assert!(!contains_nul("gr\u{fc}n \u{20ac} \u{1f600}"));
    assert!(contains_nul("gr\u{fc}n\0"));
}

#[test]
fn a_log_is_read_up_to_its_terminator() {
    assert_eq!(read_log(b"0:1(1): error\n\0"), "0:1(1): error\n");
    assert_eq!(read_log(b"\0"), "");
    assert_eq!(read_log(&[0xC3, 0xBC, 0x00]), "\u{fc}");
    assert_eq!(read_log(&[0xE2, 0x82, 0xAC, 0x00]), "\u{20ac}");
}

#[test]
fn what_follows_the_terminator_is_left_out() {
    assert_eq!(read_log(b"bad\0\0\0\0"), "bad");
    assert_eq!(read_log(b"bad\0worse\0"), "bad");
    assert_eq!(read_log(b"\0bad\0"), "");
    assert_eq!(read_log(&[b'o', b'k', 0x00, 0xFF, 0xFE]), "ok");
}

#[test]
fn a_log_without_terminator_is_read_whole() {
    assert_eq!(read_log(b""), "");
    assert_eq!(read_log(b"abcd"), "abcd");
    assert_eq!(read_log(&[0x67, 0x72, 0xC3, 0xBC, 0x6E]), "gr\u{fc}n");
}

#[test]
fn bytes_that_are_not_utf8_are_replaced() {
    assert_eq!(read_log(&[b'a', 0xFF, b'b', 0x00]), "a\u{fffd}b");
    assert_eq!(read_log(&[0xFF]), "\u{fffd}");
    assert_eq!(read_log(&[b'a', 0xC3]), "a\u{fffd}");
    assert_eq!(read_log(&[0xC0, 0x80, 0x00]), "\u{fffd}\u{fffd}");
    assert_eq!(read_log(&[0xED, 0xA0, 0x80]), "\u{fffd}\u{fffd}\u{fffd}");
}
