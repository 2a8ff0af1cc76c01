use viewarr::text::{ascii_lower_char, chars_equal, chars_of, is_whitespace_char};

#[test]
fn whitespace_matches_char_is_whitespace() {
    for u in 0u32..0x3100 {
        if let Some(c) = char::from_u32(u) {
            assert_eq!(is_whitespace_char(c), c.is_whitespace(), "U+{u:04X}");
        }
    }
}

#[test]
fn ascii_lowering_matches_std() {
    for u in 0u32..0x250 {
        if let Some(c) = char::from_u32(u) {
            assert_eq!(ascii_lower_char(c), c.to_ascii_lowercase(), "U+{u:04X}");
        }
    }
}

#[test]
fn chars_of_and_equality() {
    assert_eq!(chars_of("RdYlBu"), vec!['R', 'd', 'Y', 'l', 'B', 'u']);
    assert_eq!(chars_of("é\u{3000}x"), vec!['é', '\u{3000}', 'x']);
    assert!(chars_of("").is_empty());
    assert!(chars_equal(&['a', 'b'], &['a', 'b']));
    assert!(!chars_equal(&['a', 'b'], &['a', 'c']));
    assert!(!chars_equal(&['a'], &['a', 'b']));
}
