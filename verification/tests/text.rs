use auv::text::{find_bytes, push_decimal, push_decimal2, starts_with, white_space};

#[test]
fn white_space_is_that_of_unicode() {
    for code in 0..0x11_0000u32 {
        if let Some(c) = char::from_u32(code) {
            assert_eq!(white_space(c), c.is_whitespace());
        }
    }
}

#[test]
fn numbers_are_written_in_decimal() {
    for value in [0u64, 7, 10, 99, 100, 65_536, u64::MAX] {
        let mut plain = String::from("<");
        push_decimal(&mut plain, value);
        assert_eq!(plain, format!("<{}", value));
        let mut padded = String::new();
        push_decimal2(&mut padded, value);
        assert_eq!(padded, format!("{:02}", value));
    }
}

#[test]
fn prefixes_and_parts_are_found() {
    assert!(starts_with("https://x", "https://"));
    assert!(!starts_with("http", "http://"));
    assert!(starts_with("x", ""));
    assert!(find_bytes(&b"say ok".to_vec(), b"ok"));
    assert!(!find_bytes(&b"o k".to_vec(), b"ok"));
    assert!(find_bytes(&Vec::new(), b""));
}
