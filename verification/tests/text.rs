use flow_core::text::{decimal_string, push_debug_quoted, push_hex_upper};

#[test]
fn decimal_of_small_and_large_numbers() {
    assert_eq!(decimal_string(0), "0");
    assert_eq!(decimal_string(7), "7");
    assert_eq!(decimal_string(10), "10");
    assert_eq!(decimal_string(1234), "1234");
    assert_eq!(decimal_string(u64::MAX), u64::MAX.to_string());
}

#[test]
fn hex_is_upper_case_without_leading_zeros() {
    for n in [0u64, 9, 10, 15, 16, 255, 0xC0FFEE, 0xC009, u64::MAX] {
        let mut s = String::from(">");
        push_hex_upper(&mut s, n);
        assert_eq!(s, format!(">{:X}", n));
    }
}

#[test]
fn debug_quoting_matches_format() {
    for s in ["plain", "back\\slash", "\"q\"", "it's", "\u{1F600} smile", "\u{200B}zero width", "\x1b[0m"] {
        let mut r = String::new();
        push_debug_quoted(&mut r, s);
        assert_eq!(r, format!("{:?}", std::path::Path::new(s).display()));
    }
}
