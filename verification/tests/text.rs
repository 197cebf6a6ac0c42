use bitunix::text::{
    chars_of, glue, contains_str, hex_lower, i64_to_decimal, remove_spaces, string_of, trim_end_matches,
    trim_start_matches, u64_to_decimal,
};

#[test]
fn decimal_rendering() {
    assert_eq!(u64_to_decimal(0), "0");
    assert_eq!(u64_to_decimal(10), "10");
    assert_eq!(u64_to_decimal(u64::MAX), "18446744073709551615");
    assert_eq!(i64_to_decimal(-1), "-1");
    assert_eq!(i64_to_decimal(i64::MIN), "-9223372036854775808");
    assert_eq!(i64_to_decimal(i64::MAX), "9223372036854775807");
    assert_eq!(i64_to_decimal(1700000000000), "1700000000000");
}

#[test]
fn hex_rendering() {
    assert_eq!(hex_lower(&[0x00, 0x0f, 0xab, 0xff]), "000fabff");
    assert_eq!(hex_lower(&[]), "");
}

#[test]
fn trimming() {
    assert_eq!(trim_end_matches("a//", '/'), "a");
    assert_eq!(trim_end_matches("///", '/'), "");
    assert_eq!(trim_start_matches("//a/", '/'), "a/");
    assert_eq!(trim_start_matches("", '/'), "");
}

#[test]
fn spaces_and_search() {
    assert_eq!(remove_spaces(" a b  c "), "abc");
    assert!(contains_str("{\"op\":\"pong\"}", "\"pong\""));
    assert!(!contains_str("pong", "\"pong\""));
    assert!(contains_str("abc", ""));
    assert!(!contains_str("", "a"));
}

#[test]
fn chars_round_trip() {
    let cs = chars_of("héllo");
    assert_eq!(cs, vec!['h', 'é', 'l', 'l', 'o']);
    assert_eq!(string_of(&cs), "héllo");
    assert_eq!(glue("ab", "cd"), "abcd");
}
