use photo_frame::text::{
    chars_of, count_chars, decimal_string, push_decimal, push_hex, push_signed_decimal,
    push_zero_padded, str_eq, string_from_chars, string_from_range,
};

#[test]
fn numbers_are_written_in_decimal_and_hex() {
    assert_eq!(decimal_string(0), "0");
    assert_eq!(decimal_string(u64::MAX), "18446744073709551615");
    let mut s = String::from("n=");
    push_decimal(&mut s, 42);
    push_zero_padded(&mut s, 7, 3);
    push_hex(&mut s, 0xBEEF, 6);
    push_signed_decimal(&mut s, i64::MIN);
    assert_eq!(s, "n=4200700BEEF-9223372036854775808");
}

#[test]
fn zero_padding_never_truncates() {
    let mut s = String::new();
    push_zero_padded(&mut s, 123456, 3);
    assert_eq!(s, "123456");
}

#[test]
fn characters_round_trip() {
    let cs = chars_of("héllo");
    assert_eq!(cs.len(), 5);
    assert_eq!(count_chars("héllo"), 5);
    assert_eq!(string_from_chars(&cs), "héllo");
    assert_eq!(string_from_range(&cs, 1, 4), "éll");
    assert!(str_eq("abc", "abc"));
    assert!(!str_eq("abc", "abd"));
    assert!(!str_eq("abc", "ab"));
}
