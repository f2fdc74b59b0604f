use bedrock_ws::text::{
    chars_of, decimal_text, digit_text, find_char_in, find_pair_in, signed_decimal_text, slice_text,
};

#[test]
fn decimal_text_writes_numbers_without_leading_zeros() {
    assert_eq!(decimal_text(0), "0");
    assert_eq!(decimal_text(7), "7");
    assert_eq!(decimal_text(10), "10");
    assert_eq!(decimal_text(4294967295), "4294967295");
    assert_eq!(decimal_text(u64::MAX), "18446744073709551615");
}

#[test]
fn signed_decimal_text_writes_the_sign() {
    assert_eq!(signed_decimal_text(0), "0");
    assert_eq!(signed_decimal_text(-1), "-1");
    assert_eq!(signed_decimal_text(-2147483648), "-2147483648");
    assert_eq!(signed_decimal_text(i64::MIN), "-9223372036854775808");
    assert_eq!(signed_decimal_text(i64::MAX), "9223372036854775807");
}

#[test]
fn digit_text_names_each_digit() {
    let all: Vec<&str> = (0..10).map(digit_text).collect();
    assert_eq!(all, vec!["0", "1", "2", "3", "4", "5", "6", "7", "8", "9"]);
}

#[test]
fn chars_of_and_slice_text_count_characters() {
    let text = "a\u{e9}b\u{1f600}c";
    assert_eq!(chars_of(text), vec!['a', '\u{e9}', 'b', '\u{1f600}', 'c']);
    assert_eq!(slice_text(text, 1, 4), "\u{e9}b\u{1f600}");
    assert_eq!(slice_text(text, 2, 2), "");
    assert_eq!(slice_text(text, 0, 5), text);
}

#[test]
fn find_char_in_gives_the_first_position_or_the_length() {
    let chars = chars_of("ab cd e");
    assert_eq!(find_char_in(&chars, ' ', 0), 2);
    assert_eq!(find_char_in(&chars, ' ', 2), 2);
    assert_eq!(find_char_in(&chars, ' ', 3), 5);
    assert_eq!(find_char_in(&chars, ' ', 6), 7);
    assert_eq!(find_char_in(&chars, 'z', 0), 7);
    assert_eq!(find_char_in(&chars, 'a', 7), 7);
}

#[test]
fn find_pair_in_stays_before_the_limit() {
    let chars = chars_of("k: t: u");
    assert_eq!(find_pair_in(&chars, ':', ' ', 0, 7), 1);
    assert_eq!(find_pair_in(&chars, ':', ' ', 2, 7), 4);
    assert_eq!(find_pair_in(&chars, ':', ' ', 2, 5), 5);
    assert_eq!(find_pair_in(&chars, ':', ' ', 0, 2), 2);
    assert_eq!(find_pair_in(&chars, ':', ' ', 5, 7), 7);
}
