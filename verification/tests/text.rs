use editrs::text::{
    char_is_control, chars_of, copy_of, cut, push_all, push_decimal, push_spaces, push_str,
};

fn t(s: &str) -> Vec<char> {
    s.chars().collect()
}

#[test]
fn decimal_of_zero_is_one_digit() {
    let mut out = Vec::new();
    push_decimal(&mut out, 0);
    assert_eq!(out, t("0"));
}

#[test]
fn decimal_has_no_leading_zero() {
    let mut out = Vec::new();
    push_decimal(&mut out, 10);
    assert_eq!(out, t("10"));
    let mut out = Vec::new();
    push_decimal(&mut out, 1234567890);
    assert_eq!(out, t("1234567890"));
    let mut out = Vec::new();
    push_decimal(&mut out, 907);
    assert_eq!(out, t("907"));
}

#[test]
fn decimal_of_the_largest_number() {
    let mut out = Vec::new();
    push_decimal(&mut out, u64::MAX);
    assert_eq!(out, t("18446744073709551615"));
}

#[test]
fn decimal_is_appended_to_what_is_there() {
    let mut out = t("n=");
    push_decimal(&mut out, 42);
    assert_eq!(out, t("n=42"));
}

#[test]
fn chars_of_keeps_every_character() {
    assert_eq!(chars_of("héllo ∀"), t("héllo ∀"));
    assert_eq!(chars_of(""), t(""));
}

#[test]
fn pushes_append_in_order() {
    let mut out = t("a");
    push_str(&mut out, "bc");
    push_all(&mut out, &t("de"));
    push_spaces(&mut out, 3);
    push_str(&mut out, "|");
    assert_eq!(out, t("abcde   |"));
    assert_eq!(copy_of(&out), out);
}

#[test]
fn cut_shortens_only_longer_text() {
    let mut s = t("hello");
    cut(&mut s, 3);
    assert_eq!(s, t("hel"));
    let mut s = t("hello");
    cut(&mut s, 5);
    assert_eq!(s, t("hello"));
    let mut s = t("hello");
    cut(&mut s, 9);
    assert_eq!(s, t("hello"));
    let mut s = t("hello");
    cut(&mut s, 0);
    assert_eq!(s, t(""));
}

#[test]
fn control_characters_are_the_two_ranges() {
    assert!(char_is_control('\0'));
    assert!(char_is_control('\n'));
    assert!(char_is_control('\t'));
    assert!(char_is_control('\u{1f}'));
    assert!(!char_is_control(' '));
    assert!(!char_is_control('a'));
    assert!(!char_is_control('~'));
    assert!(char_is_control('\u{7f}'));
    assert!(char_is_control('\u{9f}'));
    assert!(!char_is_control('\u{a0}'));
    assert!(!char_is_control('é'));
    for code in 0u32..0x300 {
        if let Some(c) = char::from_u32(code) {
            assert_eq!(char_is_control(c), c.is_control());
        }
    }
}
