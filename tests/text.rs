use bingwallpaper::text::{push_decimal, push_padded_decimal, replace_all, same_text, split_words, starts_with};

#[test]
fn decimal_numbers() {
    let mut s = String::from("n=");
    push_decimal(&mut s, 0);
    assert_eq!(s, "n=0");
    let mut s = String::new();
    push_decimal(&mut s, 1920);
    assert_eq!(s, "1920");
    let mut s = String::new();
    push_decimal(&mut s, u128::MAX);
    assert_eq!(s, u128::MAX.to_string());
    let mut s = String::new();
    push_padded_decimal(&mut s, 7, 2);
    assert_eq!(s, "07");
    let mut s = String::new();
    push_padded_decimal(&mut s, 123, 2);
    assert_eq!(s, "123");
}

#[test]
fn replacing_takes_occurrences_from_the_left() {
    assert_eq!(replace_all("aaa", "aa", "b"), "ba");
    assert_eq!(replace_all("x{a}y{a}", "{a}", "--"), "x--y--");
    assert_eq!(replace_all("none here", "{a}", "--"), "none here");
    assert_eq!(replace_all("", "{a}", "--"), "");
    assert_eq!(replace_all("é{a}é", "{a}", "ü"), "éüé");
}

#[test]
fn words_are_split_on_unicode_white_space() {
    assert_eq!(split_words("  a  bc\td\n"), vec!["a", "bc", "d"]);
    assert_eq!(split_words("x\u{3000}y\u{a0}z"), vec!["x", "y", "z"]);
    assert!(split_words(" \t ").is_empty());
    assert!(split_words("").is_empty());
}

#[test]
fn prefixes_and_equality() {
    assert!(starts_with("/tmp/._w.jpg_20240101", "/tmp/._w.jpg_"));
    assert!(!starts_with("/tmp/w.jpg", "/tmp/._w.jpg_"));
    assert!(starts_with("abc", ""));
    assert!(same_text("abc", "abc"));
    assert!(!same_text("abc", "abcd"));
    assert!(!same_text("abd", "abc"));
}
