use homily::strings::{contains_str, file_name_of, pad_left, replace_char, replace_str, u64_to_dec};

#[test]
fn u64_to_dec_renders_decimal() {
    assert_eq!(u64_to_dec(0), "0");
    assert_eq!(u64_to_dec(7), "7");
    assert_eq!(u64_to_dec(10), "10");
    assert_eq!(u64_to_dec(90210), "90210");
    assert_eq!(u64_to_dec(u64::MAX), "18446744073709551615");
}

#[test]
fn pad_left_pads_to_width() {
    assert_eq!(pad_left("abc", 8), "     abc");
    assert_eq!(pad_left("abcdefgh", 8), "abcdefgh");
    assert_eq!(pad_left("abcdefghi", 8), "abcdefghi");
    assert_eq!(pad_left("", 3), "   ");
}

#[test]
fn replace_char_substitutes_every_occurrence() {
    assert_eq!(replace_char("a/b/c", '/', '_'), "a_b_c");
    assert_eq!(replace_char("abc", '/', '_'), "abc");
    assert_eq!(replace_char("", '/', '_'), "");
}

#[test]
fn contains_str_finds_substring() {
    assert!(contains_str("the teaser episode", "teaser"));
    assert!(!contains_str("the full episode", "teaser"));
    assert!(contains_str("abc", ""));
    assert!(!contains_str("ab", "abc"));
    assert!(contains_str("abc", "abc"));
}

#[test]
fn replace_str_replaces_left_to_right() {
    assert_eq!(replace_str("a itunes:title b", "itunes:title", "itunes-title"), "a itunes-title b");
    assert_eq!(replace_str("x & y & z", "& ", "&amp; "), "x &amp; y &amp; z");
    assert_eq!(replace_str("aaa", "aa", "b"), "ba");
    assert_eq!(replace_str("abc", "zz", "y"), "abc");
}

#[test]
fn file_name_of_takes_last_path_component() {
    assert_eq!(file_name_of("folder/show.mp3"), "show.mp3");
    assert_eq!(file_name_of("a/b/c.rss"), "c.rss");
    assert_eq!(file_name_of("plain.mp3"), "plain.mp3");
    assert_eq!(file_name_of(""), "");
}
