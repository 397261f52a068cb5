use ddd_tool::text::{
    chars_le, chars_of, decimal_string, replace_all, same_text, text_contains, text_ends_with,
    text_starts_with, trim_start_all,
};

#[test]
fn replace_all_is_left_to_right_and_non_overlapping() {
    assert_eq!(replace_all("aaaa", "aa", "b"), "bb");
    assert_eq!(replace_all("aaa", "aa", "b"), "ba");
    assert_eq!(replace_all("Phrase0", "Phrase", "phrase"), "phrase0");
    assert_eq!(replace_all("xyz", "q", "w"), "xyz");
    assert_eq!(replace_all("", "q", "w"), "");
    assert_eq!(replace_all("中文中", "中", "z"), "z文z");
}

#[test]
fn search_and_affixes() {
    assert!(text_contains("hello {name}!", "{name}"));
    assert!(!text_contains("hello", "hello!"));
    assert!(text_contains("abc", ""));
    assert!(text_starts_with("index.md", "index"));
    assert!(!text_starts_with("in", "index"));
    assert!(text_ends_with("a.md", ".md"));
    assert!(!text_ends_with("a.mdx", ".md"));
    assert!(same_text("x", "x"));
    assert!(!same_text("x", "y"));
}

#[test]
fn trimming_repeated_prefixes() {
    assert_eq!(trim_start_all("ababc", "ab"), "c");
    assert_eq!(trim_start_all("abc", ""), "abc");
    assert_eq!(trim_start_all("xab", "ab"), "xab");
}

#[test]
fn decimal_text_of_numbers() {
    assert_eq!(decimal_string(0), "0");
    assert_eq!(decimal_string(7), "7");
    assert_eq!(decimal_string(10), "10");
    assert_eq!(decimal_string(18446744073709551615), "18446744073709551615");
}

#[test]
fn lexicographic_order_on_characters() {
    assert!(chars_le(&chars_of("abc"), &chars_of("abd")));
    assert!(chars_le(&chars_of("ab"), &chars_of("abc")));
    assert!(!chars_le(&chars_of("b"), &chars_of("abc")));
    assert!(chars_le(&chars_of(""), &chars_of("")));
    assert_eq!(chars_of("中a"), vec!['中', 'a']);
}
