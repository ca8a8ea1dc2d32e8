use asset_access::text::{
    chars_of, contains, decimal_text, last_segment_of, push_decimal, remove_all,
};

#[test]
fn decimal_has_no_leading_zeros() {
    assert_eq!(decimal_text(0), "0");
    assert_eq!(decimal_text(7), "7");
    assert_eq!(decimal_text(10), "10");
    assert_eq!(decimal_text(200), "200");
    assert_eq!(decimal_text(1234567890), "1234567890");
    assert_eq!(decimal_text(usize::MAX), usize::MAX.to_string());
}

#[test]
fn push_decimal_appends() {
    let mut out = String::from("w=");
    push_decimal(&mut out, 640);
    assert_eq!(out, "w=640");
}

#[test]
fn chars_are_taken_in_order() {
    assert_eq!(chars_of("a/é/✓"), vec!['a', '/', 'é', '/', '✓']);
    assert_eq!(chars_of(""), vec![]);
}

#[test]
fn contains_finds_substrings() {
    assert!(contains("/assets/update/1", "/update/"));
    assert!(contains("upload", "upload"));
    assert!(contains("anything", ""));
    assert!(contains("", ""));
    assert!(!contains("", "a"));
    assert!(!contains("/assets/updat/e/", "/update/"));
    assert!(!contains("up", "upload"));
    assert!(contains("aab", "ab"));
    assert!(contains("xé✓y", "✓y"));
}

#[test]
fn last_segment_follows_the_last_slash() {
    assert_eq!(last_segment_of("/assets/update/abc"), "abc");
    assert_eq!(last_segment_of("abc"), "abc");
    assert_eq!(last_segment_of("/assets/update/"), "");
    assert_eq!(last_segment_of(""), "");
    assert_eq!(last_segment_of("/"), "");
    assert_eq!(last_segment_of("a/b/c?d=e"), "c?d=e");
}

#[test]
fn remove_all_takes_occurrences_from_the_left() {
    assert_eq!(remove_all("https://nyc3.example.com", "https://"), "nyc3.example.com");
    assert_eq!(remove_all("aXbXc", "X"), "abc");
    assert_eq!(remove_all("aaa", "aa"), "a");
    assert_eq!(remove_all("ababa", "aba"), "ba");
    assert_eq!(remove_all("abc", ""), "abc");
    assert_eq!(remove_all("", "abc"), "");
    assert_eq!(remove_all("abc", "abc"), "");
    assert_eq!(remove_all("ab", "abc"), "ab");
}

#[test]
fn remove_all_agrees_with_replace() {
    let texts = ["", "a", "aa", "aaa", "aaaa", "abab", "ababab", "xaay", "https://a.https://b", "é✓é"];
    let patterns = ["a", "aa", "ab", "ba", "https://", "é", "✓é"];
    for text in texts {
        for pattern in patterns {
            assert_eq!(remove_all(text, pattern), text.replace(pattern, ""));
        }
    }
}
