use rss_reader::text::{
    chars_of, concat2, concat3, contains_chars, digit_str, ends_with_chars, is_whitespace,
    matches_at, trim_bounds,
};

fn cs(s: &str) -> Vec<char> {
    s.chars().collect()
}

#[test]
fn whitespace_is_what_std_says() {
    let mut c = 0u32;
    while c <= 0x10FFFF {
        if let Some(ch) = char::from_u32(c) {
            assert_eq!(is_whitespace(ch), ch.is_whitespace(), "U+{:04X}", c);
        }
        c += 1;
    }
}

#[test]
fn chars_are_listed_in_order() {
    assert_eq!(chars_of("aé名😀"), vec!['a', 'é', '名', '😀']);
    assert_eq!(chars_of(""), Vec::<char>::new());
}

#[test]
fn trimming_bounds() {
    assert_eq!(trim_bounds(&cs("  ab c \n")), (2, 6));
    assert_eq!(trim_bounds(&cs("abc")), (0, 3));
    assert_eq!(trim_bounds(&cs("   ")), (3, 3));
    assert_eq!(trim_bounds(&cs("")), (0, 0));
}

#[test]
fn matching_at_an_index() {
    assert!(matches_at(&cs("hello"), &cs("ell"), 1));
    assert!(!matches_at(&cs("hello"), &cs("ell"), 2));
    assert!(matches_at(&cs("hello"), &cs(""), 5));
    assert!(!matches_at(&cs("hello"), &cs(""), 6));
    assert!(!matches_at(&cs("hello"), &cs("lo!"), 3));
    assert!(!matches_at(&cs("hello"), &cs("x"), usize::MAX));
}

#[test]
fn searching() {
    for (hay, needle) in [
        ("", ""),
        ("a", ""),
        ("", "a"),
        ("abc", "abc"),
        ("abc", "abcd"),
        ("aab", "ab"),
        ("abab", "bab"),
        ("https://api.openai.com/v1", "openai"),
        ("https://api.open-ai.com", "openai"),
        ("xyz", "z"),
        ("xyz", "x"),
    ] {
        assert_eq!(contains_chars(&cs(hay), &cs(needle)), hay.contains(needle), "{:?}", (hay, needle));
        assert_eq!(ends_with_chars(&cs(hay), &cs(needle)), hay.ends_with(needle), "{:?}", (hay, needle));
    }
}

#[test]
fn joining() {
    assert_eq!(concat2("ab", "cd"), "abcd");
    assert_eq!(concat3("a", "", "c"), "ac");
}

#[test]
fn digits() {
    for d in 0..10u64 {
        assert_eq!(digit_str(d), d.to_string());
    }
}
