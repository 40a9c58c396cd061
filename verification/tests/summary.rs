use rss_reader::rss::{create_summary, try_create_summary};

#[test]
fn summary_strips_tags() {
    assert_eq!(create_summary("<p>Hello <b>world</b></p>"), "p Hello b world /b /p");
}

#[test]
fn summary_of_nothing_is_empty() {
    assert_eq!(create_summary(""), "");
    assert_eq!(create_summary("  \n\t <>"), "");
}

#[test]
fn summary_collapses_whitespace() {
    assert_eq!(create_summary("  a \n\n b\t\tc  "), "a b c");
}

#[test]
fn summary_keeps_a_hundred_words() {
    let html = vec!["w"; 150].join(" ");
    let expected = vec!["w"; 100].join(" ");
    assert_eq!(expected.len(), 199);
    assert_eq!(create_summary(&html), expected);
}

#[test]
fn summary_of_exactly_200_bytes_is_not_cut() {
    let html = "x".repeat(200);
    assert_eq!(create_summary(&html), html);
}

#[test]
fn summary_is_cut_after_200_bytes() {
    let html = "x".repeat(201);
    assert_eq!(create_summary(&html), format!("{}...", "x".repeat(200)));
    let words = vec!["abc"; 100].join(" ");
    assert_eq!(words.len(), 399);
    assert_eq!(create_summary(&words), format!("{}...", &words[..200]));
}

#[test]
fn summary_cut_at_a_character_boundary() {
    let html = "é".repeat(150);
    assert_eq!(try_create_summary(&html), Some(format!("{}...", "é".repeat(100))));
}

#[test]
fn summary_cut_inside_a_character_is_undefined() {
    let html = format!("x{}", "é".repeat(150));
    assert_eq!(try_create_summary(&html), None);
}
