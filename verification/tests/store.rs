use rss_reader::db::{
    article_row, articles_query, feed_row, feed_subscribed, flag_value, new_feed, Article,
    ArticleFilter, Feed,
};
use rss_reader::text::{i64_to_string, u64_to_string};

const SELECT: &str = "SELECT id, feed_id, title, link, content, summary, author, pub_date, is_read, is_starred, fetched_at FROM articles";
const PAGE: &str = " ORDER BY pub_date DESC LIMIT ? OFFSET ?";

#[test]
fn filter_names() {
    assert_eq!(ArticleFilter::from_name("unread"), ArticleFilter::Unread);
    assert_eq!(ArticleFilter::from_name("starred"), ArticleFilter::Starred);
    assert_eq!(ArticleFilter::from_name("all"), ArticleFilter::All);
    assert_eq!(ArticleFilter::from_name("Unread"), ArticleFilter::All);
    assert_eq!(ArticleFilter::from_name(""), ArticleFilter::All);
}

#[test]
fn listing_of_everything() {
    let q = articles_query(None, None, 50, 0);
    assert_eq!(q.sql, format!("{}{}", SELECT, PAGE));
    assert_eq!(q.params, vec!["50", "0"]);
    let q = articles_query(None, Some("all".to_string()), 50, 0);
    assert_eq!(q.sql, format!("{}{}", SELECT, PAGE));
}

#[test]
fn listing_of_one_feed() {
    let q = articles_query(Some("f1".to_string()), None, 10, 20);
    assert_eq!(q.sql, format!("{} WHERE feed_id = ?{}", SELECT, PAGE));
    assert_eq!(q.params, vec!["f1", "10", "20"]);
}

#[test]
fn listing_with_filter() {
    let q = articles_query(None, Some("unread".to_string()), 10, 0);
    assert_eq!(q.sql, format!("{} WHERE is_read = 0{}", SELECT, PAGE));
    assert_eq!(q.params, vec!["10", "0"]);
    let q = articles_query(None, Some("starred".to_string()), 10, 0);
    assert_eq!(q.sql, format!("{} WHERE is_starred = 1{}", SELECT, PAGE));
}

#[test]
fn listing_of_one_feed_with_filter() {
    let q = articles_query(Some("f1".to_string()), Some("starred".to_string()), -1, i64::MIN);
    assert_eq!(q.sql, format!("{} WHERE feed_id = ? AND is_starred = 1{}", SELECT, PAGE));
    assert_eq!(q.params, vec!["f1", "-1", "-9223372036854775808"]);
}

#[test]
fn integers_are_written_in_decimal() {
    for n in [0i64, 1, 9, 10, 11, 99, 100, 12345, -1, -10, i64::MAX, i64::MIN] {
        assert_eq!(i64_to_string(n), n.to_string());
    }
    for n in [0u64, 7, 10, 1234567890, u64::MAX] {
        assert_eq!(u64_to_string(n), n.to_string());
    }
}

#[test]
fn flags_are_stored_as_numbers() {
    assert_eq!(flag_value(true), 1);
    assert_eq!(flag_value(false), 0);
}

#[test]
fn article_row_in_column_order() {
    let a = Article {
        id: "id".to_string(),
        feed_id: "feed".to_string(),
        title: "title".to_string(),
        link: "link".to_string(),
        content: "content".to_string(),
        summary: Some("summary".to_string()),
        author: None,
        pub_date: None,
        is_read: 0,
        is_starred: 1,
        fetched_at: 1700000000,
    };
    assert_eq!(
        article_row(&a, 55),
        vec![
            "id", "feed", "title", "link", "content", "summary", "", "55", "0", "1", "1700000000"
        ]
    );
    let dated = Article { pub_date: Some(-3), author: Some("me".to_string()), summary: None, ..a };
    assert_eq!(
        article_row(&dated, 55),
        vec!["id", "feed", "title", "link", "content", "", "me", "-3", "0", "1", "1700000000"]
    );
}

#[test]
fn feed_row_in_column_order() {
    let f = Feed {
        id: "id".to_string(),
        title: "title".to_string(),
        url: "url".to_string(),
        description: None,
        image_url: Some("ignored".to_string()),
        category: Some("news".to_string()),
        created_at: 1,
        updated_at: 2,
    };
    assert_eq!(feed_row(&f), vec!["id", "title", "url", "", "news", "1", "2"]);
}

#[test]
fn subscribed_feed_is_assembled() {
    let f = feed_subscribed(
        "id".to_string(),
        "title".to_string(),
        "url".to_string(),
        Some("d".to_string()),
        None,
        77,
    );
    assert_eq!(f.id, "id");
    assert_eq!(f.title, "title");
    assert_eq!(f.url, "url");
    assert_eq!(f.description.as_deref(), Some("d"));
    assert_eq!(f.image_url, None);
    assert_eq!(f.category, None);
    assert_eq!(f.created_at, 77);
    assert_eq!(f.updated_at, 77);
}

#[test]
fn new_feed_gets_fresh_id_and_time() {
    let a = new_feed("t".to_string(), "u".to_string(), None, Some("c".to_string()));
    let b = new_feed("t".to_string(), "u".to_string(), None, Some("c".to_string()));
    assert_eq!(a.id.len(), 36);
    assert_ne!(a.id, b.id);
    assert_eq!(a.created_at, a.updated_at);
    assert!(a.created_at > 1_600_000_000);
    assert_eq!(a.title, "t");
    assert_eq!(a.url, "u");
    assert_eq!(a.category.as_deref(), Some("c"));
    assert_eq!(a.image_url, None);
}
