//! The records of the feed store, and the statements by which they are read and written.

use crate::system::{fresh_id, unix_now};
use crate::text::{concat2, concat3, i64_to_string, signed_decimal};
use vstd::prelude::*;
use vstd::string::StringExecFns;

verus! {

/// A subscribed feed.
#[derive(Debug, Clone)]
pub struct Feed {
    pub id: String,
    pub title: String,
    pub url: String,
    pub description: Option<String>,
    pub image_url: Option<String>,
    pub category: Option<String>,
    pub created_at: i64,
    pub updated_at: i64,
}

/// An article of a feed.
#[derive(Debug, Clone)]
pub struct Article {
    pub id: String,
    pub feed_id: String,
    pub title: String,
    pub link: String,
    pub content: String,
    pub summary: Option<String>,
    pub author: Option<String>,
    pub pub_date: Option<i64>,
    pub is_read: i32,
    pub is_starred: i32,
    pub fetched_at: i64,
}

/// Which articles a listing shows.
#[derive(Debug, Clone, Copy, PartialEq, Eq, Structural)]
pub enum ArticleFilter {
    All,
    Unread,
    Starred,
}

/// The texts of a vector of strings.
pub open spec fn texts(v: Seq<String>) -> Seq<Seq<char>> {
    Seq::new(v.len(), |i: int| v[i]@)
}

/// The text of an optional string, empty where there is none.
pub open spec fn text_or_empty(o: Option<String>) -> Seq<char> {
    match o {
        Some(s) => s@,
        None => Seq::empty(),
    }
}

/// The filter that `name` stands for: `unread`, `starred`, and all articles for any other name.
pub open spec fn filter_named(name: Seq<char>) -> ArticleFilter {
    if name == "unread"@ {
        ArticleFilter::Unread
    } else if name == "starred"@ {
        ArticleFilter::Starred
    } else {
        ArticleFilter::All
    }
}

/// The filter that an optional name stands for: all articles where there is none.
pub open spec fn filter_chosen(name: Option<String>) -> ArticleFilter {
    match name {
        Some(n) => filter_named(n@),
        None => ArticleFilter::All,
    }
}

/// The condition that a filter puts on the articles, if it puts one.
pub open spec fn filter_condition(filter: ArticleFilter) -> Option<Seq<char>> {
    match filter {
        ArticleFilter::All => None,
        ArticleFilter::Unread => Some("is_read = 0"@),
        ArticleFilter::Starred => Some("is_starred = 1"@),
    }
}

/// The `WHERE` clause of a listing: the conditions that apply, joined by `AND`, or nothing
/// where none applies.
pub open spec fn where_clause(by_feed: bool, filter: ArticleFilter) -> Seq<char> {
    match (by_feed, filter_condition(filter)) {
        (false, None) => Seq::empty(),
        (true, None) => " WHERE "@ + "feed_id = ?"@,
        (false, Some(c)) => " WHERE "@ + c,
        (true, Some(c)) => " WHERE "@ + "feed_id = ?"@ + " AND "@ + c,
    }
}

/// The statement of a listing: the newest articles first, a page of them.
pub open spec fn listing_sql(by_feed: bool, filter: ArticleFilter) -> Seq<char> {
    "SELECT id, feed_id, title, link, content, summary, author, pub_date, is_read, is_starred, fetched_at FROM articles"@
        + where_clause(by_feed, filter) + " ORDER BY pub_date DESC LIMIT ? OFFSET ?"@
}

/// The parameters of a listing: the feed where there is one, then the limit and the offset.
pub open spec fn listing_params(feed_id: Option<String>, limit: i64, offset: i64) -> Seq<
    Seq<char>,
> {
    let page = seq![signed_decimal(limit as int), signed_decimal(offset as int)];
    match feed_id {
        Some(id) => seq![id@] + page,
        None => page,
    }
}

/// A statement and the parameters bound to its placeholders, in order.
#[derive(Debug)]
pub struct Query {
    pub sql: String,
    pub params: Vec<String>,
}

impl ArticleFilter {
    /// The filter that `name` stands for.
    pub fn from_name(name: &str) -> (r: ArticleFilter)
        ensures
            r == filter_named(name@),
    {
        let name = String::from_str(name);
        if name == String::from_str("unread") {
            ArticleFilter::Unread
        } else if name == String::from_str("starred") {
            ArticleFilter::Starred
        } else {
            ArticleFilter::All
        }
    }
}

/// The query that lists a page of articles, of one feed or of all, as `filter` names them.
pub fn articles_query(
    feed_id: Option<String>,
    filter: Option<String>,
    limit: i64,
    offset: i64,
) -> (q: Query)
    ensures
        q.sql@ == listing_sql(feed_id is Some, filter_chosen(filter)),
        texts(q.params@) == listing_params(feed_id, limit, offset),
{
    let chosen = match &filter {
        Some(name) => ArticleFilter::from_name(name.as_str()),
        None => ArticleFilter::All,
    };
    let by_feed = feed_id.is_some();
    let mut params: Vec<String> = Vec::new();
    match feed_id {
        Some(id) => {
            params.push(id);
        },
        None => {},
    }
    let condition = match chosen {
        ArticleFilter::All => None,
        ArticleFilter::Unread => Some("is_read = 0"),
        ArticleFilter::Starred => Some("is_starred = 1"),
    };
    let clause = match (by_feed, condition) {
        (false, None) => String::new(),
        (true, None) => concat2(" WHERE ", "feed_id = ?"),
        (false, Some(c)) => concat2(" WHERE ", c),
        (true, Some(c)) => {
            let mut w = concat3(" WHERE ", "feed_id = ?", " AND ");
            w.append(c);
            w
        },
    };
    let sql = concat3(
        "SELECT id, feed_id, title, link, content, summary, author, pub_date, is_read, is_starred, fetched_at FROM articles",
        clause.as_str(),
        " ORDER BY pub_date DESC LIMIT ? OFFSET ?",
    );
    params.push(i64_to_string(limit));
    params.push(i64_to_string(offset));
    Query { sql, params }
}

/// What is stored for a flag: 1 where it is set, 0 where it is not.
pub fn flag_value(set: bool) -> (r: i32)
    ensures
        r == if set {
            1i32
        } else {
            0i32
        },
{
    if set {
        1
    } else {
        0
    }
}

/// The values stored for an article, in the order of the columns: identifier, feed, title,
/// link, content, summary, author, date, the two flags, time of fetching. A missing summary or
/// author is stored as the empty text, a missing date as `now`.
pub open spec fn article_values(a: Article, now: i64) -> Seq<Seq<char>> {
    seq![
        a.id@,
        a.feed_id@,
        a.title@,
        a.link@,
        a.content@,
        text_or_empty(a.summary),
        text_or_empty(a.author),
        signed_decimal(
            (match a.pub_date {
                Some(d) => d,
                None => now,
            }) as int,
        ),
        signed_decimal(a.is_read as int),
        signed_decimal(a.is_starred as int),
        signed_decimal(a.fetched_at as int),
    ]
}

/// The values stored for a feed, in the order of the columns: identifier, title, address,
/// description, category, time of creation, time of the last update. A missing description or
/// category is stored as the empty text.
pub open spec fn feed_values(f: Feed) -> Seq<Seq<char>> {
    seq![
        f.id@,
        f.title@,
        f.url@,
        text_or_empty(f.description),
        text_or_empty(f.category),
        signed_decimal(f.created_at as int),
        signed_decimal(f.updated_at as int),
    ]
}

/// A copy of an optional string, empty where there is none.
pub fn text_or_default(o: &Option<String>) -> (r: String)
    ensures
        r@ == text_or_empty(*o),
{
    match o {
        Some(s) => s.clone(),
        None => String::new(),
    }
}

/// The values to store for `article`, fetched or last seen at `now`.
pub fn article_row(article: &Article, now: i64) -> (row: Vec<String>)
    ensures
        texts(row@) == article_values(*article, now),
{
    let date = match article.pub_date {
        Some(d) => d,
        None => now,
    };
    let mut row: Vec<String> = Vec::new();
    row.push(article.id.clone());
    row.push(article.feed_id.clone());
    row.push(article.title.clone());
    row.push(article.link.clone());
    row.push(article.content.clone());
    row.push(text_or_default(&article.summary));
    row.push(text_or_default(&article.author));
    row.push(i64_to_string(date));
    row.push(i64_to_string(article.is_read as i64));
    row.push(i64_to_string(article.is_starred as i64));
    row.push(i64_to_string(article.fetched_at));
    row
}

/// The values to store for `feed`.
pub fn feed_row(feed: &Feed) -> (row: Vec<String>)
    ensures
        texts(row@) == feed_values(*feed),
{
    let mut row: Vec<String> = Vec::new();
    row.push(feed.id.clone());
    row.push(feed.title.clone());
    row.push(feed.url.clone());
    row.push(text_or_default(&feed.description));
    row.push(text_or_default(&feed.category));
    row.push(i64_to_string(feed.created_at));
    row.push(i64_to_string(feed.updated_at));
    row
}

/// Whether `f` is the feed subscribed to at time `now` under the identifier `id`: it has no
/// image yet and was never updated since.
pub open spec fn is_new_feed(
    f: Feed,
    id: Seq<char>,
    title: String,
    url: String,
    description: Option<String>,
    category: Option<String>,
    now: i64,
) -> bool {
    &&& f.id@ == id
    &&& f.title == title
    &&& f.url == url
    &&& f.description == description
    &&& f.image_url is None
    &&& f.category == category
    &&& f.created_at == now
    &&& f.updated_at == now
}

/// The feed subscribed to at time `now` under the identifier `id`.
pub fn feed_subscribed(
    id: String,
    title: String,
    url: String,
    description: Option<String>,
    category: Option<String>,
    now: i64,
) -> (f: Feed)
    ensures
        is_new_feed(f, id@, title, url, description, category, now),
{
    Feed { id, title, url, description, image_url: None, category, created_at: now, updated_at: now }
}

/// A feed to subscribe to now, under a fresh identifier.
pub fn new_feed(
    title: String,
    url: String,
    description: Option<String>,
    category: Option<String>,
) -> (f: Feed)
    ensures
        f.id@.len() == 36,
        is_new_feed(f, f.id@, title, url, description, category, f.created_at),
{
    let id = fresh_id();
    let now = unix_now();
    feed_subscribed(id, title, url, description, category, now)
}

} // verus!
