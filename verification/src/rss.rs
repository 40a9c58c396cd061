//! From a parsed feed to the articles that are stored.

use crate::db::Article;
use crate::system::{fresh_id, unix_now};
use crate::text::{chars_of, concat2, is_space, is_whitespace};
use vstd::prelude::*;
use vstd::string::StringExecFns;
use vstd::string::StringSliceAdditionalSpecFns;
use vstd::utf8::{decode_utf8, encode_utf8, is_char_boundary};

verus! {

/// The most words a summary is made of.
pub const SUMMARY_WORDS: usize = 100;

/// The most bytes of text a summary holds before it is cut.
pub const SUMMARY_BYTES: usize = 200;

/// Whether `c` parts words in markup: whitespace, or one of the brackets of a tag.
pub open spec fn is_separator(c: char) -> bool {
    is_space(c) || c == '<' || c == '>'
}

/// The number of characters at the front of `s` up to the first separator.
pub open spec fn word_len(s: Seq<char>) -> nat
    decreases s.len(),
{
    if s.len() > 0 && !is_separator(s[0]) {
        1 + word_len(s.drop_first())
    } else {
        0
    }
}

/// A word is no longer than the text it begins.
pub proof fn lemma_word_len_bound(s: Seq<char>)
    ensures
        word_len(s) <= s.len(),
    decreases s.len(),
{
    if s.len() > 0 && !is_separator(s[0]) {
        lemma_word_len_bound(s.drop_first());
    }
}

#[via_fn]
proof fn words_terminates(s: Seq<char>) {
    lemma_word_len_bound(s);
}

/// The words of `s`: its longest runs of characters that are no separators, in order.
pub open spec fn words(s: Seq<char>) -> Seq<Seq<char>>
    decreases s.len(),
    via words_terminates
{
    if s.len() == 0 {
        Seq::empty()
    } else if is_separator(s[0]) {
        words(s.drop_first())
    } else {
        seq![s.take(word_len(s) as int)] + words(s.skip(word_len(s) as int))
    }
}

/// The words of `ws` with one space between each two.
pub open spec fn join_words(ws: Seq<Seq<char>>) -> Seq<char>
    decreases ws.len(),
{
    if ws.len() == 0 {
        Seq::empty()
    } else if ws.len() == 1 {
        ws[0]
    } else {
        join_words(ws.drop_last()) + seq![' '] + ws.last()
    }
}

/// The first `n` elements of `ws`, or all of them where there are fewer.
pub open spec fn first_words(ws: Seq<Seq<char>>, n: nat) -> Seq<Seq<char>> {
    if ws.len() <= n {
        ws
    } else {
        ws.take(n as int)
    }
}

/// The text a summary is cut from: the first hundred words of the markup, joined by spaces.
pub open spec fn summary_text(html: Seq<char>) -> Seq<char> {
    join_words(first_words(words(html), SUMMARY_WORDS as nat))
}

/// Whether the summary of `html` is defined: its text has at most 200 bytes in UTF-8, or byte
/// 200 is where a character begins.
pub open spec fn summary_defined(html: Seq<char>) -> bool {
    let bytes = encode_utf8(summary_text(html));
    bytes.len() > SUMMARY_BYTES ==> is_char_boundary(bytes, SUMMARY_BYTES as int)
}

/// The summary of `html`: its text where that has at most 200 bytes in UTF-8, else the first
/// 200 bytes of it followed by three dots.
pub open spec fn summary_of(html: Seq<char>) -> Seq<char> {
    let text = summary_text(html);
    let bytes = encode_utf8(text);
    if bytes.len() > SUMMARY_BYTES {
        decode_utf8(bytes.subrange(0, SUMMARY_BYTES as int)) + seq!['.', '.', '.']
    } else {
        text
    }
}

/// Whether `c` parts words in markup.
pub fn is_word_separator(c: char) -> (r: bool)
    ensures
        r == is_separator(c),
{
    is_whitespace(c) || c == '<' || c == '>'
}

proof fn lemma_word_len(s: Seq<char>, n: int)
    requires
        0 <= n <= s.len(),
        forall|i: int| 0 <= i < n ==> !is_separator(#[trigger] s[i]),
        n == s.len() || is_separator(s[n]),
    ensures
        word_len(s) == n,
    decreases n,
{
    if n > 0 {
        lemma_word_len(s.drop_first(), n - 1);
    }
}

proof fn lemma_join_push(ws: Seq<Seq<char>>, w: Seq<char>)
    ensures
        join_words(ws.push(w)) == if ws.len() == 0 {
            w
        } else {
            join_words(ws) + seq![' '] + w
        },
{
    assert(ws.push(w).drop_last() =~= ws);
}

/// The text a summary is cut from.
fn summary_text_of(html: &str) -> (out: String)
    ensures
        out@ == summary_text(html@),
{
    let cs = chars_of(html);
    let n = cs.len();
    let mut out = String::new();
    let mut count: usize = 0;
    let mut i: usize = 0;
    let ghost mut found: Seq<Seq<char>> = Seq::empty();
    assert(cs@.skip(0) =~= cs@);
    while i < n && count < SUMMARY_WORDS
        invariant
            n == cs.len(),
            cs@ == html@,
            i <= n,
            count == found.len(),
            count <= SUMMARY_WORDS,
            words(cs@) == found + words(cs@.skip(i as int)),
            out@ == join_words(found),
        decreases n - i,
    {
        let ghost rest = cs@.skip(i as int);
        if is_word_separator(cs[i]) {
            assert(rest.drop_first() =~= cs@.skip(i + 1));
            i += 1;
        } else {
            let start = i;
            while i < n && !is_word_separator(cs[i])
                invariant
                    n == cs.len(),
                    start <= i <= n,
                    forall|k: int| start <= k < i ==> !is_separator(#[trigger] cs@[k]),
                decreases n - i,
            {
                i += 1;
            }
            proof {
                lemma_word_len(rest, i - start);
                assert(rest.take(i - start) =~= cs@.subrange(start as int, i as int));
                assert(rest.skip(i - start) =~= cs@.skip(i as int));
                lemma_join_push(found, cs@.subrange(start as int, i as int));
            }
            let word = html.substring_char(start, i);
            if count > 0 {
                proof {
                    reveal_strlit(" ");
                }
                out.append(" ");
            }
            out.append(word);
            proof {
                found = found.push(cs@.subrange(start as int, i as int));
            }
            count += 1;
        }
    }
    assert(count == SUMMARY_WORDS ==> words(cs@).take(SUMMARY_WORDS as int) =~= found);
    out
}

/// The summary of a piece of markup, or `None` where it is not defined: where the text is
/// longer than 200 bytes and byte 200 falls inside a character.
pub fn try_create_summary(html: &str) -> (r: Option<String>)
    ensures
        match r {
            Some(summary) => summary_defined(html@) && summary@ == summary_of(html@),
            None => !summary_defined(html@),
        },
{
    let text = summary_text_of(html);
    if text.as_str().as_bytes().len() > SUMMARY_BYTES {
        if !text.as_str().is_char_boundary(SUMMARY_BYTES) {
            return None;
        }
        let (head, _) = text.as_str().split_at(SUMMARY_BYTES);
        proof {
            vstd::utf8::encode_utf8_valid_utf8(head@);
            vstd::utf8::encode_utf8_decode_utf8(head@);
            reveal_strlit("...");
        }
        let mut r = String::from_str(head);
        r.append("...");
        Some(r)
    } else {
        Some(text)
    }
}

/// The summary of a piece of markup: its first hundred words, cut after 200 bytes.
pub fn create_summary(html: &str) -> (r: String)
    requires
        summary_defined(html@),
    ensures
        r@ == summary_of(html@),
{
    match try_create_summary(html) {
        Some(summary) => summary,
        None => String::new(),
    }
}

/// The body of an entry, as its feed gave it.
#[derive(Debug, Clone)]
pub struct EntryContent {
    pub body: Option<String>,
}

/// One entry of a parsed feed: what of it an article is made from.
#[derive(Debug, Clone)]
pub struct FeedEntry {
    /// The addresses of the entry's links, in the feed's order.
    pub links: Vec<String>,
    pub title: Option<String>,
    pub content: Option<EntryContent>,
    pub summary: Option<String>,
    /// The names of the entry's authors, in the feed's order; an author may have no name.
    pub authors: Vec<Option<String>>,
    /// When the entry was published, in seconds since the Unix epoch.
    pub published: Option<i64>,
    /// When the entry was last updated, in seconds since the Unix epoch.
    pub updated: Option<i64>,
}

/// A parsed feed: its title and its entries.
#[derive(Debug, Clone)]
pub struct ParsedFeed {
    pub title: Option<String>,
    pub entries: Vec<FeedEntry>,
}

/// The text of an optional string.
pub open spec fn opt_text(o: Option<String>) -> Option<Seq<char>> {
    match o {
        Some(s) => Some(s@),
        None => None,
    }
}

/// The title an entry without one is given.
pub open spec fn untitled() -> Seq<char> {
    seq!['U', 'n', 't', 'i', 't', 'l', 'e', 'd']
}

/// The title of the article: the entry's, or `Untitled`.
pub open spec fn title_of(e: FeedEntry) -> Seq<char> {
    match e.title {
        Some(t) => t@,
        None => untitled(),
    }
}

/// The content of the article: the entry's body where it has one, else its summary, else
/// nothing.
pub open spec fn content_of(e: FeedEntry) -> Seq<char> {
    match e.content {
        Some(EntryContent { body: Some(body) }) => body@,
        _ => match e.summary {
            Some(s) => s@,
            None => Seq::empty(),
        },
    }
}

/// The entry's own summary, where it says something that the content does not: where it is
/// not empty and differs from the content.
pub open spec fn own_summary(e: FeedEntry) -> Option<Seq<char>> {
    match e.summary {
        Some(s) => if s@.len() > 0 && s@ != content_of(e) {
            Some(s@)
        } else {
            None
        },
        None => None,
    }
}

/// Whether the summary of the article is made from its content.
pub open spec fn summary_is_generated(e: FeedEntry) -> bool {
    own_summary(e) is None && content_of(e).len() > 0
}

/// The summary of the article: the entry's own, else one made from the content, else none
/// where there is no content.
pub open spec fn summary_for(e: FeedEntry) -> Option<Seq<char>> {
    match own_summary(e) {
        Some(s) => Some(s),
        None => if content_of(e).len() > 0 {
            Some(summary_of(content_of(e)))
        } else {
            None
        },
    }
}

/// Whether an article can be made from the entry: the summary that has to be made from its
/// content is defined.
pub open spec fn entry_convertible(e: FeedEntry) -> bool {
    summary_is_generated(e) ==> summary_defined(content_of(e))
}

/// Whether articles can be made from all entries of the feed.
pub open spec fn feed_convertible(feed: ParsedFeed) -> bool {
    forall|i: int| 0 <= i < feed.entries.len() ==> entry_convertible(#[trigger] feed.entries[i])
}

/// The author of the article: the first author of the entry where that one has a name, else
/// the title of the feed.
pub open spec fn author_of(e: FeedEntry, feed_title: Option<String>) -> Option<Seq<char>> {
    if e.authors.len() > 0 && e.authors[0] is Some {
        opt_text(e.authors[0])
    } else {
        opt_text(feed_title)
    }
}

/// The date of the article: when the entry was published, else when it was updated, else
/// `now`.
pub open spec fn date_of(e: FeedEntry, now: i64) -> i64 {
    match e.published {
        Some(p) => p,
        None => match e.updated {
            Some(u) => u,
            None => now,
        },
    }
}

/// Whether `a` is the article made at time `now` from the entry `e` of a feed titled
/// `feed_title`, under the identifier `id` and with the link `link`.
pub open spec fn is_article_of(
    a: Article,
    e: FeedEntry,
    feed_title: Option<String>,
    id: Seq<char>,
    link: Seq<char>,
    now: i64,
) -> bool {
    &&& a.id@ == id
    &&& a.feed_id@ == Seq::<char>::empty()
    &&& a.title@ == title_of(e)
    &&& a.link@ == link
    &&& a.content@ == content_of(e)
    &&& opt_text(a.summary) == summary_for(e)
    &&& opt_text(a.author) == author_of(e, feed_title)
    &&& a.pub_date == Some(date_of(e, now))
    &&& a.is_read == 0
    &&& a.is_starred == 0
    &&& a.fetched_at == now
}

/// Whether `a` is an article made at time `now` from the entry `e`: its identifier is fresh,
/// and its link is the entry's first link, or a fresh identifier where the entry has none.
pub open spec fn converted(a: Article, e: FeedEntry, feed_title: Option<String>, now: i64) -> bool {
    &&& is_article_of(a, e, feed_title, a.id@, a.link@, now)
    &&& a.id@.len() == 36
    &&& if e.links.len() > 0 {
        a.link@ == e.links[0]@
    } else {
        a.link@.len() == 36
    }
}

/// Whether `articles` are the articles made at time `now` from the entries of `feed`, one for
/// each entry and in the feed's order.
pub open spec fn all_converted(articles: Seq<Article>, feed: ParsedFeed, now: i64) -> bool {
    &&& articles.len() == feed.entries.len()
    &&& forall|i: int|
        0 <= i < feed.entries.len() ==> converted(
            #[trigger] articles[i],
            feed.entries[i],
            feed.title,
            now,
        )
}

/// A copy of an optional string.
pub fn clone_text(o: &Option<String>) -> (r: Option<String>)
    ensures
        r == *o,
{
    match o {
        Some(s) => Some(s.clone()),
        None => None,
    }
}

/// The content of the article made from `entry`.
pub fn content_text(entry: &FeedEntry) -> (r: String)
    ensures
        r@ == content_of(*entry),
{
    match &entry.content {
        Some(EntryContent { body: Some(body) }) => body.clone(),
        _ => match &entry.summary {
            Some(s) => s.clone(),
            None => String::new(),
        },
    }
}

/// Whether an article can be made from `entry`.
pub fn entry_is_convertible(entry: &FeedEntry) -> (r: bool)
    ensures
        r == entry_convertible(*entry),
{
    let content = content_text(entry);
    let own = match &entry.summary {
        Some(s) => !s.as_str().is_empty() && !(*s == content),
        None => false,
    };
    if own || content.as_str().is_empty() {
        true
    } else {
        try_create_summary(content.as_str()).is_some()
    }
}

/// Whether articles can be made from all entries of `feed`.
pub fn feed_is_convertible(feed: &ParsedFeed) -> (r: bool)
    ensures
        r == feed_convertible(*feed),
{
    let mut i: usize = 0;
    while i < feed.entries.len()
        invariant
            i <= feed.entries.len(),
            forall|k: int| 0 <= k < i ==> entry_convertible(#[trigger] feed.entries[k]),
        decreases feed.entries.len() - i,
    {
        if !entry_is_convertible(&feed.entries[i]) {
            return false;
        }
        i += 1;
    }
    true
}

/// The content and the summary of the article made from `entry`.
pub fn extract_content(entry: &FeedEntry) -> (r: (String, Option<String>))
    requires
        entry_convertible(*entry),
    ensures
        r.0@ == content_of(*entry),
        opt_text(r.1) == summary_for(*entry),
{
    let content = content_text(entry);
    let own = match &entry.summary {
        Some(s) => if !s.as_str().is_empty() && !(*s == content) {
            Some(s.clone())
        } else {
            None
        },
        None => None,
    };
    let summary = match own {
        Some(s) => Some(s),
        None => if !content.as_str().is_empty() {
            Some(create_summary(content.as_str()))
        } else {
            None
        },
    };
    (content, summary)
}

/// The article made at time `now` from `entry`, under the identifier `id` and with the link
/// `link`.
pub fn article_from_entry(
    entry: &FeedEntry,
    feed_title: &Option<String>,
    id: String,
    link: String,
    now: i64,
) -> (a: Article)
    requires
        entry_convertible(*entry),
    ensures
        is_article_of(a, *entry, *feed_title, id@, link@, now),
{
    let title = match &entry.title {
        Some(t) => t.clone(),
        None => {
            proof {
                reveal_strlit("Untitled");
            }
            let t = String::from_str("Untitled");
            assert(t@ =~= untitled());
            t
        },
    };
    let (content, summary) = extract_content(entry);
    let author = if entry.authors.len() > 0 && entry.authors[0].is_some() {
        clone_text(&entry.authors[0])
    } else {
        clone_text(feed_title)
    };
    let pub_date = match entry.published {
        Some(p) => p,
        None => match entry.updated {
            Some(u) => u,
            None => now,
        },
    };
    Article {
        id,
        feed_id: String::new(),
        title,
        link,
        content,
        summary,
        author,
        pub_date: Some(pub_date),
        is_read: 0,
        is_starred: 0,
        fetched_at: now,
    }
}

/// The articles of a parsed feed, one for each entry and in the feed's order, all made at the
/// same time. Each gets a fresh identifier; none belongs to a stored feed yet.
pub fn convert_feed_to_articles(feed: &ParsedFeed) -> (r: Result<Vec<Article>, String>)
    requires
        feed_convertible(*feed),
    ensures
        r is Ok,
        exists|now: i64| #[trigger] all_converted(r->Ok_0@, *feed, now),
{
    let mut articles: Vec<Article> = Vec::new();
    let now = unix_now();
    let mut i: usize = 0;
    while i < feed.entries.len()
        invariant
            feed_convertible(*feed),
            i <= feed.entries.len(),
            articles.len() == i,
            forall|k: int|
                0 <= k < i ==> converted(#[trigger] articles[k], feed.entries[k], feed.title, now),
        decreases feed.entries.len() - i,
    {
        let entry = &feed.entries[i];
        let link = if entry.links.len() > 0 {
            entry.links[0].clone()
        } else {
            fresh_id()
        };
        let id = fresh_id();
        let article = article_from_entry(entry, &feed.title, id, link, now);
        articles.push(article);
        i += 1;
    }
    let r: Result<Vec<Article>, String> = Ok(articles);
    assert(all_converted(r->Ok_0@, *feed, now));
    r
}

/// Whether an article with this link is stored already.
pub open spec fn is_known(link: Seq<char>, existing: Seq<String>) -> bool {
    exists|j: int| 0 <= j < existing.len() && (#[trigger] existing[j])@ == link
}

/// The articles whose link is not stored yet, in their order. Two of them may share a link:
/// what is stored is looked at once, before anything is saved.
pub open spec fn unsaved(articles: Seq<Article>, existing: Seq<String>) -> Seq<Article> {
    articles.filter(|a: Article| !is_known(a.link@, existing))
}

/// `a` with `feed_id` as its feed.
pub open spec fn filed_under(a: Article, feed_id: Seq<char>, filed: Article) -> bool {
    &&& filed.feed_id@ == feed_id
    &&& filed.id == a.id
    &&& filed.title == a.title
    &&& filed.link == a.link
    &&& filed.content == a.content
    &&& filed.summary == a.summary
    &&& filed.author == a.author
    &&& filed.pub_date == a.pub_date
    &&& filed.is_read == a.is_read
    &&& filed.is_starred == a.is_starred
    &&& filed.fetched_at == a.fetched_at
}

/// What saving the articles of a fetched feed comes to.
#[derive(Debug)]
pub struct SavePlan {
    /// The articles to insert, in order. Their number is the number of articles saved.
    pub inserts: Vec<Article>,
    /// Whether the feed is marked as updated now.
    pub touch_feed: bool,
}

/// Whether an article with the link `link` is stored already.
pub fn link_is_known(link: &String, existing: &Vec<String>) -> (r: bool)
    ensures
        r == is_known(link@, existing@),
{
    let mut j: usize = 0;
    while j < existing.len()
        invariant
            j <= existing.len(),
            forall|k: int| 0 <= k < j ==> (#[trigger] existing[k])@ != link@,
        decreases existing.len() - j,
    {
        if existing[j] == *link {
            return true;
        }
        j += 1;
    }
    false
}

/// A copy of `article` with `feed_id` as its feed.
pub fn file_under(article: &Article, feed_id: &str) -> (filed: Article)
    ensures
        filed_under(*article, feed_id@, filed),
{
    Article {
        id: article.id.clone(),
        feed_id: String::from_str(feed_id),
        title: article.title.clone(),
        link: article.link.clone(),
        content: article.content.clone(),
        summary: clone_text(&article.summary),
        author: clone_text(&article.author),
        pub_date: article.pub_date,
        is_read: article.is_read,
        is_starred: article.is_starred,
        fetched_at: article.fetched_at,
    }
}

/// Decides what to save of the articles fetched for the feed `feed_id`, given the links of the
/// articles stored for that feed.
///
/// Every article whose link is not stored yet is inserted, filed under the feed. The feed is
/// marked as updated unless nothing at all was fetched.
pub fn plan_save(articles: &Vec<Article>, existing_links: &Vec<String>, feed_id: &str) -> (plan:
    SavePlan)
    ensures
        plan.touch_feed == (articles.len() > 0),
        plan.inserts.len() == unsaved(articles@, existing_links@).len(),
        forall|i: int|
            0 <= i < plan.inserts.len() ==> filed_under(
                unsaved(articles@, existing_links@)[i],
                feed_id@,
                #[trigger] plan.inserts[i],
            ),
{
    let mut inserts: Vec<Article> = Vec::new();
    let mut i: usize = 0;
    let ghost fresh = |a: Article| !is_known(a.link@, existing_links@);
    while i < articles.len()
        invariant
            i <= articles.len(),
            fresh == |a: Article| !is_known(a.link@, existing_links@),
            inserts.len() == articles@.take(i as int).filter(fresh).len(),
            forall|k: int|
                0 <= k < inserts.len() ==> filed_under(
                    articles@.take(i as int).filter(fresh)[k],
                    feed_id@,
                    #[trigger] inserts[k],
                ),
        decreases articles.len() - i,
    {
        proof {
            reveal(Seq::filter);
            assert(articles@.take(i + 1).drop_last() =~= articles@.take(i as int));
        }
        if !link_is_known(&articles[i].link, existing_links) {
            inserts.push(file_under(&articles[i], feed_id));
        }
        i += 1;
    }
    assert(articles@.take(articles.len() as int) =~= articles@);
    SavePlan { inserts, touch_feed: articles.len() > 0 }
}

/// How fetching a feed ended.
#[derive(Debug)]
pub enum Fetched {
    /// The request could not be sent or no response arrived, with this error.
    Unreachable(String),
    /// The server answered with this status, which is no success.
    Refused(String),
    /// The body of the response could not be read, with this error.
    Unreadable(String),
    /// The body is no feed, with this error.
    Malformed(String),
    /// The body is this feed.
    Parsed(ParsedFeed),
}

/// The error reported for a fetch that ended as `fetched`, if it is an error.
pub open spec fn fetch_failure(fetched: Fetched) -> Option<Seq<char>> {
    match fetched {
        Fetched::Unreachable(e) => Some("Failed to fetch feed: "@ + e@),
        Fetched::Refused(status) => Some("HTTP error: "@ + status@),
        Fetched::Unreadable(e) => Some("Failed to read response: "@ + e@),
        Fetched::Malformed(e) => Some("Failed to parse RSS: "@ + e@),
        Fetched::Parsed(_) => None,
    }
}

/// The result of fetching a feed: its articles, or the error to report.
pub fn fetch_outcome(fetched: Fetched) -> (r: Result<Vec<Article>, String>)
    requires
        fetched matches Fetched::Parsed(feed) ==> feed_convertible(feed),
    ensures
        match r {
            Ok(articles) => fetched matches Fetched::Parsed(feed) && exists|now: i64| #[trigger]
                all_converted(articles@, feed, now),
            Err(e) => fetch_failure(fetched) == Some(e@),
        },
{
    match fetched {
        Fetched::Unreachable(e) => Err(concat2("Failed to fetch feed: ", e.as_str())),
        Fetched::Refused(status) => Err(concat2("HTTP error: ", status.as_str())),
        Fetched::Unreadable(e) => Err(concat2("Failed to read response: ", e.as_str())),
        Fetched::Malformed(e) => Err(concat2("Failed to parse RSS: ", e.as_str())),
        Fetched::Parsed(feed) => convert_feed_to_articles(&feed),
    }
}

} // verus!
