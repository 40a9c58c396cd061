//! What the commands of the application decide themselves, apart from the store and the
//! network they call.

use crate::db::Feed;
use crate::text::concat3;
use vstd::prelude::*;
use vstd::string::StringExecFns;

verus! {

/// The greeting for `name`.
pub open spec fn greeting(name: Seq<char>) -> Seq<char> {
    "Hello, "@ + name + "! You've greeted the RSS Reader!"@
}

/// Greets `name`.
pub fn greet(name: &str) -> (r: String)
    ensures
        r@ == greeting(name@),
{
    concat3("Hello, ", name, "! You've greeted the RSS Reader!")
}

/// The index of the first feed of `feeds` with the identifier `feed_id`, or the error
/// `Feed not found`.
pub fn find_feed(feeds: &Vec<Feed>, feed_id: &str) -> (r: Result<usize, String>)
    ensures
        match r {
            Ok(i) => i < feeds.len() && feeds[i as int].id@ == feed_id@ && forall|j: int|
                0 <= j < i ==> (#[trigger] feeds[j]).id@ != feed_id@,
            Err(e) => e@ == "Feed not found"@ && forall|j: int|
                0 <= j < feeds.len() ==> (#[trigger] feeds[j]).id@ != feed_id@,
        },
{
    let wanted = String::from_str(feed_id);
    let mut i: usize = 0;
    while i < feeds.len()
        invariant
            i <= feeds.len(),
            wanted@ == feed_id@,
            forall|j: int| 0 <= j < i ==> (#[trigger] feeds[j]).id@ != feed_id@,
        decreases feeds.len() - i,
    {
        if feeds[i].id == wanted {
            return Ok(i);
        }
        i += 1;
    }
    Err(String::from_str("Feed not found"))
}

/// How the refresh of one feed ended.
#[derive(Debug)]
pub enum RefreshOutcome {
    /// This many new articles were saved.
    Saved(i64),
    /// Fetching or saving failed, with this error.
    Failed(String),
    /// The task that refreshed the feed did not finish, with this error.
    Panicked(String),
}

/// The message recorded for a feed titled `title` whose refresh ended as `outcome`, if one is
/// recorded.
pub open spec fn refresh_message(title: Seq<char>, outcome: RefreshOutcome) -> Option<Seq<char>> {
    match outcome {
        RefreshOutcome::Saved(_) => None,
        RefreshOutcome::Failed(e) => Some("Failed to refresh feed '"@ + title + "': "@ + e@),
        RefreshOutcome::Panicked(e) => Some("Task panicked for feed '"@ + title + "': "@ + e@),
    }
}

/// The result of refreshing all feeds, as it stands after some of them.
#[derive(Debug)]
pub struct RefreshTally {
    /// The number of new articles saved so far.
    pub total: i64,
    /// The messages of the feeds that failed so far, in order.
    pub errors: Vec<String>,
}

impl RefreshTally {
    /// The tally before any feed was refreshed.
    pub fn new() -> (t: RefreshTally)
        ensures
            t.total == 0,
            t.errors@.len() == 0,
    {
        RefreshTally { total: 0, errors: Vec::new() }
    }

    /// Takes in how the refresh of the feed titled `title` ended: its articles are added to the
    /// total, or its failure is recorded.
    pub fn record(&mut self, title: &str, outcome: RefreshOutcome)
        requires
            outcome matches RefreshOutcome::Saved(count) ==> i64::MIN <= old(self).total + count
                <= i64::MAX,
        ensures
            match outcome {
                RefreshOutcome::Saved(count) => final(self).total == old(self).total + count
                    && final(self).errors@ == old(self).errors@,
                _ => final(self).total == old(self).total && final(self).errors@.len() == old(
                    self,
                ).errors@.len() + 1 && final(self).errors@.drop_last() == old(self).errors@
                    && Some(final(self).errors@.last()@) == refresh_message(title@, outcome),
            },
    {
        match outcome {
            RefreshOutcome::Saved(count) => {
                self.total = self.total + count;
            },
            RefreshOutcome::Failed(e) => {
                let mut message = concat3("Failed to refresh feed '", title, "': ");
                message.append(e.as_str());
                self.errors.push(message);
            },
            RefreshOutcome::Panicked(e) => {
                let mut message = concat3("Task panicked for feed '", title, "': ");
                message.append(e.as_str());
                self.errors.push(message);
            },
        }
    }

    /// The result of the whole refresh: the number of new articles, or an error that quotes the
    /// first failure where no article was saved and at least one feed failed.
    pub fn finish(&self) -> (r: Result<i64, String>)
        ensures
            match r {
                Ok(total) => total == self.total && !(self.total == 0 && self.errors@.len() > 0),
                Err(e) => self.total == 0 && self.errors@.len() > 0 && e@
                    == "All feeds failed to refresh. First error: "@ + self.errors@[0]@,
            },
    {
        if self.total == 0 && self.errors.len() > 0 {
            let mut e = String::from_str("All feeds failed to refresh. First error: ");
            e.append(self.errors[0].as_str());
            Err(e)
        } else {
            Ok(self.total)
        }
    }
}

} // verus!
