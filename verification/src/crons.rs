//! The decisions of the scheduled scrapers: which scraped codes are stored
//! and as what, and the counts a news run reports.

use vstd::prelude::*;
use crate::database::redemption_code::RedemptionCode;
use crate::text::{append_str, decimal, push_decimal, string_of};

verus! {

/// Whether a code collection counts as empty: its count is zero, or the
/// count could not be had (`None`).
pub fn check_collection_empty(count: Option<u64>) -> (r: bool)
    ensures
        r == match count {
            Some(n) => n == 0,
            None => true,
        },
{
    match count {
        Some(n) => n == 0,
        None => true,
    }
}

/// Whether `after` is `before` as first stored: every code keeps its
/// fields, and none is active when the collection was empty, since a first
/// scrape cannot tell new codes from old ones.
pub open spec fn seeded_codes(collection_empty: bool, before: Seq<RedemptionCode>, after: Seq<RedemptionCode>) -> bool {
    &&& after.len() == before.len()
    &&& forall|i: int| 0 <= i < before.len() ==> {
        &&& (#[trigger] after[i]).code == before[i].code
        &&& after[i].date == before[i].date
        &&& after[i].rewards == before[i].rewards
        &&& after[i].source == before[i].source
        &&& after[i].active == (before[i].active && !collection_empty)
    }
}

/// The scraped codes as they are first stored.
pub fn initial_codes(collection_empty: bool, codes: Vec<RedemptionCode>) -> (r: Vec<RedemptionCode>)
    ensures
        seeded_codes(collection_empty, codes@, r@),
{
    let ghost all = codes@;
    let mut r: Vec<RedemptionCode> = Vec::new();
    for code in it: codes.into_iter()
        invariant
            it.seq() == all,
            seeded_codes(collection_empty, all.take(it.index() as int), r@),
    {
        let mut c = code;
        if collection_empty {
            c.active = false;
        }
        r.push(c);
        proof {
            assert(all.take(it.index() + 1) =~= all.take(it.index() as int).push(all[it.index() as int]));
        }
    }
    proof {
        assert(all.take(all.len() as int) =~= all);
    }
    r
}

/// Whether a scraped code is stored, given the lookup of a stored code with
/// the same text: `Some(true)` when one was found, `Some(false)` when none
/// was, `None` when the lookup failed. Only a found code is skipped.
pub fn should_insert(existing: Option<bool>) -> (r: bool)
    ensures
        r == (existing != Some(true)),
{
    match existing {
        Some(found) => !found,
        None => true,
    }
}

/// The counts of a news run: items fetched, items newly stored, items that
/// could not be stored.
#[derive(Debug, Clone, Copy)]
pub struct NewsTally {
    pub total: usize,
    pub new: usize,
    pub failed: usize,
}

/// What happened to a batch or an item during a news run.
#[derive(Debug, Clone, Copy)]
pub enum NewsEvent {
    /// A language's news was fetched: this many items.
    Fetched(usize),
    /// An item was upserted; `inserted` when it was new.
    Stored { inserted: bool },
    /// An item could not be serialized or upserted.
    Failed,
}

/// The counts after `e`.
pub open spec fn spec_tally_after(t: NewsTally, e: NewsEvent) -> NewsTally {
    match e {
        NewsEvent::Fetched(n) => NewsTally { total: (t.total + n) as usize, ..t },
        NewsEvent::Stored { inserted } => if inserted {
            NewsTally { new: (t.new + 1) as usize, ..t }
        } else {
            t
        },
        NewsEvent::Failed => NewsTally { failed: (t.failed + 1) as usize, ..t },
    }
}

/// Whether the counts can take `e` without leaving `usize`.
pub open spec fn tally_fits(t: NewsTally, e: NewsEvent) -> bool {
    match e {
        NewsEvent::Fetched(n) => t.total + n <= usize::MAX,
        NewsEvent::Stored { inserted } => t.new + 1 <= usize::MAX,
        NewsEvent::Failed => t.failed + 1 <= usize::MAX,
    }
}

/// The report line of a news run, tagged with the game and `news`.
pub open spec fn spec_news_summary(tag: Seq<char>, t: NewsTally) -> Seq<char> {
    tag + " Fetch complete - Total: "@ + decimal(t.total as nat) + ", New: "@ + decimal(t.new as nat)
        + ", Failed: "@ + decimal(t.failed as nat)
}

impl NewsTally {
    /// The counts of a run that has not started.
    pub fn new() -> (t: NewsTally)
        ensures
            t.total == 0 && t.new == 0 && t.failed == 0,
    {
        NewsTally { total: 0, new: 0, failed: 0 }
    }

    /// Counts one event of the run.
    pub fn record(&mut self, e: NewsEvent)
        requires
            tally_fits(*old(self), e),
        ensures
            *final(self) == spec_tally_after(*old(self), e),
    {
        match e {
            NewsEvent::Fetched(n) => {
                self.total = self.total + n;
            },
            NewsEvent::Stored { inserted } => {
                if inserted {
                    self.new = self.new + 1;
                }
            },
            NewsEvent::Failed => {
                self.failed = self.failed + 1;
            },
        }
    }

    /// The line that reports the run, after the tag `tag` (such as
    /// `[Genshin][News]`).
    pub fn summary(&self, tag: &str) -> (r: String)
        ensures
            r@ == spec_news_summary(tag@, *self),
    {
        let mut v: Vec<char> = Vec::new();
        append_str(&mut v, tag);
        append_str(&mut v, " Fetch complete - Total: ");
        push_decimal(&mut v, self.total as u64);
        append_str(&mut v, ", New: ");
        push_decimal(&mut v, self.new as u64);
        append_str(&mut v, ", Failed: ");
        push_decimal(&mut v, self.failed as u64);
        string_of(&v)
    }
}

} // verus!
