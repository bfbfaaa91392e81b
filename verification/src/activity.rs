//! Bounded, timestamped, append-only record of sync outcomes.  The log keeps
//! the most recent 1000 entries; appending beyond that evicts the oldest.

use vstd::prelude::*;

verus! {

/// One immutable record of a sync outcome.
#[derive(Debug)]
pub struct ActivityEntry {
    /// Whole seconds since the Unix epoch at the moment the entry was made.
    pub timestamp: i64,
    /// The action recorded, e.g. `sync_personal` or `sync_shared`.
    pub action: String,
    /// The file the action concerned, empty for whole-directory syncs.
    pub file_path: String,
    /// `success` or `error`.
    pub status: String,
    /// The failure message, present exactly for `error` entries.
    pub details: Option<String>,
}

/// Mathematical value of an `ActivityEntry`.
pub struct EntryView {
    pub timestamp: i64,
    pub action: Seq<char>,
    pub file_path: Seq<char>,
    pub status: Seq<char>,
    pub details: Option<Seq<char>>,
}

impl View for ActivityEntry {
    type V = EntryView;

    open spec fn view(&self) -> EntryView {
        EntryView {
            timestamp: self.timestamp,
            action: self.action@,
            file_path: self.file_path@,
            status: self.status@,
            details: match self.details {
                Some(d) => Some(d@),
                None => None,
            },
        }
    }
}

impl Clone for ActivityEntry {
    /// The clone denotes the same record.
    fn clone(&self) -> (r: Self)
        ensures
            r@ == self@,
    {
        ActivityEntry {
            timestamp: self.timestamp,
            action: self.action.clone(),
            file_path: self.file_path.clone(),
            status: self.status.clone(),
            details: match &self.details {
                Some(d) => Some(d.clone()),
                None => None,
            },
        }
    }
}

/// Capacity of the activity log.
pub const ACTIVITY_LOG_CAP: usize = 1000;

/// `log` extended with `e`, with the oldest entries evicted so that at most
/// 1000 entries remain.
pub open spec fn push_bounded(log: Seq<EntryView>, e: EntryView) -> Seq<EntryView> {
    let appended = log.push(e);
    if appended.len() <= ACTIVITY_LOG_CAP {
        appended
    } else {
        appended.skip(appended.len() - ACTIVITY_LOG_CAP)
    }
}

/// Bounded FIFO of sync outcomes, oldest first.
pub struct ActivityLog {
    entries: Vec<ActivityEntry>,
}

impl View for ActivityLog {
    type V = Seq<EntryView>;

    closed spec fn view(&self) -> Seq<EntryView> {
        Seq::new(self.entries@.len(), |i: int| self.entries@[i]@)
    }
}

impl ActivityLog {
    /// The log never holds more than its capacity.
    pub open spec fn wf(&self) -> bool {
        self@.len() <= ACTIVITY_LOG_CAP
    }

    /// An empty log.
    pub fn new() -> (r: Self)
        ensures
            r@ =~= Seq::<EntryView>::empty(),
            r.wf(),
    {
        ActivityLog { entries: Vec::new() }
    }

    /// Append `e`; if the log would exceed its capacity, evict the oldest
    /// entry.  The retained entries are exactly the most recent ones, in
    /// original order.
    pub fn append(&mut self, e: ActivityEntry)
        requires
            old(self).wf(),
        ensures
            final(self).wf(),
            final(self)@ == push_bounded(old(self)@, e@),
    {
        if self.entries.len() >= ACTIVITY_LOG_CAP {
            self.entries.remove(0);
        }
        self.entries.push(e);
        proof {
            assert(self@ =~= push_bounded(old(self)@, e@));
        }
    }

    /// The number of entries currently held.
    pub fn len(&self) -> (r: usize)
        ensures
            r == self@.len(),
    {
        self.entries.len()
    }

    /// The most recent `limit` entries (all of them when fewer exist), in
    /// original order, most recent last.
    pub fn last_entries(&self, limit: usize) -> (r: Vec<ActivityEntry>)
        ensures
            r@.len() == vstd::math::min(limit as int, self@.len() as int),
            forall|i: int|
                0 <= i < r@.len() ==> r@[i]@ == self@[self@.len() - r@.len() + i],
    {
        let len = self.entries.len();
        let start = if len > limit {
            len - limit
        } else {
            0
        };
        let mut out: Vec<ActivityEntry> = Vec::new();
        let mut j: usize = start;
        while j < len
            invariant
                start <= j <= len,
                len == self@.len(),
                len - start == vstd::math::min(limit as int, self@.len() as int),
                out@.len() == j - start,
                forall|i: int| 0 <= i < out@.len() ==> out@[i]@ == self@[start + i],
            decreases len - j,
        {
            let entry = self.entries[j].clone();
            proof {
                assert(entry@ == self@[j as int]);
            }
            out.push(entry);
            j = j + 1;
        }
        out
    }
}

} // verus!
