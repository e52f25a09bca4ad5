//! The bounded activity log: the most recent requests, oldest first.

use vstd::prelude::*;
use vstd::string::*;
use heapless::spsc::Queue;
use crate::clock::{is_clock_text, local_time_text};
use crate::entry::{entry_models, EntryModel, LogEntry};
use crate::ring::{
    ring_dequeue, ring_enqueue, ring_entries, ring_is_full, ring_items, ring_new, LOG_CAPACITY,
    RING_SLOTS,
};

verus! {

/// The log after one more entry: the entry goes to the end, and where the log
/// already held `LOG_CAPACITY` entries the oldest one leaves first.
pub open spec fn appended<T>(log: Seq<T>, entry: T) -> Seq<T> {
    if log.len() >= LOG_CAPACITY {
        log.drop_first().push(entry)
    } else {
        log.push(entry)
    }
}

/// The log after a run of appends, made in the order of `entries`.
pub open spec fn appended_all<T>(log: Seq<T>, entries: Seq<T>) -> Seq<T>
    decreases entries.len(),
{
    if entries.len() == 0 {
        log
    } else {
        appended_all(appended(log, entries.first()), entries.drop_first())
    }
}

/// The last `limit` items of a sequence, or all of it where it is shorter.
pub open spec fn newest<T>(items: Seq<T>, limit: nat) -> Seq<T> {
    if items.len() <= limit {
        items
    } else {
        items.subrange(items.len() - limit, items.len() as int)
    }
}

/// The most recent requests, at most `LOG_CAPACITY` of them, in the order in
/// which they were appended.
///
/// The log has a single owner.  Where several contexts share it, the owner
/// puts it behind one lock and holds that lock for one `append` or one
/// `snapshot` at a time.
pub struct ActivityLog {
    ring: Queue<LogEntry, RING_SLOTS>,
}

impl View for ActivityLog {
    type V = Seq<EntryModel>;

    closed spec fn view(&self) -> Seq<EntryModel> {
        ring_entries(&self.ring)
    }
}

impl ActivityLog {
    #[verifier::type_invariant]
    spec fn within_capacity(&self) -> bool {
        ring_entries(&self.ring).len() <= LOG_CAPACITY
    }

    /// An empty log.
    pub fn new() -> (log: Self)
        ensures
            log@ == Seq::<EntryModel>::empty(),
    {
        ActivityLog { ring: ring_new() }
    }

    /// Appends `entry` as the newest one.  A full log drops its oldest entry
    /// to make room, so the call never fails.
    pub fn append(&mut self, entry: LogEntry)
        ensures
            old(self)@.len() <= LOG_CAPACITY,
            final(self)@ == appended(old(self)@, entry@),
            final(self)@.len() <= LOG_CAPACITY,
            final(self)@.last() == entry@,
    {
        proof {
            use_type_invariant(&*self);
        }
        if ring_is_full(&self.ring) {
            let _oldest = ring_dequeue(&mut self.ring);
        }
        let outcome = ring_enqueue(&mut self.ring, entry);
        assert(outcome is Ok);
    }

    /// A copy of the entries held at this moment, oldest first.
    pub fn snapshot(&self) -> (entries: Vec<LogEntry>)
        ensures
            entry_models(entries@) == self@,
            entries@.len() <= LOG_CAPACITY,
    {
        proof {
            use_type_invariant(self);
        }
        let entries = ring_items(&self.ring);
        assert(entry_models(entries@) =~= self@);
        entries
    }
}

/// Whether `after` is the log `before` with one more entry of the given
/// status and path, stamped with some time of day.
pub open spec fn logged(
    before: Seq<EntryModel>,
    after: Seq<EntryModel>,
    status_code: u16,
    path: Seq<char>,
) -> bool {
    &&& before.len() <= LOG_CAPACITY
    &&& 0 < after.len() <= LOG_CAPACITY
    &&& after == appended(before, after.last())
    &&& after.last().status_code == status_code
    &&& after.last().path == path
    &&& is_clock_text(after.last().timestamp)
}

/// Records a served request: stamps it with the local time of day and
/// appends it to the log.
pub fn log_request(log: &mut ActivityLog, status_code: u16, path: &str)
    ensures
        logged(old(log)@, final(log)@, status_code, path@),
{
    let timestamp = local_time_text();
    let entry = LogEntry::new(timestamp, status_code, String::from_str(path));
    log.append(entry);
}

/// However many entries are appended, the log never holds more than
/// `LOG_CAPACITY` of them, and it holds exactly the newest ones of all that
/// it was given, in the order in which they came.  In particular, after more
/// than `LOG_CAPACITY` appends the log is the last `LOG_CAPACITY` entries
/// appended.
pub proof fn lemma_appends_keep_newest<T>(log: Seq<T>, entries: Seq<T>)
    requires
        log.len() <= LOG_CAPACITY,
    ensures
        appended_all(log, entries).len() <= LOG_CAPACITY,
        appended_all(log, entries) == newest(log + entries, LOG_CAPACITY as nat),
        entries.len() >= LOG_CAPACITY ==> appended_all(log, entries) == entries.subrange(
            entries.len() - LOG_CAPACITY,
            entries.len() as int,
        ),
    decreases entries.len(),
{
    if entries.len() == 0 {
        assert(log + entries =~= log);
    } else {
        let next = appended(log, entries.first());
        lemma_appends_keep_newest(next, entries.drop_first());
        assert(log.push(entries.first()) + entries.drop_first() =~= log + entries);
        assert(newest(next + entries.drop_first(), LOG_CAPACITY as nat) =~= newest(
            log + entries,
            LOG_CAPACITY as nat,
        ));
    }
    if entries.len() >= LOG_CAPACITY {
        assert(newest(log + entries, LOG_CAPACITY as nat) =~= entries.subrange(
            entries.len() - LOG_CAPACITY,
            entries.len() as int,
        ));
    }
}

/// An entry that was just appended is the last one of the log, and so the
/// last one of a snapshot taken right after.
pub proof fn lemma_appended_entry_is_last<T>(log: Seq<T>, entry: T)
    ensures
        appended(log, entry).len() > 0,
        appended(log, entry).last() == entry,
{
}

} // verus!
