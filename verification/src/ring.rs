//! The fixed-capacity queue that backs the activity log.
//!
//! The storage is `heapless::spsc::Queue`, a ring buffer with head and tail
//! indices that never allocates.  Its code is not verified here: this file
//! states what each method used by the log does to the queue's contents.

use vstd::prelude::*;
use heapless::spsc::Queue;
use crate::entry::{EntryModel, LogEntry};

verus! {

/// Number of entries the log keeps.
pub const LOG_CAPACITY: usize = 10;

/// Number of slots of the queue.  The queue keeps one slot free to tell a
/// full ring from an empty one, so it holds one item less than it has slots.
pub const RING_SLOTS: usize = LOG_CAPACITY + 1;

/// `heapless::spsc::Queue`, opaque to the verifier.
#[verifier::external_type_specification]
#[verifier::external_body]
#[verifier::reject_recursive_types(T)]
pub struct ExQueue<T, const N: usize>(Queue<T, N>);

/// The entries that a queue holds, oldest first.
pub uninterp spec fn ring_entries(ring: &Queue<LogEntry, RING_SLOTS>) -> Seq<EntryModel>;

/// `Queue::new`: the new queue holds nothing.
#[verifier::external_body]
pub(crate) fn ring_new() -> (ring: Queue<LogEntry, RING_SLOTS>)
    ensures
        ring_entries(&ring) == Seq::<EntryModel>::empty(),
{
    Queue::new()
}

/// `Queue::is_full`: a queue is full when it holds one item less than it has
/// slots, and it never holds more.
#[verifier::external_body]
pub(crate) fn ring_is_full(ring: &Queue<LogEntry, RING_SLOTS>) -> (full: bool)
    ensures
        full ==> ring_entries(ring).len() == LOG_CAPACITY,
        !full ==> ring_entries(ring).len() < LOG_CAPACITY,
{
    ring.is_full()
}

/// `Queue::dequeue`: takes the oldest item out and returns it; on an empty
/// queue returns `None` and changes nothing.  It has no panicking path.
#[verifier::external_body]
pub(crate) fn ring_dequeue(ring: &mut Queue<LogEntry, RING_SLOTS>) -> (front: Option<LogEntry>)
    ensures
        ring_entries(old(ring)).len() == 0 ==> front is None && ring_entries(final(ring))
            == ring_entries(old(ring)),
        ring_entries(old(ring)).len() > 0 ==> front is Some && front->0@ == ring_entries(
            old(ring),
        ).first() && ring_entries(final(ring)) == ring_entries(old(ring)).drop_first(),
    no_unwind
{
    ring.dequeue()
}

/// `Queue::enqueue`: puts the item behind the newest one; on a full queue
/// hands the item back and changes nothing.  It has no panicking path.
#[verifier::external_body]
pub(crate) fn ring_enqueue(ring: &mut Queue<LogEntry, RING_SLOTS>, entry: LogEntry) -> (outcome:
    Result<(), LogEntry>)
    ensures
        ring_entries(old(ring)).len() < LOG_CAPACITY ==> outcome is Ok && ring_entries(final(ring))
            == ring_entries(old(ring)).push(entry@),
        ring_entries(old(ring)).len() >= LOG_CAPACITY ==> outcome is Err && outcome->Err_0@
            == entry@ && ring_entries(final(ring)) == ring_entries(old(ring)),
    no_unwind
{
    ring.enqueue(entry)
}

/// `Queue::iter`: walks the items from the oldest to the newest; each one is
/// copied into the result.
#[verifier::external_body]
pub(crate) fn ring_items(ring: &Queue<LogEntry, RING_SLOTS>) -> (items: Vec<LogEntry>)
    ensures
        items@.len() == ring_entries(ring).len(),
        forall|i: int| 0 <= i < items@.len() ==> (#[trigger] items@[i])@ == ring_entries(ring)[i],
{
    ring.iter().cloned().collect()
}

} // verus!
