//! The pending queue: a bounded, priority-ordered queue of runnable software
//! interrupt sources.
//!
//! Entries are `(priority, source)` pairs held in a `heapless` max-heap, so
//! the queue is modelled as a multiset of pairs and the next entry out is the
//! greatest pair in the order `entry_le` (priority first, then source number).
//! The tie-break among entries of equal priority is therefore deterministic:
//! the higher source number leaves first.

use vstd::multiset::Multiset;
use vstd::prelude::*;

use heapless::binary_heap::{BinaryHeap, Max};

use crate::SlicError;

verus! {

/// Depth of the backing store behind every pending queue.  A queue's logical
/// capacity is the number of software sources it serves, which must not exceed
/// this depth.
pub const QUEUE_DEPTH: usize = 64;

/// The backing store: a max-heap of `(priority, source)` pairs.  The heap is
/// opaque to the verifier; `pending_entries` names what it holds.
#[verifier::external_body]
pub struct PendingSlots {
    heap: BinaryHeap<(u8, u16), Max, QUEUE_DEPTH>,
}

/// The multiset of `(priority, source)` pairs a backing store holds.
pub uninterp spec fn pending_entries(q: PendingSlots) -> Multiset<(u8, u16)>;

/// Order on queue entries: by priority, then by source number.  This is the
/// lexicographic order on the pairs, the order the backing max-heap pops by.
pub open spec fn entry_le(a: (u8, u16), b: (u8, u16)) -> bool {
    a.0 < b.0 || (a.0 == b.0 && a.1 <= b.1)
}

/// `e` is a greatest entry of `entries` in the order `entry_le`.
pub open spec fn is_top(entries: Multiset<(u8, u16)>, e: (u8, u16)) -> bool {
    entries.contains(e) && forall|o: (u8, u16)| entries.contains(o) ==> entry_le(o, e)
}

/// Relies on `heapless::binary_heap::BinaryHeap::new`: a fresh heap is empty.
#[verifier::external_body]
fn slots_new() -> (r: PendingSlots)
    ensures
        pending_entries(r) == Multiset::<(u8, u16)>::empty(),
{
    PendingSlots { heap: BinaryHeap::new() }
}

/// Relies on `heapless::binary_heap::BinaryHeap::push`: the item is added when
/// the heap holds fewer than `QUEUE_DEPTH` entries; a full heap hands the item
/// back as an error and is left unchanged.
#[verifier::external_body]
fn slots_push(q: &mut PendingSlots, item: (u8, u16)) -> (ok: bool)
    ensures
        ok <==> pending_entries(*old(q)).len() < QUEUE_DEPTH,
        ok ==> pending_entries(*final(q)) == pending_entries(*old(q)).insert(item),
        !ok ==> pending_entries(*final(q)) == pending_entries(*old(q)),
{
    q.heap.push(item).is_ok()
}

/// Relies on `heapless::binary_heap::BinaryHeap::pop` on a max-heap: it removes
/// and returns the greatest entry, or `None` when the heap is empty.
#[verifier::external_body]
fn slots_pop(q: &mut PendingSlots) -> (r: Option<(u8, u16)>)
    ensures
        match r {
            Some(e) => is_top(pending_entries(*old(q)), e) && pending_entries(*final(q))
                == pending_entries(*old(q)).remove(e),
            None => pending_entries(*old(q)).len() == 0 && pending_entries(*final(q))
                == pending_entries(*old(q)),
        },
{
    q.heap.pop()
}

/// Relies on `heapless::binary_heap::BinaryHeap::peek` on a max-heap: it
/// returns the greatest entry without removing it, or `None` when empty.
#[verifier::external_body]
fn slots_peek(q: &PendingSlots) -> (r: Option<(u8, u16)>)
    ensures
        match r {
            Some(e) => is_top(pending_entries(*q), e),
            None => pending_entries(*q).len() == 0,
        },
{
    q.heap.peek().copied()
}

/// Relies on `heapless::binary_heap::BinaryHeap::len`.
#[verifier::external_body]
fn slots_len(q: &PendingSlots) -> (r: usize)
    ensures
        r == pending_entries(*q).len(),
{
    q.heap.len()
}

/// Relies on `heapless::binary_heap::BinaryHeap::clear`: it removes every
/// entry.
#[verifier::external_body]
fn slots_clear(q: &mut PendingSlots)
    ensures
        pending_entries(*final(q)) == Multiset::<(u8, u16)>::empty(),
{
    q.heap.clear()
}

/// Removing one occurrence of a contained entry shrinks a multiset by one and
/// leaves a subset behind.
pub proof fn lemma_remove_len(m: Multiset<(u8, u16)>, x: (u8, u16))
    requires
        m.contains(x),
    ensures
        m.remove(x).len() == m.len() - 1,
        m.remove(x).subset_of(m),
{
    broadcast use vstd::multiset::group_multiset_axioms;

    let s = Multiset::singleton(x);
    assert(s.subset_of(m));
    assert(m.remove(x) =~= m.sub(s));
}

/// What the controller reads and writes of the pending queue.
pub struct PendingQueueView {
    /// The pending `(priority, source)` pairs, with multiplicity.
    pub entries: Multiset<(u8, u16)>,
    /// How many entries the queue accepts: one per software source.
    pub capacity: nat,
}

/// Bounded, priority-ordered queue of runnable software interrupt sources.
/// `push` beyond the capacity is an error, never a silent drop.
pub struct PendingQueue {
    slots: PendingSlots,
    capacity: u16,
}

impl View for PendingQueue {
    type V = PendingQueueView;

    closed spec fn view(&self) -> PendingQueueView {
        PendingQueueView {
            entries: pending_entries(self.slots),
            capacity: self.capacity as nat,
        }
    }
}

impl PendingQueue {
    /// The queue never holds more entries than its capacity, and the capacity
    /// fits the backing store.
    pub open spec fn wf(&self) -> bool {
        self@.entries.len() <= self@.capacity && self@.capacity <= QUEUE_DEPTH
    }

    /// An empty queue for `capacity` software sources.
    pub fn new(capacity: u16) -> (r: PendingQueue)
        requires
            capacity <= QUEUE_DEPTH,
        ensures
            r.wf(),
            r@.entries == Multiset::<(u8, u16)>::empty(),
            r@.capacity == capacity as nat,
    {
        broadcast use vstd::multiset::group_multiset_axioms;

        PendingQueue { slots: slots_new(), capacity }
    }

    /// How many entries are pending.
    pub fn len(&self) -> (r: usize)
        ensures
            r == self@.entries.len(),
    {
        slots_len(&self.slots)
    }

    /// Whether nothing is pending.
    pub fn is_empty(&self) -> (r: bool)
        ensures
            r == (self@.entries.len() == 0),
    {
        self.len() == 0
    }

    /// Inserts the entry `(priority, source)`, or reports `QueueFull` and
    /// leaves the queue unchanged when the capacity is already reached.
    pub fn push(&mut self, priority: u8, source: u16) -> (r: Result<(), SlicError>)
        requires
            old(self).wf(),
        ensures
            final(self).wf(),
            final(self)@.capacity == old(self)@.capacity,
            old(self)@.entries.len() < old(self)@.capacity ==> r is Ok && final(self)@.entries
                == old(self)@.entries.insert((priority, source)),
            old(self)@.entries.len() >= old(self)@.capacity ==> r == Err::<(), SlicError>(
                SlicError::QueueFull,
            ) && final(self)@.entries == old(self)@.entries,
    {
        broadcast use vstd::multiset::group_multiset_axioms;

        if self.len() >= self.capacity as usize {
            return Err(SlicError::QueueFull);
        }
        let ok = slots_push(&mut self.slots, (priority, source));
        Ok(())
    }

    /// Returns the greatest pending entry without removing it, or `None` when
    /// nothing is pending.
    pub fn peek_max(&self) -> (r: Option<(u8, u16)>)
        ensures
            match r {
                Some(e) => is_top(self@.entries, e),
                None => self@.entries.len() == 0,
            },
    {
        slots_peek(&self.slots)
    }

    /// Removes and returns the greatest pending entry, or `None` when nothing
    /// is pending.
    pub fn pop_max(&mut self) -> (r: Option<(u8, u16)>)
        requires
            old(self).wf(),
        ensures
            final(self).wf(),
            final(self)@.capacity == old(self)@.capacity,
            match r {
                Some(e) => is_top(old(self)@.entries, e) && final(self)@.entries == old(
                    self,
                )@.entries.remove(e),
                None => old(self)@.entries.len() == 0 && final(self)@.entries == old(
                    self,
                )@.entries,
            },
    {
        let r = slots_pop(&mut self.slots);
        proof {
            if let Some(e) = r {
                lemma_remove_len(old(self)@.entries, e);
            }
        }
        r
    }

    /// Empties the queue.
    pub fn clear(&mut self)
        requires
            old(self).wf(),
        ensures
            final(self).wf(),
            final(self)@.capacity == old(self)@.capacity,
            final(self)@.entries == Multiset::<(u8, u16)>::empty(),
    {
        broadcast use vstd::multiset::group_multiset_axioms;

        slots_clear(&mut self.slots)
    }
}

} // verus!
