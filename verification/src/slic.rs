//! The controller: priority table, threshold gate, pending queue and trigger
//! state, with the per-source operations (`pend`, `pop`, priority and
//! threshold access) and the initialization sequence (`clear_interrupts`,
//! `set_interrupts`, `enable`, `disable`).
//!
//! The threshold gate is a single value masking both domains: the platform
//! controller's masking register is required to follow it, so one field
//! carries both.  The machine-level interrupt-enable bits and the core-local
//! software-pending bit are carried as the `ext_enabled`, `soft_enabled`,
//! `global_enabled` and `swi_pending` lines; a board crate mirrors them into
//! the real registers.

use vstd::multiset::Multiset;
use vstd::prelude::*;

use crate::queue::{entry_le, is_top, PendingQueue, QUEUE_DEPTH};
use crate::SlicError;

verus! {

/// Everything the controller's operations read and write.
#[verifier::ext_equal]
pub struct SlicView {
    /// How many software sources exist; their numbers are `0 .. n_sources`.
    pub n_sources: u16,
    /// The platform's greatest priority.  Priorities and the threshold
    /// saturate here; priority `0` means fully masked.
    pub max_priority: u8,
    /// Priority of each software source, indexed by source number.
    pub priorities: Seq<u8>,
    /// The threshold gate: only sources with a strictly greater priority run.
    pub threshold: u8,
    /// The pending `(priority, source)` entries.
    pub queue: Multiset<(u8, u16)>,
    /// The core-local software trap line (pending bit).
    pub swi_pending: bool,
    /// The machine external-interrupt enable bit.
    pub ext_enabled: bool,
    /// The machine software-interrupt enable bit.
    pub soft_enabled: bool,
    /// The global interrupt enable, gating the whole subsystem.
    pub global_enabled: bool,
    /// For each hardware source number, the software source it is bypassed
    /// to, or `None` for a pass-through source with its own direct handler.
    pub bypass: Seq<Option<u16>>,
}

/// `priority` brought into the platform range: values above `max` saturate to
/// `max`, never an error.
pub open spec fn saturated(priority: u8, max: u8) -> u8 {
    if priority > max {
        max
    } else {
        priority
    }
}

/// Some queued entry is above the threshold, so a drain cycle is due.
pub open spec fn ready_for(queue: Multiset<(u8, u16)>, threshold: u8) -> bool {
    exists|e: (u8, u16)| queue.contains(e) && e.0 > threshold
}

/// A well-formed controller state: the priority table covers exactly the
/// software sources and respects the platform ceiling, the threshold is in
/// range, queued entries name real sources with in-range priorities, the
/// queue respects its capacity (one slot per source), and the bypass table
/// routes only to real sources.
pub open spec fn wf_view(v: SlicView) -> bool {
    &&& v.priorities.len() == v.n_sources
    &&& v.threshold <= v.max_priority
    &&& forall|i: int| 0 <= i < v.priorities.len() ==> v.priorities[i] <= v.max_priority
    &&& v.queue.len() <= v.n_sources
    &&& forall|e: (u8, u16)|
        v.queue.contains(e) ==> e.1 < v.n_sources && e.0 <= v.max_priority
    &&& forall|h: int|
        0 <= h < v.bypass.len() ==> (#[trigger] v.bypass[h] matches Some(sw) ==> sw < v.n_sources)
    &&& v.n_sources <= QUEUE_DEPTH
}

/// The static tables are untouched: source count, ceiling, priorities and the
/// bypass routing all carry over from `a` to `b`.
pub open spec fn same_config(a: SlicView, b: SlicView) -> bool {
    &&& b.n_sources == a.n_sources
    &&& b.max_priority == a.max_priority
    &&& b.priorities == a.priorities
    &&& b.bypass == a.bypass
}

/// The trigger and enable lines are untouched from `a` to `b`.
pub open spec fn same_lines(a: SlicView, b: SlicView) -> bool {
    &&& b.swi_pending == a.swi_pending
    &&& b.ext_enabled == a.ext_enabled
    &&& b.soft_enabled == a.soft_enabled
    &&& b.global_enabled == a.global_enabled
}

/// What `pend` does: an unknown source is rejected, a full queue is reported,
/// and otherwise the source's entry joins the queue at its current priority
/// and the software trap line is asserted exactly when some entry now stands
/// above the threshold.
pub open spec fn pend_effect(
    pre: SlicView,
    source: u16,
    post: SlicView,
    r: Result<(), SlicError>,
) -> bool {
    &&& same_config(pre, post)
    &&& post.threshold == pre.threshold
    &&& post.ext_enabled == pre.ext_enabled
    &&& post.soft_enabled == pre.soft_enabled
    &&& post.global_enabled == pre.global_enabled
    &&& if source >= pre.n_sources {
        r == Err::<(), SlicError>(SlicError::InvalidSource) && post == pre
    } else if pre.queue.len() >= pre.n_sources {
        r == Err::<(), SlicError>(SlicError::QueueFull) && post == pre
    } else {
        &&& r is Ok
        &&& post.queue == pre.queue.insert((pre.priorities[source as int], source))
        &&& post.swi_pending == (pre.swi_pending || ready_for(post.queue, pre.threshold))
    }
}

/// The state `clear_interrupts` drives the controller to: threshold fully
/// masked, queue empty, trap line clear, both enable bits off.  The global
/// enable and the static tables are untouched.
pub open spec fn reset_view(v: SlicView) -> SlicView {
    SlicView {
        threshold: v.max_priority,
        queue: Multiset::empty(),
        swi_pending: false,
        ext_enabled: false,
        soft_enabled: false,
        ..v
    }
}

/// The software-level interrupt controller.
pub struct Slic {
    n_sources: u16,
    max_priority: u8,
    priorities: Vec<u8>,
    threshold: u8,
    queue: PendingQueue,
    swi_pending: bool,
    ext_enabled: bool,
    soft_enabled: bool,
    global_enabled: bool,
    bypass: Vec<Option<u16>>,
}

impl View for Slic {
    type V = SlicView;

    closed spec fn view(&self) -> SlicView {
        SlicView {
            n_sources: self.n_sources,
            max_priority: self.max_priority,
            priorities: self.priorities@,
            threshold: self.threshold,
            queue: self.queue@.entries,
            swi_pending: self.swi_pending,
            ext_enabled: self.ext_enabled,
            soft_enabled: self.soft_enabled,
            global_enabled: self.global_enabled,
            bypass: self.bypass@,
        }
    }
}

/// Converts a requested priority to the platform range: values above `max`
/// saturate to `max`.
pub fn saturated_priority(priority: u8, max: u8) -> (r: u8)
    ensures
        r == saturated(priority, max),
{
    if priority > max {
        max
    } else {
        priority
    }
}

impl Slic {
    /// The pending queue's capacity equals the source count.
    pub closed spec fn inv(&self) -> bool {
        self.queue.wf() && self.queue@.capacity == self.n_sources as nat
    }

    /// A well-formed controller.  Constructors establish this and every
    /// operation preserves it.
    pub open spec fn wf(&self) -> bool {
        self.inv() && wf_view(self@)
    }

    /// A controller for `n_sources` software sources on a platform whose
    /// greatest priority is `max_priority`, with hardware sources routed by
    /// `bypass`.  Every priority starts at `0` (fully masked), the threshold
    /// at `0`, the queue empty, every line clear: the initialization
    /// sequence (`clear_interrupts`, then `set_interrupts`) must still run
    /// before first use.
    pub fn new(n_sources: u16, max_priority: u8, bypass: Vec<Option<u16>>) -> (r: Slic)
        requires
            n_sources <= QUEUE_DEPTH,
            forall|h: int|
                0 <= h < bypass@.len() ==> (#[trigger] bypass@[h] matches Some(sw) ==> sw
                    < n_sources),
        ensures
            r.wf(),
            r@ == (SlicView {
                n_sources,
                max_priority,
                priorities: Seq::new(n_sources as nat, |i: int| 0u8),
                threshold: 0u8,
                queue: Multiset::empty(),
                swi_pending: false,
                ext_enabled: false,
                soft_enabled: false,
                global_enabled: false,
                bypass: bypass@,
            }),
    {
        broadcast use vstd::multiset::group_multiset_axioms;

        let mut priorities: Vec<u8> = Vec::new();
        let mut i: u16 = 0;
        while i < n_sources
            invariant
                i <= n_sources,
                priorities@.len() == i as nat,
                forall|j: int| 0 <= j < i ==> priorities@[j] == 0u8,
            decreases n_sources - i,
        {
            priorities.push(0u8);
            i += 1;
        }
        let r = Slic {
            n_sources,
            max_priority,
            priorities,
            threshold: 0,
            queue: PendingQueue::new(n_sources),
            swi_pending: false,
            ext_enabled: false,
            soft_enabled: false,
            global_enabled: false,
            bypass,
        };
        proof {
            assert(r@.priorities =~= Seq::new(n_sources as nat, |i: int| 0u8));
            assert(r@ =~= (SlicView {
                n_sources,
                max_priority,
                priorities: Seq::new(n_sources as nat, |i: int| 0u8),
                threshold: 0u8,
                queue: Multiset::empty(),
                swi_pending: false,
                ext_enabled: false,
                soft_enabled: false,
                global_enabled: false,
                bypass: r@.bypass,
            }));
        }
        r
    }

    /// How many software sources the controller serves.
    pub fn source_count(&self) -> (r: u16)
        ensures
            r == self@.n_sources,
    {
        self.n_sources
    }

    /// The platform's greatest priority.
    pub fn priority_ceiling(&self) -> (r: u8)
        ensures
            r == self@.max_priority,
    {
        self.max_priority
    }

    /// How many hardware source numbers the bypass table covers.
    pub fn bypass_len(&self) -> (r: usize)
        ensures
            r == self@.bypass.len(),
    {
        self.bypass.len()
    }

    /// The software source a claimed hardware source is bypassed to, or
    /// `None` for a pass-through source.
    pub fn bypassed_to(&self, hw: u16) -> (r: Option<u16>)
        requires
            (hw as int) < self@.bypass.len(),
        ensures
            r == self@.bypass[hw as int],
    {
        self.bypass[hw as usize]
    }

    /// Checks a raw source number against the set of software sources.  A
    /// number with no source behind it is a linkage mismatch, surfaced as
    /// `InvalidSource`.
    pub fn check_source(&self, number: u16) -> (r: Result<u16, SlicError>)
        ensures
            number < self@.n_sources ==> r == Ok::<u16, SlicError>(number),
            number >= self@.n_sources ==> r == Err::<u16, SlicError>(SlicError::InvalidSource),
    {
        if number < self.n_sources {
            Ok(number)
        } else {
            Err(SlicError::InvalidSource)
        }
    }

    /// The current threshold.
    pub fn get_threshold(&self) -> (r: u8)
        ensures
            r == self@.threshold,
    {
        self.threshold
    }

    /// Sets the threshold gate, saturating at the platform ceiling.  Both
    /// masking domains follow this single value.
    pub fn set_threshold(&mut self, priority: u8)
        requires
            old(self).wf(),
        ensures
            final(self).wf(),
            same_config(old(self)@, final(self)@),
            same_lines(old(self)@, final(self)@),
            final(self)@.queue == old(self)@.queue,
            final(self)@.threshold == saturated(priority, old(self)@.max_priority),
    {
        self.threshold = saturated_priority(priority, self.max_priority);
    }

    /// The priority of a software source.
    pub fn get_priority(&self, source: u16) -> (r: u8)
        requires
            source < self@.n_sources,
            self.wf(),
        ensures
            r == self@.priorities[source as int],
    {
        self.priorities[source as usize]
    }

    /// Sets the priority of a software source, saturating at the platform
    /// ceiling.  Entries already queued keep the priority they were pended
    /// with.
    pub fn set_priority(&mut self, source: u16, priority: u8)
        requires
            old(self).wf(),
            source < old(self)@.n_sources,
        ensures
            final(self).wf(),
            final(self)@.priorities == old(self)@.priorities.update(
                source as int,
                saturated(priority, old(self)@.max_priority),
            ),
            final(self)@.n_sources == old(self)@.n_sources,
            final(self)@.max_priority == old(self)@.max_priority,
            final(self)@.bypass == old(self)@.bypass,
            final(self)@.threshold == old(self)@.threshold,
            final(self)@.queue == old(self)@.queue,
            same_lines(old(self)@, final(self)@),
    {
        let p = saturated_priority(priority, self.max_priority);
        self.priorities[source as usize] = p;
    }

    /// Whether some queued entry stands above the threshold, so that a drain
    /// cycle is due.
    pub fn is_ready(&self) -> (r: bool)
        ensures
            r == ready_for(self@.queue, self@.threshold),
    {
        broadcast use vstd::multiset::group_multiset_axioms;

        match self.queue.peek_max() {
            Some(top) => {
                proof {
                    if top.0 <= self@.threshold {
                        assert forall|o: (u8, u16)|
                            self@.queue.contains(o) implies o.0 <= self@.threshold by {
                            assert(entry_le(o, top));
                        }
                    }
                }
                top.0 > self.threshold
            },
            None => {
                proof {
                    if ready_for(self@.queue, self@.threshold) {
                        let e = choose|e: (u8, u16)|
                            self@.queue.contains(e) && e.0 > self@.threshold;
                        assert(self@.queue.count(e) <= self@.queue.len());
                    }
                }
                false
            },
        }
    }

    /// Asserts the core-local software trap line.
    pub fn swi_set(&mut self)
        requires
            old(self).wf(),
        ensures
            final(self).wf(),
            final(self)@ == (SlicView { swi_pending: true, ..old(self)@ }),
    {
        self.swi_pending = true;
    }

    /// Clears the core-local software trap line.  The dispatcher does this on
    /// entry, so a pend arriving while it drains re-asserts the line for a
    /// future cycle instead of being lost.
    pub fn swi_clear(&mut self)
        requires
            old(self).wf(),
        ensures
            final(self).wf(),
            final(self)@ == (SlicView { swi_pending: false, ..old(self)@ }),
    {
        self.swi_pending = false;
    }

    /// Whether the core-local software trap line is asserted.
    pub fn swi_is_pending(&self) -> (r: bool)
        ensures
            r == self@.swi_pending,
    {
        self.swi_pending
    }

    /// Whether the machine external-interrupt enable bit is set.
    pub fn ext_is_enabled(&self) -> (r: bool)
        ensures
            r == self@.ext_enabled,
    {
        self.ext_enabled
    }

    /// Whether the machine software-interrupt enable bit is set.
    pub fn soft_is_enabled(&self) -> (r: bool)
        ensures
            r == self@.soft_enabled,
    {
        self.soft_enabled
    }

    /// Whether the global interrupt enable is on.
    pub fn is_enabled(&self) -> (r: bool)
        ensures
            r == self@.global_enabled,
    {
        self.global_enabled
    }

    /// How many entries are pending.
    pub fn pending_len(&self) -> (r: usize)
        ensures
            r == self@.queue.len(),
    {
        self.queue.len()
    }

    /// Opens the global gate: traps of this subsystem may be taken.
    pub fn enable(&mut self)
        requires
            old(self).wf(),
        ensures
            final(self).wf(),
            final(self)@ == (SlicView { global_enabled: true, ..old(self)@ }),
    {
        self.global_enabled = true;
    }

    /// Closes the global gate: no trap of this subsystem is taken.
    pub fn disable(&mut self)
        requires
            old(self).wf(),
        ensures
            final(self).wf(),
            final(self)@ == (SlicView { global_enabled: false, ..old(self)@ }),
    {
        self.global_enabled = false;
    }

    /// The idempotent reset: clears both enable bits, every pending entry and
    /// the trap line, and masks the threshold fully.  Must run before first
    /// use, so stale boot-time pending state is never acted on; the global
    /// gate and the tables are untouched.
    pub fn clear_interrupts(&mut self)
        requires
            old(self).wf(),
        ensures
            final(self).wf(),
            final(self)@ == reset_view(old(self)@),
    {
        self.ext_enabled = false;
        self.soft_enabled = false;
        self.queue.clear();
        self.swi_pending = false;
        self.set_threshold(u8::MAX);
        proof {
            assert(self@ =~= reset_view(old(self)@));
        }
    }

    /// Arms the controller: threshold fully open (`0`), both enable bits set.
    /// Call after `clear_interrupts`, never before it.
    pub fn set_interrupts(&mut self)
        requires
            old(self).wf(),
        ensures
            final(self).wf(),
            final(self)@ == (SlicView {
                threshold: 0u8,
                ext_enabled: true,
                soft_enabled: true,
                ..old(self)@
            }),
    {
        self.set_threshold(0);
        self.ext_enabled = true;
        self.soft_enabled = true;
        proof {
            assert(self@ =~= (SlicView {
                threshold: 0u8,
                ext_enabled: true,
                soft_enabled: true,
                ..old(self)@
            }));
        }
    }

    /// Marks a software source pending at its current priority and asserts
    /// the software trap line when the new state is ready.  An unknown source
    /// number is rejected; a full queue is reported rather than dropping the
    /// pend.
    pub fn pend(&mut self, source: u16) -> (r: Result<(), SlicError>)
        requires
            old(self).wf(),
        ensures
            final(self).wf(),
            pend_effect(old(self)@, source, final(self)@, r),
    {
        broadcast use vstd::multiset::group_multiset_axioms;

        if source >= self.n_sources {
            return Err(SlicError::InvalidSource);
        }
        let prio = self.priorities[source as usize];
        match self.queue.push(prio, source) {
            Err(e) => Err(e),
            Ok(()) => {
                proof {
                    let pre = old(self)@;
                    let newe = (pre.priorities[source as int], source);
                    assert forall|o: (u8, u16)|
                        self@.queue.contains(o) implies o.1 < self@.n_sources && o.0
                        <= self@.max_priority by {
                        if o != newe {
                            assert(self@.queue.count(o) == pre.queue.count(o));
                            assert(pre.queue.contains(o));
                        }
                    }
                }
                if self.is_ready() {
                    self.swi_pending = true;
                }
                Ok(())
            },
        }
    }

    /// One dispatcher step: removes and returns the greatest pending entry if
    /// it stands above the threshold.  `None` means the controller is idle —
    /// every queued entry (if any) is at or below the threshold.
    pub fn pop(&mut self) -> (r: Option<(u8, u16)>)
        requires
            old(self).wf(),
        ensures
            final(self).wf(),
            same_config(old(self)@, final(self)@),
            same_lines(old(self)@, final(self)@),
            final(self)@.threshold == old(self)@.threshold,
            match r {
                Some(e) => {
                    &&& e.0 > old(self)@.threshold
                    &&& e.1 < old(self)@.n_sources
                    &&& is_top(old(self)@.queue, e)
                    &&& final(self)@.queue == old(self)@.queue.remove(e)
                },
                None => {
                    &&& !ready_for(old(self)@.queue, old(self)@.threshold)
                    &&& final(self)@.queue == old(self)@.queue
                },
            },
    {
        broadcast use vstd::multiset::group_multiset_axioms;

        if self.is_ready() {
            let ghost pre = self@;
            match self.queue.pop_max() {
                Some(e) => {
                    proof {
                        let w = choose|w: (u8, u16)| pre.queue.contains(w) && w.0 > pre.threshold;
                        assert(entry_le(w, e));
                        crate::queue::lemma_remove_len(pre.queue, e);
                        assert forall|o: (u8, u16)|
                            self@.queue.contains(o) implies o.1 < self@.n_sources && o.0
                            <= self@.max_priority by {
                            assert(self@.queue.count(o) <= pre.queue.count(o));
                            assert(pre.queue.contains(o));
                        }
                    }
                    Some(e)
                },
                None => {
                    proof {
                        let w = choose|w: (u8, u16)| pre.queue.contains(w) && w.0 > pre.threshold;
                        assert(pre.queue.count(w) <= pre.queue.len());
                        assert(false);
                    }
                    None
                },
            }
        } else {
            None
        }
    }
}

} // verus!
