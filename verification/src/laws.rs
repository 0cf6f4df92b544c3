//! The controller's stated laws, proved over the spec-level state
//! [`SlicView`] that every operation's contract speaks of.

use vstd::multiset::Multiset;
use vstd::prelude::*;

use crate::queue::{entry_le, is_top, lemma_remove_len};
use crate::slic::{ready_for, reset_view, saturated, SlicView};

verus! {

/// The entry a drain step selects in state `v`: it is pending, it stands
/// strictly above the threshold, and it is the greatest pending entry.  This
/// is exactly what `Slic::pop` promises of a returned entry.
pub open spec fn dispatches(v: SlicView, e: (u8, u16)) -> bool {
    e.0 > v.threshold && is_top(v.queue, e)
}

/// Every nonempty collection of entries has a greatest entry.
pub proof fn lemma_top_exists(m: Multiset<(u8, u16)>)
    requires
        m.len() > 0,
    ensures
        exists|t: (u8, u16)| is_top(m, t),
    decreases m.len(),
{
    broadcast use vstd::multiset::group_multiset_axioms;

    let x = m.choose();
    assert(m.contains(x));
    let rest = m.remove(x);
    lemma_remove_len(m, x);
    if rest.len() == 0 {
        assert forall|o: (u8, u16)| m.contains(o) implies entry_le(o, x) by {
            if o != x {
                assert(rest.count(o) == m.count(o));
                assert(rest.count(o) <= rest.len());
            }
        }
        assert(is_top(m, x));
    } else {
        lemma_top_exists(rest);
        let t = choose|t: (u8, u16)| is_top(rest, t);
        let best: (u8, u16) = if entry_le(t, x) {
            x
        } else {
            t
        };
        if !entry_le(t, x) {
            assert(m.count(t) >= rest.count(t));
        }
        assert forall|o: (u8, u16)| m.contains(o) implies entry_le(o, best) by {
            if o != x {
                assert(rest.count(o) == m.count(o));
                assert(rest.contains(o));
                assert(entry_le(o, t));
            }
        }
        assert(is_top(m, best));
    }
}

/// A drain step never selects an entry whose priority is at or below the
/// threshold: such a source cannot start until the threshold drops.
pub proof fn lemma_priority_masking(v: SlicView, e: (u8, u16))
    requires
        e.0 <= v.threshold,
    ensures
        !dispatches(v, e),
{
}

/// A controller that reports ready has a greatest pending entry, and the
/// next drain step selects it.
pub proof fn lemma_ready_dispatches(v: SlicView)
    requires
        ready_for(v.queue, v.threshold),
    ensures
        exists|e: (u8, u16)| dispatches(v, e),
{
    broadcast use vstd::multiset::group_multiset_axioms;

    let w = choose|w: (u8, u16)| v.queue.contains(w) && w.0 > v.threshold;
    assert(v.queue.count(w) <= v.queue.len());
    lemma_top_exists(v.queue);
    let t = choose|t: (u8, u16)| is_top(v.queue, t);
    assert(entry_le(w, t));
    assert(dispatches(v, t));
}

/// Ceiling exclusivity: while the threshold stands at or above a ceiling, no
/// entry at a priority at or below that ceiling is selected.  Two contexts
/// that enter `lock` with a common ceiling at or above both their priorities
/// therefore cannot interleave their bodies: whichever holds the raised
/// threshold masks the other out entirely.
pub proof fn lemma_ceiling_exclusive(v: SlicView, ceiling: u8, e: (u8, u16))
    requires
        v.threshold >= ceiling,
        e.0 <= ceiling,
    ensures
        !dispatches(v, e),
{
}

/// Idempotent reset: the reset sequence drives the controller to a state that
/// depends only on what the reset keeps, so running it twice in a row leaves
/// exactly the state one run leaves.
pub proof fn lemma_reset_idempotent(v: SlicView)
    ensures
        reset_view(reset_view(v)) == reset_view(v),
{
    assert(reset_view(reset_view(v)) =~= reset_view(v));
}

/// Saturation: a threshold or priority request lands in the platform range —
/// never above the ceiling, and taken as is when already in range.
pub proof fn lemma_saturation(priority: u8, max: u8)
    ensures
        saturated(priority, max) <= max,
        priority <= max ==> saturated(priority, max) == priority,
{
}

} // verus!
