//! The dispatcher: the drain loop behind the core-local software trap, and
//! the two scoped mask-raising primitives, `run` and `lock`.
//!
//! The trap entry point of the board crate calls [`machine_soft`] with the
//! application's handler table.  The loop clears the trigger line first — a
//! pend arriving while the loop drains re-asserts the line for a future cycle
//! instead of being lost — then repeatedly takes the greatest pending entry
//! above the threshold and runs its handler with the threshold raised to the
//! entry's priority, restoring the previous threshold afterwards.  While a
//! handler at priority `p` runs, no source at priority `p` or below can
//! start; a pend above `p` re-enters the dispatcher through nested trap
//! entry.

use vstd::prelude::*;

use crate::queue::{is_top, QUEUE_DEPTH};
use crate::slic::{ready_for, Slic};

verus! {

/// The application's software interrupt handlers, indexed by source number.
/// The generated handler table of a board crate stands behind an
/// implementation of this trait.
pub trait SoftHandlers {
    /// Runs the handler of software source `source`, dispatched at
    /// `priority` — the priority its entry was pended with.  The dispatcher
    /// only calls this with the threshold raised to exactly that priority, so
    /// while the handler runs nothing at or below it can be dispatched.  A
    /// handler may work the controller through its public operations — pend
    /// further sources, change priorities, take a ceiling lock; all of those
    /// keep the controller well formed and never change the source count or
    /// the platform ceiling, which is what the dispatcher relies on here.
    fn handle(&mut self, slic: &mut Slic, priority: u8, source: u16)
        requires
            old(slic).wf(),
            source < old(slic)@.n_sources,
            old(slic)@.threshold == priority,
        ensures
            final(slic).wf(),
            final(slic)@.n_sources == old(slic)@.n_sources,
            final(slic)@.max_priority == old(slic)@.max_priority,
    ;
}

/// The software-trap entry: one drain cycle.  Clears the trigger line, then
/// pops and runs pending entries above the threshold, each at its own
/// priority.  One trap entry takes at most [`QUEUE_DEPTH`] entries; if the
/// handlers keep the queue ready beyond that, the trigger line is re-asserted
/// and the next trap continues with the same queue and threshold, running the
/// very same handler sequence — so a source whose handler re-pends itself
/// unconditionally drains forever across traps, by design.  On return either
/// the controller is idle — no pending entry stands above the threshold — or
/// the trigger line is asserted for the next cycle: in particular, an entry
/// pended from within a handler during the cycle is never lost.  The
/// threshold leaves as it entered.
///
/// The returned ghost log lists the dispatched `(priority, source)` entries
/// in dispatch order: every one of them names a real source and stood
/// strictly above the entering threshold when it was selected.  A ready
/// controller makes progress — at least one entry is dispatched, and the
/// first one is the greatest entry that was pending on entry; a controller
/// with nothing ready leaves its queue untouched and the trigger line low.
pub fn machine_soft<H: SoftHandlers>(slic: &mut Slic, handlers: &mut H) -> (log: Ghost<
    Seq<(u8, u16)>,
>)
    requires
        old(slic).wf(),
    ensures
        final(slic).wf(),
        final(slic)@.n_sources == old(slic)@.n_sources,
        final(slic)@.max_priority == old(slic)@.max_priority,
        final(slic)@.threshold == old(slic)@.threshold,
        !ready_for(final(slic)@.queue, final(slic)@.threshold) || final(slic)@.swi_pending,
        forall|i: int|
            0 <= i < log@.len() ==> (#[trigger] log@[i]).0 > old(slic)@.threshold && log@[i].1
                < old(slic)@.n_sources,
        ready_for(old(slic)@.queue, old(slic)@.threshold) ==> log@.len() >= 1 && is_top(
            old(slic)@.queue,
            log@[0],
        ),
        !ready_for(old(slic)@.queue, old(slic)@.threshold) ==> final(slic)@.queue == old(
            slic,
        )@.queue && !final(slic)@.swi_pending,
{
    slic.swi_clear();
    let ghost t0 = slic@.threshold;
    let ghost n0 = slic@.n_sources;
    let ghost m0 = slic@.max_priority;
    let ghost q0 = slic@.queue;
    let ghost mut trace: Seq<(u8, u16)> = Seq::empty();
    let mut budget: usize = QUEUE_DEPTH;
    loop
        invariant
            slic.wf(),
            slic@.threshold == t0,
            slic@.n_sources == n0,
            slic@.max_priority == m0,
            budget <= QUEUE_DEPTH,
            trace.len() == QUEUE_DEPTH - budget,
            trace.len() == 0 ==> slic@.queue == q0 && !slic@.swi_pending,
            trace.len() >= 1 ==> is_top(q0, trace[0]),
            forall|i: int|
                0 <= i < trace.len() ==> (#[trigger] trace[i]).0 > t0 && trace[i].1 < n0,
        ensures
            slic.wf(),
            slic@.threshold == t0,
            slic@.n_sources == n0,
            slic@.max_priority == m0,
            !ready_for(slic@.queue, t0) || slic@.swi_pending,
            ready_for(q0, t0) ==> trace.len() >= 1 && is_top(q0, trace[0]),
            !ready_for(q0, t0) ==> slic@.queue == q0 && !slic@.swi_pending,
            forall|i: int|
                0 <= i < trace.len() ==> (#[trigger] trace[i]).0 > t0 && trace[i].1 < n0,
        decreases budget,
    {
        if budget == 0 {
            proof {
                // A spent budget means entries were dispatched, so the first
                // logged entry witnesses that the controller entered ready.
                assert(q0.contains(trace[0]) && trace[0].0 > t0);
                assert(ready_for(q0, t0));
            }
            if slic.is_ready() {
                slic.swi_set();
            }
            break ;
        }
        match slic.pop() {
            None => {
                proof {
                    if trace.len() >= 1 {
                        assert(q0.contains(trace[0]) && trace[0].0 > t0);
                        assert(ready_for(q0, t0));
                    }
                }
                break ;
            },
            Some((priority, source)) => {
                proof {
                    trace = trace.push((priority, source));
                }
                let saved = slic.get_threshold();
                slic.set_threshold(priority);
                handlers.handle(slic, priority, source);
                slic.set_threshold(saved);
                budget -= 1;
            },
        }
    }
    Ghost(trace)
}

/// Runs `f` under a raised mask: the threshold is set to `priority` for the
/// duration of the call and restored afterwards, without the full dispatcher
/// loop.  If `priority` is below the current threshold the mask drops for the
/// duration — choosing a sufficient priority is the caller's charge, exactly
/// as with [`lock`].
pub fn run<F: FnOnce()>(slic: &mut Slic, priority: u8, f: F)
    requires
        old(slic).wf(),
        call_requires(f, ()),
    ensures
        final(slic).wf(),
        final(slic)@ == old(slic)@,
        call_ensures(f, (), ()),
{
    let saved = slic.get_threshold();
    slic.set_threshold(priority);
    f();
    slic.set_threshold(saved);
    proof {
        assert(slic@ =~= old(slic)@);
    }
}

/// The ceiling lock: runs `f` — which owns or borrows the shared value —
/// with the threshold raised to `ceiling`, restores the previous threshold,
/// and returns `f`'s result.  While the threshold stands at the ceiling, no
/// source at priority `ceiling` or below can be dispatched, so a caller that
/// picks `ceiling` at or above the highest priority of every other context
/// touching the same value gets exclusive access to it; the lock itself does
/// not police that choice.
pub fn lock<R, F: FnOnce() -> R>(slic: &mut Slic, ceiling: u8, f: F) -> (r: R)
    requires
        old(slic).wf(),
        call_requires(f, ()),
    ensures
        final(slic).wf(),
        final(slic)@ == old(slic)@,
        call_ensures(f, (), r),
{
    let saved = slic.get_threshold();
    slic.set_threshold(ceiling);
    let r = f();
    slic.set_threshold(saved);
    proof {
        assert(slic@ =~= old(slic)@);
    }
    r
}

} // verus!
