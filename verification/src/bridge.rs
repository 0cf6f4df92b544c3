//! The external bridge: the trap entry behind the platform interrupt
//! controller's line.
//!
//! The board crate claims the highest-priority pending hardware interrupt
//! from the platform controller and hands the claimed number to
//! [`machine_external`].  A source in the hardware-to-software bypass table
//! has its acknowledgment hook run (a short routine whose sole charge is to
//! clear the originating peripheral's own pending condition) and its software
//! source pended through the normal trigger path; every other source runs its
//! own directly registered handler in place, with no dispatcher involvement.
//! The board crate then signals completion for the claimed number; claiming
//! nothing and completing an already-inactive number are benign no-ops of the
//! hardware protocol, not errors.

use vstd::prelude::*;

use crate::slic::{pend_effect, same_config, Slic, SlicView};
use crate::SlicError;

verus! {

/// What an acknowledgment hook may do to the controller: it clears peripheral
/// state and may pend software sources, so the queue can only grow and an
/// asserted trigger line stays asserted; the tables, the threshold and the
/// enable bits are left alone.
pub open spec fn ack_effect(pre: SlicView, post: SlicView) -> bool {
    &&& same_config(pre, post)
    &&& post.threshold == pre.threshold
    &&& post.ext_enabled == pre.ext_enabled
    &&& post.soft_enabled == pre.soft_enabled
    &&& post.global_enabled == pre.global_enabled
    &&& pre.queue.subset_of(post.queue)
    &&& (pre.swi_pending ==> post.swi_pending)
}

/// The application's hardware-side handlers: acknowledgment hooks for
/// bypassed sources and direct handlers for pass-through sources.
pub trait ExtHandlers {
    /// Acknowledges the peripheral behind the hardware source bypassed to
    /// software source `source`: clears the peripheral's own
    /// interrupt-pending condition (failing to do so causes a re-trigger
    /// storm — the hook's charge, not the bridge's).  A hook may also pend
    /// sources, as [`ack_effect`] allows.
    fn acknowledge(&mut self, slic: &mut Slic, source: u16)
        requires
            old(slic).wf(),
            source < old(slic)@.n_sources,
        ensures
            final(slic).wf(),
            ack_effect(old(slic)@, final(slic)@),
    ;

    /// Runs the directly registered handler of pass-through hardware source
    /// `claimed`, at the hardware controller's own priority semantics.  It
    /// gets no access to the controller state.
    fn external(&mut self, claimed: u16);
}

/// The external-trap entry for one claimed hardware interrupt.  `claimed` is
/// what the platform controller's claim returned; `None` (nothing pending) is
/// a benign no-op.  A bypassed source has its acknowledgment hook run exactly
/// once and then exactly one entry — its software source, at that source's
/// current priority — pushed through the normal pend path; any other source,
/// covered by the table or not, runs its own directly registered handler and
/// the controller is left untouched.  The only error is a pend hitting a
/// full queue.
pub fn machine_external<H: ExtHandlers>(slic: &mut Slic, handlers: &mut H, claimed: Option<
    u16,
>) -> (r: Result<(), SlicError>)
    requires
        old(slic).wf(),
    ensures
        final(slic).wf(),
        same_config(old(slic)@, final(slic)@),
        final(slic)@.threshold == old(slic)@.threshold,
        final(slic)@.ext_enabled == old(slic)@.ext_enabled,
        final(slic)@.soft_enabled == old(slic)@.soft_enabled,
        final(slic)@.global_enabled == old(slic)@.global_enabled,
        old(slic)@.swi_pending ==> final(slic)@.swi_pending,
        match claimed {
            None => final(slic)@ == old(slic)@ && r is Ok,
            Some(hw) => if (hw as int) < old(slic)@.bypass.len() {
                match old(slic)@.bypass[hw as int] {
                    None => final(slic)@ == old(slic)@ && r is Ok,
                    Some(sw) => {
                        &&& old(slic)@.queue.subset_of(final(slic)@.queue)
                        &&& exists|mid: SlicView|
                            #[trigger] ack_effect(old(slic)@, mid) && pend_effect(
                                mid,
                                sw,
                                final(slic)@,
                                r,
                            )
                    },
                }
            } else {
                final(slic)@ == old(slic)@ && r is Ok
            },
        },
{
    broadcast use vstd::multiset::group_multiset_axioms;

    match claimed {
        None => Ok(()),
        Some(hw) => {
            if (hw as usize) >= slic.bypass_len() {
                handlers.external(hw);
                return Ok(());
            }
            match slic.bypassed_to(hw) {
                Some(sw) => {
                    handlers.acknowledge(slic, sw);
                    let ghost mid = slic@;
                    let r = slic.pend(sw);
                    proof {
                        assert(ack_effect(old(slic)@, mid) && pend_effect(mid, sw, slic@, r));
                    }
                    r
                },
                None => {
                    handlers.external(hw);
                    Ok(())
                },
            }
        },
    }
}

} // verus!
