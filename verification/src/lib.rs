//! A software-level interrupt controller (SLIC) for cores that expose only two
//! usable trap lines: one external line fed by a platform interrupt controller
//! and one core-local software line.  The controller emulates a
//! priority-preemptive interrupt controller on top of those two lines: an
//! application declares a set of prioritized software sources, and the
//! controller decides which pending source runs next, keeps lower- and
//! equal-priority sources from preempting a running one, and lets
//! higher-priority sources preempt through nested trap entry.
//!
//! The crate verifies the runtime scheduling engine: the pending queue
//! ([`queue::PendingQueue`]), the priority table and threshold gate, the
//! dispatcher ([`dispatch::machine_soft`]), the claim bridge between hardware
//! and software sources ([`bridge::machine_external`]), and the
//! priority-ceiling access primitives ([`dispatch::run`], [`dispatch::lock`]).
//! Hardware register traffic (the platform controller's claim/complete lines,
//! the core-local pending bit, the machine interrupt-enable bits) is carried in
//! the controller's state; a board crate performs the actual register writes
//! and feeds claimed interrupt numbers in.

use vstd::prelude::*;

pub mod bridge;
pub mod dispatch;
pub mod laws;
pub mod queue;
pub mod slic;

verus! {

/// Failures of the controller's runtime operations.
///
/// Everything else the hardware protocol allows is a benign no-op: claiming
/// when nothing is pending and completing an already-inactive source are not
/// errors.
#[derive(Clone, Copy, Debug, PartialEq, Eq, Structural)]
pub enum SlicError {
    /// A raw source number that maps to no software source.  This indicates a
    /// mismatch between the generated tables and the running code, not a
    /// runtime condition.
    InvalidSource,
    /// A pend would push the pending queue beyond its capacity (one slot per
    /// software source).  Dropping a pend silently would break the
    /// at-least-once delivery expectation, so the overflow is surfaced.
    QueueFull,
}

} // verus!
