use riscv_slic::slic::{saturated_priority, Slic};
use riscv_slic::SlicError;

fn fresh(n_sources: u16, max_priority: u8) -> Slic {
    Slic::new(n_sources, max_priority, vec![])
}

#[test]
fn new_controller_starts_masked_and_empty() {
    let slic = fresh(2, 7);
    assert_eq!(slic.source_count(), 2);
    assert_eq!(slic.priority_ceiling(), 7);
    assert_eq!(slic.get_threshold(), 0);
    assert_eq!(slic.get_priority(0), 0);
    assert_eq!(slic.get_priority(1), 0);
    assert_eq!(slic.pending_len(), 0);
    assert!(!slic.swi_is_pending());
    assert!(!slic.ext_is_enabled());
    assert!(!slic.soft_is_enabled());
    assert!(!slic.is_enabled());
}

#[test]
fn threshold_saturates_at_platform_ceiling() {
    let mut slic = fresh(2, 7);
    slic.set_threshold(255);
    assert_eq!(slic.get_threshold(), 7);
    slic.set_threshold(3);
    assert_eq!(slic.get_threshold(), 3);
    slic.set_threshold(7);
    assert_eq!(slic.get_threshold(), 7);
}

#[test]
fn priority_saturates_at_platform_ceiling() {
    let mut slic = fresh(2, 7);
    slic.set_priority(0, 200);
    assert_eq!(slic.get_priority(0), 7);
    slic.set_priority(1, 5);
    assert_eq!(slic.get_priority(1), 5);
}

#[test]
fn saturated_priority_formula() {
    assert_eq!(saturated_priority(255, 7), 7);
    assert_eq!(saturated_priority(8, 7), 7);
    assert_eq!(saturated_priority(7, 7), 7);
    assert_eq!(saturated_priority(0, 7), 0);
    assert_eq!(saturated_priority(3, 7), 3);
}

#[test]
fn check_source_accepts_known_rejects_unknown() {
    let slic = fresh(2, 7);
    assert_eq!(slic.check_source(0), Ok(0));
    assert_eq!(slic.check_source(1), Ok(1));
    assert_eq!(slic.check_source(2), Err(SlicError::InvalidSource));
    assert_eq!(slic.check_source(u16::MAX), Err(SlicError::InvalidSource));
}

#[test]
fn pend_rejects_unknown_source() {
    let mut slic = fresh(2, 7);
    assert_eq!(slic.pend(2), Err(SlicError::InvalidSource));
    assert_eq!(slic.pending_len(), 0);
}

#[test]
fn pend_reports_overflow_instead_of_dropping() {
    let mut slic = fresh(2, 7);
    assert_eq!(slic.pend(0), Ok(()));
    assert_eq!(slic.pend(1), Ok(()));
    assert_eq!(slic.pend(0), Err(SlicError::QueueFull));
    assert_eq!(slic.pending_len(), 2);
}

#[test]
fn pend_above_threshold_asserts_trigger_line() {
    let mut slic = fresh(2, 7);
    slic.set_priority(0, 3);
    assert_eq!(slic.pend(0), Ok(()));
    assert!(slic.is_ready());
    assert!(slic.swi_is_pending());
}

#[test]
fn pend_at_or_below_threshold_leaves_trigger_clear() {
    let mut slic = fresh(2, 7);
    slic.set_priority(0, 3);
    slic.set_threshold(3);
    assert_eq!(slic.pend(0), Ok(()));
    assert!(!slic.is_ready());
    assert!(!slic.swi_is_pending());
    // Priority 0 means fully masked: never above any threshold.
    let mut masked = fresh(2, 7);
    assert_eq!(masked.pend(1), Ok(()));
    assert!(!masked.is_ready());
    assert!(!masked.swi_is_pending());
}

#[test]
fn pop_returns_highest_priority_first() {
    let mut slic = fresh(3, 7);
    slic.set_priority(0, 2);
    slic.set_priority(1, 5);
    slic.set_priority(2, 4);
    slic.pend(0).unwrap();
    slic.pend(1).unwrap();
    slic.pend(2).unwrap();
    assert_eq!(slic.pop(), Some((5, 1)));
    assert_eq!(slic.pop(), Some((4, 2)));
    assert_eq!(slic.pop(), Some((2, 0)));
    assert_eq!(slic.pop(), None);
}

#[test]
fn pop_tie_break_is_higher_source_number_first() {
    let mut slic = fresh(3, 7);
    slic.set_priority(0, 4);
    slic.set_priority(2, 4);
    slic.pend(0).unwrap();
    slic.pend(2).unwrap();
    assert_eq!(slic.pop(), Some((4, 2)));
    assert_eq!(slic.pop(), Some((4, 0)));
}

#[test]
fn pop_respects_threshold_gate() {
    let mut slic = fresh(2, 7);
    slic.set_priority(0, 3);
    slic.pend(0).unwrap();
    slic.set_threshold(3);
    assert_eq!(slic.pop(), None);
    assert_eq!(slic.pending_len(), 1);
    slic.set_threshold(2);
    assert_eq!(slic.pop(), Some((3, 0)));
}

#[test]
fn queued_entries_keep_their_pend_time_priority() {
    let mut slic = fresh(2, 7);
    slic.set_priority(0, 2);
    slic.pend(0).unwrap();
    slic.set_priority(0, 6);
    assert_eq!(slic.pop(), Some((2, 0)));
}

#[test]
fn clear_interrupts_resets_and_is_idempotent() {
    let mut slic = fresh(2, 7);
    slic.set_priority(0, 3);
    slic.set_priority(1, 5);
    slic.set_interrupts();
    slic.enable();
    slic.pend(0).unwrap();
    slic.pend(1).unwrap();

    slic.clear_interrupts();
    let once = (
        slic.get_threshold(),
        slic.pending_len(),
        slic.swi_is_pending(),
        slic.ext_is_enabled(),
        slic.soft_is_enabled(),
        slic.is_enabled(),
        slic.get_priority(0),
        slic.get_priority(1),
    );
    assert_eq!(once, (7, 0, false, false, false, true, 3, 5));

    slic.clear_interrupts();
    let twice = (
        slic.get_threshold(),
        slic.pending_len(),
        slic.swi_is_pending(),
        slic.ext_is_enabled(),
        slic.soft_is_enabled(),
        slic.is_enabled(),
        slic.get_priority(0),
        slic.get_priority(1),
    );
    assert_eq!(twice, once);
}

#[test]
fn set_interrupts_opens_gate_and_arms_enables() {
    let mut slic = fresh(2, 7);
    slic.clear_interrupts();
    slic.set_interrupts();
    assert_eq!(slic.get_threshold(), 0);
    assert!(slic.ext_is_enabled());
    assert!(slic.soft_is_enabled());
}

#[test]
fn enable_disable_toggle_global_gate() {
    let mut slic = fresh(1, 7);
    slic.enable();
    assert!(slic.is_enabled());
    slic.disable();
    assert!(!slic.is_enabled());
}

#[test]
fn capacity_edge_at_largest_source_count() {
    // Capacity equals the source count; at the largest supported count the
    // queue takes exactly one entry per source and then reports overflow.
    let n: u16 = 64;
    let mut slic = fresh(n, 7);
    for s in 0..n {
        slic.set_priority(s, 1);
        assert_eq!(slic.pend(s), Ok(()));
    }
    assert_eq!(slic.pending_len(), n as usize);
    assert_eq!(slic.pend(0), Err(SlicError::QueueFull));
    // Drains by source number, highest first, at equal priority.
    assert_eq!(slic.pop(), Some((1, n - 1)));
}

#[test]
fn controller_without_sources_rejects_every_pend() {
    let mut slic = fresh(0, 7);
    assert_eq!(slic.pend(0), Err(SlicError::InvalidSource));
    assert_eq!(slic.pop(), None);
}

#[test]
fn swi_lines_set_and_clear() {
    let mut slic = fresh(1, 7);
    slic.swi_set();
    assert!(slic.swi_is_pending());
    slic.swi_clear();
    assert!(!slic.swi_is_pending());
}
