use riscv_slic::dispatch::{lock, machine_soft, run, SoftHandlers};
use riscv_slic::slic::Slic;

/// Records each handler invocation as (source, entry) / (source, exit) pairs,
/// together with the threshold observed while the handler ran.
struct Recorder {
    events: Vec<(u16, bool)>,
    thresholds: Vec<u8>,
    pend_from: Option<(u16, u16)>,
    nested_trap: bool,
}

impl Recorder {
    fn new() -> Recorder {
        Recorder { events: Vec::new(), thresholds: Vec::new(), pend_from: None, nested_trap: false }
    }
}

impl SoftHandlers for Recorder {
    fn handle(&mut self, slic: &mut Slic, priority: u8, source: u16) {
        self.events.push((source, true));
        // The dispatcher raises the threshold to exactly the dispatched
        // entry's priority before the handler runs.
        assert_eq!(slic.get_threshold(), priority);
        self.thresholds.push(slic.get_threshold());
        if let Some((from, target)) = self.pend_from {
            if from == source {
                self.pend_from = None;
                slic.pend(target).unwrap();
                // The core-local line re-asserted above the running priority:
                // the nested trap re-enters the dispatcher before we return.
                if self.nested_trap && slic.swi_is_pending() {
                    machine_soft(slic, self);
                }
            }
        }
        self.events.push((source, false));
    }
}

#[test]
fn end_to_end_two_sources_drain_by_priority() {
    // Source 0 ("A") at priority 2, source 1 ("B") at priority 5, threshold 0.
    // A is pended before B, yet B runs to completion first, strictly by
    // priority, independent of pend order.
    let mut slic = Slic::new(2, 7, vec![]);
    slic.clear_interrupts();
    slic.set_priority(0, 2);
    slic.set_priority(1, 5);
    slic.set_interrupts();
    slic.enable();

    slic.pend(0).unwrap();
    slic.pend(1).unwrap();
    assert!(slic.swi_is_pending());

    let mut handlers = Recorder::new();
    machine_soft(&mut slic, &mut handlers);

    assert_eq!(handlers.events, vec![(1, true), (1, false), (0, true), (0, false)]);
    assert_eq!(handlers.thresholds, vec![5, 2]);
    assert_eq!(slic.get_threshold(), 0);
    assert_eq!(slic.pending_len(), 0);
    assert!(!slic.swi_is_pending());
}

#[test]
fn pend_from_running_handler_is_drained_same_cycle() {
    // Source 0 ("A") at priority 1 pends source 1 ("B") at priority 2 from
    // within its handler; without a nested trap the drain loop still takes B
    // before going idle.
    let mut slic = Slic::new(2, 7, vec![]);
    slic.set_priority(0, 1);
    slic.set_priority(1, 2);

    slic.pend(0).unwrap();
    let mut handlers = Recorder::new();
    handlers.pend_from = Some((0, 1));
    machine_soft(&mut slic, &mut handlers);

    assert_eq!(handlers.events, vec![(0, true), (0, false), (1, true), (1, false)]);
    assert_eq!(slic.pending_len(), 0);
}

#[test]
fn nested_trap_preempts_running_handler() {
    // As above, but the re-asserted trigger line takes the nested trap while
    // A still runs: B preempts, completes, and A resumes — one overall drain
    // episode, order B-complete before A-complete.
    let mut slic = Slic::new(2, 7, vec![]);
    slic.set_priority(0, 1);
    slic.set_priority(1, 2);

    slic.pend(0).unwrap();
    let mut handlers = Recorder::new();
    handlers.pend_from = Some((0, 1));
    handlers.nested_trap = true;
    machine_soft(&mut slic, &mut handlers);

    assert_eq!(
        handlers.events,
        vec![(0, true), (1, true), (1, false), (0, false)],
    );
    // B ran while A's priority 1 was the floor, at its own priority 2.
    assert_eq!(handlers.thresholds, vec![1, 2]);
    assert_eq!(slic.get_threshold(), 0);
    assert_eq!(slic.pending_len(), 0);
}

#[test]
fn masked_source_waits_for_threshold_drop() {
    // With the threshold at or above a source's priority its handler never
    // starts; lowering the threshold below the priority releases it on the
    // next drain cycle.
    let mut slic = Slic::new(1, 7, vec![]);
    slic.set_priority(0, 3);
    slic.set_threshold(3);
    slic.pend(0).unwrap();

    let mut handlers = Recorder::new();
    machine_soft(&mut slic, &mut handlers);
    assert_eq!(handlers.events, vec![]);
    assert_eq!(slic.pending_len(), 1);

    slic.set_threshold(2);
    machine_soft(&mut slic, &mut handlers);
    assert_eq!(handlers.events, vec![(0, true), (0, false)]);
    assert_eq!(slic.pending_len(), 0);
}

#[test]
fn priority_zero_source_never_runs() {
    let mut slic = Slic::new(1, 7, vec![]);
    slic.pend(0).unwrap();
    let mut handlers = Recorder::new();
    machine_soft(&mut slic, &mut handlers);
    assert_eq!(handlers.events, vec![]);
    assert_eq!(slic.pending_len(), 1);
}

#[test]
fn run_restores_previous_threshold() {
    let mut slic = Slic::new(1, 7, vec![]);
    slic.set_threshold(2);
    let mut observed: u8 = 0;
    run(&mut slic, 6, || {
        observed = 42;
    });
    assert_eq!(observed, 42);
    assert_eq!(slic.get_threshold(), 2);
}

#[test]
fn lock_returns_body_result_and_restores_threshold() {
    let mut slic = Slic::new(1, 7, vec![]);
    slic.set_threshold(1);
    let mut shared: u32 = 10;
    let r = lock(&mut slic, 5, || {
        shared += 1;
        shared
    });
    assert_eq!(r, 11);
    assert_eq!(shared, 11);
    assert_eq!(slic.get_threshold(), 1);
}

#[test]
fn lock_counter_sees_every_increment() {
    // Two logical contexts, priorities 1 and 2, both take the lock at the
    // common ceiling 2 around a non-atomic increment of the same counter; no
    // increment is lost: after N from each, the counter holds 2 * N.
    let mut slic = Slic::new(2, 7, vec![]);
    let mut counter: u32 = 0;
    let n: u32 = 50;
    for _ in 0..n {
        // context at priority 1
        lock(&mut slic, 2, || {
            let read = counter;
            counter = read + 1;
        });
        // context at priority 2
        lock(&mut slic, 2, || {
            let read = counter;
            counter = read + 1;
        });
    }
    assert_eq!(counter, 2 * n);
    assert_eq!(slic.get_threshold(), 0);
}
