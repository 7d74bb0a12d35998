use tacky_borders::border_registry::WindowIdentity;
use tacky_borders::coalescing::{
    timer_delay_ms, IdentityCommandGate, LocationAction, LocationCoalescer, ReorderAction,
    ReorderCoalescer, LOCATION_COALESCE_INTERVAL_MS, LOCATION_COALESCE_INTERVAL_NS,
    REORDER_DEBOUNCE_INTERVAL_MS, REORDER_DEBOUNCE_INTERVAL_NS,
};

const START: u64 = 5_000_000_000;

fn from_millis(millis: u64) -> u64 {
    millis * 1_000_000
}

fn test_identity(hwnd: isize, process_id: u32, thread_id: u32) -> WindowIdentity {
    WindowIdentity {
        hwnd,
        process_id,
        thread_id,
    }
}

#[test]
fn reorder_coalescer_flushes_first_event_immediately() {
    let start = START;
    let mut coalescer = ReorderCoalescer::default();
    assert_eq!(coalescer.on_event(start), ReorderAction::FlushNow);
}

#[test]
fn reorder_coalescer_arms_one_trailing_timer_and_collapses_more_events() {
    let start = START;
    let mut coalescer = ReorderCoalescer::default();
    assert_eq!(coalescer.on_event(start), ReorderAction::FlushNow);
    assert_eq!(
        coalescer.on_event(start + from_millis(5)),
        ReorderAction::ArmTimer(from_millis(11))
    );
    assert_eq!(
        coalescer.on_event(start + from_millis(6)),
        ReorderAction::Coalesced
    );
    assert!(coalescer.on_timer(start + from_millis(REORDER_DEBOUNCE_INTERVAL_MS)));
}

#[test]
fn reorder_coalescer_flushes_again_after_interval() {
    let start = START;
    let mut coalescer = ReorderCoalescer::default();
    assert_eq!(coalescer.on_event(start), ReorderAction::FlushNow);
    assert_eq!(
        coalescer.on_event(start + from_millis(REORDER_DEBOUNCE_INTERVAL_MS)),
        ReorderAction::FlushNow
    );
}

#[test]
fn location_gate_is_full_identity_aware() {
    let old = test_identity(10, 100, 1000);
    let new = test_identity(10, 200, 2000);
    let mut gate = IdentityCommandGate::default();

    assert!(gate.acquire(old));
    assert!(!gate.acquire(old));
    assert!(gate.acquire(new));
    assert_eq!(gate.pending.len(), 2);

    gate.release(old);
    assert!(gate.acquire(old));
}

#[test]
fn location_coalescer_flushes_first_event_immediately() {
    let start = START;
    let identity = test_identity(10, 1, 2);
    let mut coalescer = LocationCoalescer::default();
    assert_eq!(
        coalescer.on_event(identity, start),
        LocationAction::FlushNow
    );
}

#[test]
fn location_coalescer_batches_repeated_identity() {
    let start = START;
    let identity = test_identity(10, 1, 2);
    let mut coalescer = LocationCoalescer::default();
    assert_eq!(
        coalescer.on_event(identity, start),
        LocationAction::FlushNow
    );
    assert_eq!(
        coalescer.on_event(identity, start + from_millis(5)),
        LocationAction::ArmTimer(from_millis(11))
    );
    assert_eq!(
        coalescer.on_event(identity, start + from_millis(6)),
        LocationAction::Coalesced
    );

    assert_eq!(
        coalescer.on_timer(start + from_millis(LOCATION_COALESCE_INTERVAL_MS)),
        vec![identity]
    );
}

#[test]
fn location_coalescer_keeps_reused_hwnd_identities_separate() {
    let start = START;
    let first = test_identity(10, 1, 2);
    let replacement = test_identity(10, 7, 8);
    let mut coalescer = LocationCoalescer::default();
    assert_eq!(coalescer.on_event(first, start), LocationAction::FlushNow);
    assert!(matches!(
        coalescer.on_event(first, start + from_millis(1)),
        LocationAction::ArmTimer(_)
    ));
    assert_eq!(
        coalescer.on_event(replacement, start + from_millis(2)),
        LocationAction::Coalesced
    );

    assert_eq!(
        coalescer.on_timer(start + from_millis(LOCATION_COALESCE_INTERVAL_MS)),
        vec![first, replacement]
    );
}

#[test]
fn intervals_agree_in_both_units() {
    assert_eq!(
        REORDER_DEBOUNCE_INTERVAL_NS,
        from_millis(REORDER_DEBOUNCE_INTERVAL_MS)
    );
    assert_eq!(
        LOCATION_COALESCE_INTERVAL_NS,
        from_millis(LOCATION_COALESCE_INTERVAL_MS)
    );
}

#[test]
fn timer_that_runs_out_without_events_flushes_nothing() {
    let mut reorder = ReorderCoalescer::default();
    assert!(!reorder.on_timer(START));
    assert_eq!(reorder.last_flush, None);

    reorder.on_event(START);
    reorder.on_event(START + 1);
    assert!(reorder.on_timer(START + from_millis(16)));
    assert!(!reorder.on_timer(START + from_millis(32)));

    let mut location = LocationCoalescer::default();
    assert_eq!(location.on_timer(START), Vec::new());
    assert_eq!(location.last_flush, None);
}

#[test]
fn clock_that_runs_backwards_counts_as_no_time_passed() {
    let mut coalescer = ReorderCoalescer::default();
    coalescer.on_event(START);
    assert_eq!(
        coalescer.on_event(START - 1),
        ReorderAction::ArmTimer(REORDER_DEBOUNCE_INTERVAL_NS)
    );
}

#[test]
fn reset_forgets_what_was_pending() {
    let mut reorder = ReorderCoalescer::default();
    reorder.on_event(START);
    reorder.on_event(START + 1);
    reorder.reset();
    assert_eq!(reorder, ReorderCoalescer::default());

    let mut location = LocationCoalescer::default();
    location.on_event(test_identity(1, 1, 1), START);
    location.on_event(test_identity(1, 1, 1), START + 1);
    location.reset();
    assert_eq!(location.on_timer(START + 2), Vec::new());
    assert_eq!(
        location.on_event(test_identity(1, 1, 1), START + 3),
        LocationAction::FlushNow
    );
}

#[test]
fn gate_cleared_lets_everyone_in() {
    let mut gate = IdentityCommandGate::default();
    assert!(gate.acquire(test_identity(2, 1, 1)));
    assert!(gate.acquire(test_identity(1, 1, 1)));
    assert_eq!(
        gate.pending,
        vec![test_identity(1, 1, 1), test_identity(2, 1, 1)]
    );
    gate.release(test_identity(3, 1, 1));
    assert_eq!(gate.pending.len(), 2);
    gate.clear();
    assert!(gate.pending.is_empty());
    assert!(gate.acquire(test_identity(2, 1, 1)));
}

#[test]
fn timer_delay_is_whole_milliseconds_and_at_least_one() {
    assert_eq!(timer_delay_ms(0), 1);
    assert_eq!(timer_delay_ms(999_999), 1);
    assert_eq!(timer_delay_ms(1_999_999), 1);
    assert_eq!(timer_delay_ms(11_000_000), 11);
    assert_eq!(timer_delay_ms(u64::MAX), u32::MAX);
}

#[test]
fn location_flush_is_sorted_by_handle_process_and_thread() {
    let mut coalescer = LocationCoalescer::default();
    coalescer.on_event(test_identity(9, 9, 9), START);
    for identity in [
        test_identity(3, 2, 2),
        test_identity(3, 1, 9),
        test_identity(-5, 4, 4),
        test_identity(3, 2, 1),
    ] {
        coalescer.on_event(identity, START + 1);
    }
    assert_eq!(
        coalescer.on_timer(START + from_millis(16)),
        vec![
            test_identity(-5, 4, 4),
            test_identity(3, 1, 9),
            test_identity(3, 2, 1),
            test_identity(3, 2, 2),
        ]
    );
}
