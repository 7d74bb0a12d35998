use tacky_borders::border_registry::{
    BorderLifecycleState, BorderRecord, BorderRegistry, WindowIdentity,
};

fn identity(hwnd: isize, process_id: u32, thread_id: u32) -> WindowIdentity {
    WindowIdentity {
        hwnd,
        process_id,
        thread_id,
    }
}

fn record(identity: WindowIdentity, border_hwnd: isize) -> BorderRecord {
    BorderRecord {
        tracking: identity,
        border_hwnd,
        state: BorderLifecycleState::Initializing,
    }
}

#[test]
fn replacing_reused_hwnd_preserves_new_identity() {
    let old = identity(10, 100, 1000);
    let new = identity(10, 200, 2000);
    let mut registry = BorderRegistry::default();

    registry.insert(record(old, 11));
    assert_eq!(registry.insert(record(new, 12)).unwrap().tracking, old);

    assert_eq!(registry.get_by_key(10).unwrap().tracking, new);
    assert_eq!(registry.get_border(10), Some(12));
}

#[test]
fn stale_identity_cannot_mark_reused_hwnd_active() {
    let old = identity(10, 100, 1000);
    let new = identity(10, 200, 2000);
    let mut registry = BorderRegistry::default();
    registry.insert(record(new, 12));

    assert!(!registry.set_state(old, BorderLifecycleState::Active));
    assert_eq!(
        registry.get_by_key(10).unwrap().state,
        BorderLifecycleState::Initializing
    );
    assert!(registry.set_state(new, BorderLifecycleState::Active));
    assert_eq!(
        registry.get_by_key(10).unwrap().state,
        BorderLifecycleState::Active
    );
}

#[test]
fn capture_needs_a_window_and_an_owning_thread() {
    assert_eq!(
        WindowIdentity::capture(10, true, 1000, 100),
        Some(identity(10, 100, 1000))
    );
    assert_eq!(WindowIdentity::capture(10, false, 1000, 100), None);
    assert_eq!(WindowIdentity::capture(10, true, 0, 100), None);
}

#[test]
fn identity_matches_only_itself() {
    let window = identity(10, 100, 1000);
    assert!(window.still_matches(Some(window)));
    assert!(!window.still_matches(None));
    assert!(!window.still_matches(Some(identity(10, 100, 1001))));
    assert!(!window.still_matches(Some(identity(10, 101, 1000))));
    assert_eq!(window.hwnd(), 10);
}

#[test]
fn registry_counts_lists_and_removes_records() {
    let mut registry = BorderRegistry::default();
    assert!(registry.is_empty());
    assert_eq!(registry.len(), 0);
    assert_eq!(registry.get_border(1), None);

    registry.insert(record(identity(1, 7, 7), 101));
    registry.insert(record(identity(2, 8, 8), 102));
    assert_eq!(registry.len(), 2);
    assert!(!registry.is_empty());
    assert!(registry.contains(1));
    assert!(!registry.contains(3));
    assert_eq!(registry.get(2).unwrap().border_hwnd(), 102);

    let mut handles: Vec<isize> = registry
        .records()
        .iter()
        .map(|record| record.tracking.hwnd)
        .collect();
    handles.sort();
    assert_eq!(handles, vec![1, 2]);
    let mut borders = registry.border_hwnds();
    borders.sort();
    assert_eq!(borders, vec![101, 102]);

    assert_eq!(registry.remove(1).unwrap().border_hwnd, 101);
    assert_eq!(registry.remove(1), None);
    assert_eq!(registry.remove_by_key(2).unwrap().border_hwnd, 102);
    assert!(registry.is_empty());
}
