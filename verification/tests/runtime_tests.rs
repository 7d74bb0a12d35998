use std::collections::{HashMap, HashSet};
use tacky_borders::border_registry::{BorderLifecycleState, BorderRecord, WindowIdentity};
use tacky_borders::border_runtime::{animation_interval_ms, finish_reload, BorderRuntime};
use tacky_borders::colors::ColorBrushConfig;
use tacky_borders::config::{EnableMode, OffsetConfig, WidthConfig};
use tacky_borders::float_bits::FloatBits;
use tacky_borders::runtime_model::{
    AnimationRegistration, BorderCall, BorderRuntimeCommand, BorderRuntimeSnapshot,
    BorderRuntimeUpdate, BorderWindowEvent, CollectPurpose, RuntimeAction, SyncPurpose,
    WindowBorder, ANIMATION_TIMER_ID, FOREGROUND_POLL_TIMER_ID, LOCATION_TIMER_ID,
    RECONCILE_TIMER_ID, REORDER_TIMER_ID,
};
use tacky_borders::runtime_requests::{
    request_apply_border_update, request_create_border, request_destroy_all_borders,
    request_destroy_border_identity, request_destroy_observed_window,
    request_force_recreate_drawers, request_foreground_change, request_graphics_refresh,
    request_komorebi_refresh, request_mark_border_active, request_reload_borders,
    request_reorder_borders, request_runtime_snapshot, request_set_border_animation,
    request_window_event, runtime_snapshot, BorderRuntimeHandle, BorderRuntimeHost, GateEffect,
    Posting, RuntimeGates, SnapshotError,
};
use tacky_borders::window_snapshot::{
    elevation_allows_border, plan_reconciliation, should_create_border, WindowFacts,
    WindowSnapshot,
};

const DISPATCHER: isize = 900;
const MILLI: u64 = 1_000_000;

fn window(hwnd: isize, process_id: u32) -> WindowIdentity {
    WindowIdentity {
        hwnd,
        process_id,
        thread_id: process_id + 1,
    }
}

fn visible_facts() -> WindowFacts {
    WindowFacts {
        top_level: true,
        visible: true,
        cloaked: false,
        process_elevated: Some(false),
        enabled: None,
        filtered_style: false,
    }
}

/// A desktop in memory: it performs what the runtime asks for.
struct Desktop {
    runtime: BorderRuntime,
    gates: RuntimeGates,
    windows: HashMap<isize, (WindowIdentity, WindowFacts)>,
    border_windows: HashSet<isize>,
    next_border: isize,
    fail_init: bool,
    foreground: isize,
    timers: HashMap<usize, u32>,
    initial_windows: Vec<isize>,
    calls: Vec<(isize, BorderCall)>,
    replies: Vec<BorderRuntimeSnapshot>,
    refresh_again: usize,
    now: u64,
}

impl Desktop {
    fn new() -> Self {
        let mut gates = RuntimeGates::default();
        let mut slot = None;
        let (host, actions) = BorderRuntimeHost::new(false, 0, DISPATCHER, &mut gates, &mut slot);
        let mut desktop = Desktop {
            runtime: host.runtime,
            gates,
            windows: HashMap::new(),
            border_windows: HashSet::new(),
            next_border: 5000,
            fail_init: false,
            foreground: 0,
            timers: HashMap::new(),
            initial_windows: Vec::new(),
            calls: Vec::new(),
            replies: Vec::new(),
            refresh_again: 0,
            now: 1_000 * MILLI,
        };
        desktop.perform_all(actions);
        desktop
    }

    fn with_windows(hwnds: &[isize]) -> Self {
        let mut desktop = Desktop::new();
        for hwnd in hwnds {
            desktop
                .windows
                .insert(*hwnd, (window(*hwnd, 10), visible_facts()));
        }
        desktop
    }

    fn capture(&self, hwnd: isize) -> Option<WindowIdentity> {
        self.windows.get(&hwnd).map(|found| found.0)
    }

    fn collect(&self) -> WindowSnapshot {
        let mut snapshot = WindowSnapshot::new(self.runtime.current_process_elevated);
        for (identity, facts) in self.windows.values() {
            snapshot.observe(Some(*identity), *facts);
        }
        snapshot
    }

    fn command(&mut self, command: BorderRuntimeCommand) {
        let hwnd = match &command {
            BorderRuntimeCommand::Create { identity } => identity.hwnd,
            BorderRuntimeCommand::DestroyObserved { hwnd } => *hwnd,
            BorderRuntimeCommand::WindowEvent { identity, .. } => identity.hwnd,
            _ => 0,
        };
        let live = self.capture(hwnd);
        let actions = self.runtime.handle_command(command, live, self.now);
        self.perform_all(actions);
    }

    fn timer(&mut self, timer_id: usize) {
        let actions = self.runtime.handle_timer(timer_id, self.now);
        self.perform_all(actions);
    }

    fn perform_all(&mut self, actions: Vec<RuntimeAction>) {
        for action in actions {
            match self.gates.perform(&action) {
                GateEffect::NotAGate => self.perform(action),
                GateEffect::Done => {}
                GateEffect::RefreshAgain => self.refresh_again += 1,
            }
        }
    }

    fn perform(&mut self, action: RuntimeAction) {
        let more = match action {
            RuntimeAction::KillTimer { timer_id } => {
                self.timers.remove(&timer_id);
                Vec::new()
            }
            RuntimeAction::SetTimer {
                timer_id,
                interval_ms,
            } => {
                self.timers.insert(timer_id, interval_ms);
                Vec::new()
            }
            RuntimeAction::ArmTimer { timer_id, delay_ms } => {
                self.timers.insert(timer_id, delay_ms);
                Vec::new()
            }
            RuntimeAction::Call { border, call } => {
                assert!(self.border_windows.contains(&border));
                self.calls.push((border, call));
                Vec::new()
            }
            RuntimeAction::DropBorder { border } => {
                assert!(self.border_windows.remove(&border));
                Vec::new()
            }
            RuntimeAction::HandleWindowEvent { identity, event } => {
                let live = self.capture(identity.hwnd);
                self.runtime.handle_window_event(identity, event, live)
            }
            RuntimeAction::CreateBorder { identity } => {
                let live = self.capture(identity.hwnd);
                self.runtime.create_border(identity, live)
            }
            RuntimeAction::AssessBorder { identity } => {
                let facts = self.windows[&identity.hwnd].1;
                self.runtime.assess_border(identity, facts)
            }
            RuntimeAction::AdmitBorder { identity } => {
                let live = self.capture(identity.hwnd);
                self.runtime.admit_border(identity, live)
            }
            RuntimeAction::ConstructBorder { identity } => {
                self.next_border += 1;
                self.border_windows.insert(self.next_border);
                self.runtime.register_border(identity, self.next_border)
            }
            RuntimeAction::InitBorder { identity, .. } => {
                self.runtime.finish_create(identity, !self.fail_init)
            }
            RuntimeAction::FlushReorder => self.runtime.flush_reorder_borders(&self.border_windows),
            RuntimeAction::PollForeground => self.runtime.reconcile_foreground(self.foreground),
            RuntimeAction::SyncDevices(purpose) => self.runtime.devices_synced(purpose, true),
            RuntimeAction::ClearInitialWindows => {
                self.initial_windows.clear();
                Vec::new()
            }
            RuntimeAction::CollectWindows(CollectPurpose::Reconcile) => {
                let snapshot = self.collect();
                self.runtime.apply_snapshot(&snapshot)
            }
            RuntimeAction::CollectWindows(CollectPurpose::Reload) => {
                let plan = finish_reload(&self.collect());
                self.initial_windows = plan.initial_windows;
                plan.actions
            }
            RuntimeAction::Reply(snapshot) => {
                self.replies.push(snapshot);
                Vec::new()
            }
            _ => unreachable!(),
        };
        self.perform_all(more);
    }

    fn pump(&mut self, millis: u64) {
        self.now += millis * MILLI;
        for timer_id in [LOCATION_TIMER_ID, REORDER_TIMER_ID] {
            if self.timers.contains_key(&timer_id) {
                self.timer(timer_id);
            }
        }
    }

    fn create_borders_for_existing_windows(&mut self) {
        let handle = Some(BorderRuntimeHandle {
            dispatcher_hwnd: DISPATCHER,
        });
        let mut hwnds: Vec<isize> = self.windows.keys().copied().collect();
        hwnds.sort();
        for hwnd in hwnds {
            let posting = request_create_border(handle, self.capture(hwnd)).unwrap();
            assert_eq!(posting.dispatcher_hwnd, DISPATCHER);
            self.command(posting.command);
        }
    }

    fn destroy_borders(&mut self) {
        let handle = Some(BorderRuntimeHandle {
            dispatcher_hwnd: DISPATCHER,
        });
        let posting = request_destroy_all_borders(handle).unwrap();
        self.command(posting.command);
    }

    fn snapshot(&mut self) -> BorderRuntimeSnapshot {
        self.command(BorderRuntimeCommand::Snapshot);
        self.replies.pop().unwrap()
    }

    fn border_of(&self, hwnd: isize) -> Option<isize> {
        self.runtime.borders.get(&hwnd).map(|b| b.border_window)
    }
}

#[test]
fn animation_interval_tracks_fastest_reasonable_timer_rate() {
    assert_eq!(animation_interval_ms(60), 16);
    assert_eq!(animation_interval_ms(30), 33);
    assert_eq!(animation_interval_ms(120), 10); // Faster timers are of no use here.
    assert_eq!(animation_interval_ms(0), 1000);
}

#[test]
fn snapshot_reads_runtime_owned_active_window() {
    let runtime = BorderRuntime {
        active_window: 0x1234,
        ..Default::default()
    };
    assert_eq!(runtime.snapshot().active_window, 0x1234);
}

#[test]
fn elevation_policy_blocks_only_inaccessible_targets() {
    assert!(elevation_allows_border(false, Some(false)));
    assert!(!elevation_allows_border(false, Some(true)));
    assert!(!elevation_allows_border(false, None));
    assert!(elevation_allows_border(true, Some(false)));
    assert!(elevation_allows_border(true, Some(true)));
    assert!(elevation_allows_border(true, None));
}

#[test]
fn test_destroy_borders() {
    let mut desktop = Desktop::with_windows(&[1, 2, 3]);
    for _ in 0..5 {
        desktop.create_borders_for_existing_windows();
        desktop.pump(50);
        assert_eq!(desktop.border_windows.len(), 3);

        desktop.destroy_borders();
        desktop.pump(50);

        assert!(desktop.border_windows.is_empty());
    }
}

#[test]
// Whether all borders are properly cleaned up when borders are reloaded
fn test_reload_borders() {
    let mut desktop = Desktop::with_windows(&[3, 1, 2]);
    desktop.create_borders_for_existing_windows();
    desktop.pump(50);

    let handle = Some(BorderRuntimeHandle {
        dispatcher_hwnd: DISPATCHER,
    });
    for _ in 0..5 {
        let posting = request_reload_borders(handle).unwrap();
        desktop.command(posting.command);
        desktop.pump(50);
        assert_eq!(desktop.border_windows.len(), 3);
        assert_eq!(desktop.initial_windows, vec![1, 2, 3]);
    }
    desktop.destroy_borders();
    desktop.pump(50);

    assert!(desktop.border_windows.is_empty());
}

#[test]
fn test_runtime_snapshot_after_destroy() {
    let mut desktop = Desktop::with_windows(&[1, 2]);

    desktop.create_borders_for_existing_windows();
    desktop.pump(50);
    let before = desktop.snapshot();
    assert_eq!(before.border_count, 2);

    desktop.destroy_borders();
    desktop.pump(50);
    assert_eq!(desktop.snapshot().border_count, 0);
}

#[test]
fn created_border_is_registered_and_initializing() {
    let mut desktop = Desktop::with_windows(&[1]);
    desktop.create_borders_for_existing_windows();
    let record = *desktop.runtime.registry.get_by_key(1).unwrap();
    assert_eq!(record.tracking, window(1, 10));
    assert_eq!(record.border_hwnd, desktop.border_of(1).unwrap());
    assert_eq!(record.state, BorderLifecycleState::Initializing);

    let posting = request_mark_border_active(
        Some(BorderRuntimeHandle {
            dispatcher_hwnd: DISPATCHER,
        }),
        window(1, 10),
    )
    .unwrap();
    desktop.command(posting.command);
    assert_eq!(
        desktop.runtime.registry.get_by_key(1).unwrap().state,
        BorderLifecycleState::Active
    );
}

#[test]
fn creating_a_border_twice_changes_nothing() {
    let mut desktop = Desktop::with_windows(&[1]);
    desktop.create_borders_for_existing_windows();
    let border = desktop.border_of(1);
    desktop.create_borders_for_existing_windows();
    assert_eq!(desktop.border_of(1), border);
    assert_eq!(desktop.border_windows.len(), 1);
}

#[test]
fn failed_initialization_ends_the_border_again() {
    let mut desktop = Desktop::with_windows(&[1]);
    desktop.fail_init = true;
    desktop.create_borders_for_existing_windows();
    assert!(desktop.border_windows.is_empty());
    assert!(desktop.runtime.registry.is_empty());
}

#[test]
fn stale_destroy_spares_a_reused_handle() {
    let mut desktop = Desktop::with_windows(&[1]);
    desktop.create_borders_for_existing_windows();
    desktop.command(BorderRuntimeCommand::Destroy {
        identity: window(1, 99),
    });
    assert_eq!(desktop.border_windows.len(), 1);
    desktop.command(BorderRuntimeCommand::MarkActive {
        identity: window(1, 99),
    });
    assert_eq!(
        desktop.runtime.registry.get_by_key(1).unwrap().state,
        BorderLifecycleState::Initializing
    );
    desktop.command(BorderRuntimeCommand::Destroy {
        identity: window(1, 10),
    });
    assert!(desktop.border_windows.is_empty());
}

#[test]
fn late_destroy_report_spares_a_live_window() {
    let mut desktop = Desktop::with_windows(&[1]);
    desktop.create_borders_for_existing_windows();
    desktop.command(BorderRuntimeCommand::DestroyObserved { hwnd: 1 });
    assert_eq!(desktop.border_windows.len(), 1);
    desktop.windows.clear();
    desktop.command(BorderRuntimeCommand::DestroyObserved { hwnd: 1 });
    assert!(desktop.border_windows.is_empty());
    desktop.command(BorderRuntimeCommand::DestroyObserved { hwnd: 1 });
    assert!(desktop.runtime.registry.is_empty());
}

#[test]
fn handle_that_changes_hands_gets_a_new_border() {
    let mut desktop = Desktop::with_windows(&[1]);
    desktop.create_borders_for_existing_windows();
    let old_border = desktop.border_of(1).unwrap();

    desktop
        .windows
        .insert(1, (window(1, 20), visible_facts()));
    desktop.command(BorderRuntimeCommand::WindowEvent {
        identity: window(1, 20),
        event: BorderWindowEvent::ShowUncloaked,
    });
    assert!(!desktop.border_windows.contains(&old_border));
    assert_eq!(
        desktop.runtime.registry.get_by_key(1).unwrap().tracking,
        window(1, 20)
    );
    assert_eq!(desktop.border_windows.len(), 1);

    // An event that was on its way for the old window finds nobody.
    desktop.calls.clear();
    desktop.command(BorderRuntimeCommand::WindowEvent {
        identity: window(1, 10),
        event: BorderWindowEvent::HideCloaked,
    });
    assert!(desktop.calls.is_empty());
}

#[test]
fn other_events_of_a_new_owner_only_end_the_old_border() {
    let mut desktop = Desktop::with_windows(&[1]);
    desktop.create_borders_for_existing_windows();
    desktop
        .windows
        .insert(1, (window(1, 20), visible_facts()));
    desktop.command(BorderRuntimeCommand::WindowEvent {
        identity: window(1, 20),
        event: BorderWindowEvent::MinimizeStart,
    });
    assert!(desktop.border_windows.is_empty());
    assert!(desktop.runtime.registry.is_empty());
}

#[test]
fn events_reach_the_border_of_their_window() {
    let mut desktop = Desktop::with_windows(&[1]);
    desktop.command(BorderRuntimeCommand::WindowEvent {
        identity: window(1, 10),
        event: BorderWindowEvent::HideCloaked,
    });
    assert!(desktop.runtime.registry.is_empty());

    desktop.command(BorderRuntimeCommand::WindowEvent {
        identity: window(1, 10),
        event: BorderWindowEvent::ShowUncloaked,
    });
    let border = desktop.border_of(1).unwrap();
    for event in [
        BorderWindowEvent::ShowUncloaked,
        BorderWindowEvent::HideCloaked,
        BorderWindowEvent::MinimizeStart,
        BorderWindowEvent::MinimizeEnd,
    ] {
        desktop.command(BorderRuntimeCommand::WindowEvent {
            identity: window(1, 10),
            event,
        });
    }
    assert_eq!(
        desktop.calls,
        vec![
            (border, BorderCall::ShowUncloaked),
            (border, BorderCall::HideCloaked),
            (border, BorderCall::MinimizeStart),
            (border, BorderCall::MinimizeEnd),
        ]
    );
}

#[test]
fn registered_window_without_border_is_rebuilt_when_shown() {
    let mut desktop = Desktop::with_windows(&[1]);
    desktop.create_borders_for_existing_windows();
    let border = desktop.border_of(1).unwrap();
    desktop.runtime.borders.clear();
    desktop.border_windows.remove(&border);

    desktop.command(BorderRuntimeCommand::WindowEvent {
        identity: window(1, 10),
        event: BorderWindowEvent::ShowUncloaked,
    });
    assert_eq!(desktop.border_windows.len(), 1);
    assert!(desktop.border_of(1).unwrap() != border);

    let border = desktop.border_of(1).unwrap();
    desktop.runtime.borders.clear();
    desktop.border_windows.remove(&border);
    desktop.create_borders_for_existing_windows();
    assert_eq!(desktop.border_windows.len(), 1);
}

#[test]
fn location_changes_are_limited_and_not_lost() {
    let mut desktop = Desktop::with_windows(&[1, 2]);
    desktop.create_borders_for_existing_windows();
    let handle = Some(BorderRuntimeHandle {
        dispatcher_hwnd: DISPATCHER,
    });
    let event = BorderWindowEvent::LocationChange;

    let posting = request_window_event(&mut desktop.gates, handle, Some(window(1, 10)), event);
    assert_eq!(
        request_window_event(&mut desktop.gates, handle, Some(window(1, 10)), event),
        None
    );
    desktop.command(posting.unwrap().command);
    assert_eq!(desktop.calls.len(), 1);

    // Within the interval moves wait for the timer.
    desktop.now += 5 * MILLI;
    for hwnd in [2, 1] {
        let posting =
            request_window_event(&mut desktop.gates, handle, Some(window(hwnd, 10)), event);
        desktop.command(posting.unwrap().command);
    }
    assert_eq!(desktop.calls.len(), 1);
    assert_eq!(desktop.timers.get(&LOCATION_TIMER_ID), Some(&11));
    assert_eq!(
        request_window_event(&mut desktop.gates, handle, Some(window(1, 10)), event),
        None
    );

    desktop.pump(11);
    let borders = [desktop.border_of(1).unwrap(), desktop.border_of(2).unwrap()];
    assert_eq!(
        desktop.calls[1..],
        [
            (borders[0], BorderCall::LocationChange),
            (borders[1], BorderCall::LocationChange),
        ]
    );
    assert!(!desktop.timers.contains_key(&LOCATION_TIMER_ID));
    assert!(
        request_window_event(&mut desktop.gates, handle, Some(window(1, 10)), event).is_some()
    );
}

#[test]
fn gates_open_when_nothing_waits_any_more() {
    let mut desktop = Desktop::with_windows(&[1]);
    desktop.create_borders_for_existing_windows();
    let handle = Some(BorderRuntimeHandle {
        dispatcher_hwnd: DISPATCHER,
    });
    let event = BorderWindowEvent::LocationChange;
    for _ in 0..2 {
        let posting = request_window_event(&mut desktop.gates, handle, Some(window(1, 10)), event);
        desktop.command(posting.unwrap().command);
        let posting = request_reorder_borders(&mut desktop.gates, handle);
        desktop.command(posting.unwrap().command);
    }
    // The second ones wait for their timers.
    assert_eq!(
        request_window_event(&mut desktop.gates, handle, Some(window(1, 10)), event),
        None
    );
    assert_eq!(request_reorder_borders(&mut desktop.gates, handle), None);

    desktop.command(BorderRuntimeCommand::DestroyAll);
    assert!(
        request_window_event(&mut desktop.gates, handle, Some(window(1, 10)), event).is_some()
    );
    assert!(request_reorder_borders(&mut desktop.gates, handle).is_some());
}

#[test]
fn location_timer_that_cannot_be_set_flushes_at_once() {
    let mut desktop = Desktop::with_windows(&[1]);
    desktop.create_borders_for_existing_windows();
    let now = desktop.now;
    desktop.runtime.handle_location_request(window(1, 10), now);
    let armed = desktop
        .runtime
        .handle_location_request(window(1, 10), now + MILLI);
    assert_eq!(
        armed,
        vec![RuntimeAction::ArmTimer {
            timer_id: LOCATION_TIMER_ID,
            delay_ms: 15
        }]
    );
    assert_eq!(
        desktop.runtime.location_timer_failed(now + MILLI),
        vec![
            RuntimeAction::ReleaseLocation(window(1, 10)),
            RuntimeAction::HandleWindowEvent {
                identity: window(1, 10),
                event: BorderWindowEvent::LocationChange
            },
        ]
    );
}

#[test]
fn runtime_without_dispatcher_keeps_nothing_waiting() {
    let mut runtime = BorderRuntime::default();
    runtime.handle_location_request(window(1, 1), 0);
    assert_eq!(
        runtime.handle_location_request(window(1, 1), 1),
        vec![RuntimeAction::ClearLocationGate]
    );
    assert_eq!(
        runtime.handle_timer(LOCATION_TIMER_ID, 2),
        vec![RuntimeAction::ClearLocationGate]
    );
    runtime.handle_reorder_request(0);
    assert_eq!(
        runtime.handle_reorder_request(1),
        vec![RuntimeAction::ClearReorderPending]
    );
    assert_eq!(runtime.handle_timer(REORDER_TIMER_ID, 2), Vec::new());
    assert_eq!(runtime.stop_all_timers(), Vec::new());
}

#[test]
fn reorders_are_limited_and_reach_visible_borders() {
    let mut desktop = Desktop::with_windows(&[1, 2]);
    desktop.create_borders_for_existing_windows();
    let handle = Some(BorderRuntimeHandle {
        dispatcher_hwnd: DISPATCHER,
    });
    let posting = request_reorder_borders(&mut desktop.gates, handle).unwrap();
    assert_eq!(request_reorder_borders(&mut desktop.gates, handle), None);
    desktop.command(posting.command);
    assert_eq!(desktop.calls.len(), 2);
    assert!(desktop
        .calls
        .iter()
        .all(|(_, call)| *call == BorderCall::Reorder));

    desktop.now += 6 * MILLI;
    let posting = request_reorder_borders(&mut desktop.gates, handle).unwrap();
    desktop.command(posting.command);
    assert_eq!(desktop.timers.get(&REORDER_TIMER_ID), Some(&10));
    desktop.pump(10);
    assert_eq!(desktop.calls.len(), 4);
    assert!(!desktop.gates.reorder_pending);

    let none_visible = desktop.runtime.flush_reorder_borders(&HashSet::new());
    assert_eq!(none_visible, Vec::new());
}

#[test]
fn reorder_timer_that_cannot_be_set_flushes_at_once() {
    let mut desktop = Desktop::new();
    assert_eq!(
        desktop.runtime.reorder_timer_failed(),
        vec![
            RuntimeAction::FlushReorder,
            RuntimeAction::ClearReorderPending
        ]
    );
}

#[test]
fn foreground_change_tells_both_borders() {
    let mut desktop = Desktop::with_windows(&[1, 2]);
    desktop.create_borders_for_existing_windows();
    let borders = [desktop.border_of(1).unwrap(), desktop.border_of(2).unwrap()];
    desktop.command(BorderRuntimeCommand::Foreground { hwnd: 1 });
    desktop.command(BorderRuntimeCommand::Foreground { hwnd: 2 });
    desktop.command(BorderRuntimeCommand::Foreground { hwnd: 2 });
    desktop.command(BorderRuntimeCommand::Foreground { hwnd: 0 });
    assert_eq!(
        desktop.calls,
        vec![
            (borders[0], BorderCall::ForegroundChange { is_active: true }),
            (borders[0], BorderCall::ForegroundChange { is_active: false }),
            (borders[1], BorderCall::ForegroundChange { is_active: true }),
        ]
    );
    assert_eq!(desktop.snapshot().active_window, 2);

    desktop.foreground = 1;
    desktop.timer(FOREGROUND_POLL_TIMER_ID);
    assert_eq!(desktop.snapshot().active_window, 1);
}

#[test]
fn animation_timer_follows_the_fastest_animation() {
    let mut desktop = Desktop::with_windows(&[1, 2]);
    desktop.create_borders_for_existing_windows();
    let handle = Some(BorderRuntimeHandle {
        dispatcher_hwnd: DISPATCHER,
    });
    let set = |desktop: &mut Desktop, hwnd: isize, fps: Option<u32>| {
        let posting = request_set_border_animation(handle, window(hwnd, 10), fps).unwrap();
        desktop.command(posting.command);
    };
    set(&mut desktop, 1, Some(30));
    assert_eq!(desktop.timers.get(&ANIMATION_TIMER_ID), Some(&33));
    set(&mut desktop, 2, Some(60));
    assert_eq!(desktop.timers.get(&ANIMATION_TIMER_ID), Some(&16));
    set(&mut desktop, 7, Some(120));
    assert_eq!(desktop.timers.get(&ANIMATION_TIMER_ID), Some(&16));
    set(&mut desktop, 2, None);
    assert_eq!(desktop.timers.get(&ANIMATION_TIMER_ID), Some(&33));
    set(&mut desktop, 1, Some(0));
    assert_eq!(desktop.timers.get(&ANIMATION_TIMER_ID), Some(&1000));
    desktop.command(BorderRuntimeCommand::Destroy {
        identity: window(1, 10),
    });
    assert!(!desktop.timers.contains_key(&ANIMATION_TIMER_ID));
}

#[test]
fn animation_tick_reaches_borders_and_ends_stale_animations() {
    let mut desktop = Desktop::with_windows(&[1, 2]);
    desktop.create_borders_for_existing_windows();
    desktop.command(BorderRuntimeCommand::SetAnimation {
        identity: window(1, 10),
        fps: Some(60),
    });
    desktop.runtime.animated.insert(
        5,
        AnimationRegistration {
            identity: window(5, 10),
            fps: 120,
        },
    );
    desktop.timer(ANIMATION_TIMER_ID);
    let border = desktop.border_of(1).unwrap();
    assert_eq!(desktop.calls, vec![(border, BorderCall::AnimationTick)]);
    assert_eq!(desktop.runtime.animated.len(), 1);
    assert_eq!(desktop.runtime.animation_timer_interval_ms, Some(16));
}

#[test]
fn reconciliation_follows_the_windows() {
    let mut desktop = Desktop::with_windows(&[1, 2, 3]);
    desktop.create_borders_for_existing_windows();
    let kept = desktop.border_of(1);

    // Window 1 is hidden, 2 is gone, the handle 3 belongs to another window and 4 is new.
    desktop.windows.get_mut(&1).unwrap().1.visible = false;
    desktop.windows.remove(&2);
    desktop
        .windows
        .insert(3, (window(3, 30), visible_facts()));
    desktop
        .windows
        .insert(4, (window(4, 40), visible_facts()));
    desktop.timer(RECONCILE_TIMER_ID);

    assert_eq!(desktop.border_of(1), kept);
    assert_eq!(desktop.border_of(2), None);
    assert_eq!(
        desktop.runtime.registry.get_by_key(3).unwrap().tracking,
        window(3, 30)
    );
    assert!(desktop.border_of(4).is_some());
    assert_eq!(desktop.border_windows.len(), 3);
}

#[test]
fn reconciliation_repairs_what_disagrees() {
    let mut desktop = Desktop::with_windows(&[1, 2]);
    desktop.create_borders_for_existing_windows();
    // A registered window without a border, and a border without a registered window.
    let lost = desktop.border_of(1).unwrap();
    desktop.runtime.borders.remove(&1);
    desktop.border_windows.remove(&lost);
    desktop.border_windows.insert(77);
    desktop.runtime.borders.insert(
        9,
        WindowBorder {
            tracked_identity: Some(window(9, 10)),
            border_window: 77,
        },
    );
    let actions = desktop.runtime.reconcile_runtime_invariants();
    desktop.perform_all(actions);
    assert_eq!(desktop.runtime.registry.len(), 1);
    assert_eq!(desktop.runtime.borders.len(), 1);
    assert!(!desktop.border_windows.contains(&77));

    desktop.timer(RECONCILE_TIMER_ID);
    assert_eq!(desktop.border_windows.len(), 2);
}

#[test]
fn destroy_all_also_ends_unregistered_borders() {
    let mut desktop = Desktop::with_windows(&[1]);
    desktop.create_borders_for_existing_windows();
    desktop.border_windows.insert(77);
    desktop.runtime.borders.insert(
        9,
        WindowBorder {
            tracked_identity: None,
            border_window: 77,
        },
    );
    desktop.destroy_borders();
    assert!(desktop.border_windows.is_empty());
    assert!(desktop.runtime.borders.is_empty());
}

#[test]
fn graphics_refresh_rebuilds_every_drawer() {
    let mut desktop = Desktop::with_windows(&[1, 2]);
    desktop.create_borders_for_existing_windows();
    let handle = Some(BorderRuntimeHandle {
        dispatcher_hwnd: DISPATCHER,
    });
    let posting = request_graphics_refresh(&mut desktop.gates, handle).unwrap();
    assert_eq!(request_graphics_refresh(&mut desktop.gates, handle), None);
    desktop.command(posting.command);
    assert_eq!(desktop.calls.len(), 2);
    assert_eq!(desktop.refresh_again, 0);
    assert!(request_graphics_refresh(&mut desktop.gates, handle).is_some());

    assert_eq!(
        desktop.runtime.devices_synced(SyncPurpose::Refresh, false),
        vec![RuntimeAction::FinishGraphicsRefresh]
    );
    assert_eq!(
        desktop.runtime.devices_synced(SyncPurpose::Reload, false),
        Vec::new()
    );
}

#[test]
fn forced_rebuild_skips_excluded_and_unready_borders() {
    let mut desktop = Desktop::with_windows(&[1, 2, 3]);
    desktop.create_borders_for_existing_windows();
    for hwnd in [1, 2] {
        desktop.command(BorderRuntimeCommand::MarkActive {
            identity: window(hwnd, 10),
        });
    }
    let handle = Some(BorderRuntimeHandle {
        dispatcher_hwnd: DISPATCHER,
    });
    let posting = request_force_recreate_drawers(handle, Some(window(1, 10))).unwrap();
    desktop.command(posting.command);
    let border = desktop.border_of(2).unwrap();
    assert_eq!(desktop.calls, vec![(border, BorderCall::ForceRecreateDrawer)]);
}

#[test]
fn komorebi_refresh_is_sorted_and_reaches_known_windows() {
    let mut desktop = Desktop::with_windows(&[1, 2]);
    desktop.create_borders_for_existing_windows();
    let handle = Some(BorderRuntimeHandle {
        dispatcher_hwnd: DISPATCHER,
    });
    assert_eq!(request_komorebi_refresh(handle, Vec::new()), None);
    let posting = request_komorebi_refresh(handle, vec![9, 2, 1, 2]).unwrap();
    assert_eq!(
        posting,
        Posting {
            dispatcher_hwnd: DISPATCHER,
            command: BorderRuntimeCommand::KomorebiRefresh {
                hwnds: vec![1, 2, 9]
            },
        }
    );
    desktop.command(posting.command);
    let borders = [desktop.border_of(1).unwrap(), desktop.border_of(2).unwrap()];
    assert_eq!(
        desktop.calls,
        vec![
            (borders[0], BorderCall::KomorebiRefresh),
            (borders[1], BorderCall::KomorebiRefresh),
        ]
    );
}

#[test]
fn updates_reach_all_borders_or_the_active_one() {
    let mut desktop = Desktop::with_windows(&[1, 2]);
    desktop.create_borders_for_existing_windows();
    desktop.command(BorderRuntimeCommand::Foreground { hwnd: 2 });
    desktop.calls.clear();
    let handle = Some(BorderRuntimeHandle {
        dispatcher_hwnd: DISPATCHER,
    });
    let width = WidthConfig::new(FloatBits {
        bits: 3.0f32.to_bits(),
    });
    let posting =
        request_apply_border_update(handle, BorderRuntimeUpdate::Width(width), true).unwrap();
    desktop.command(posting.command);
    let active = desktop.border_of(2).unwrap();
    assert_eq!(desktop.calls, vec![(active, BorderCall::ApplyWidth(width))]);

    desktop.calls.clear();
    let red = ColorBrushConfig::Plain("red".to_string());
    desktop.command(BorderRuntimeCommand::ApplyUpdate {
        update: BorderRuntimeUpdate::Colors {
            active: Some(red.clone()),
            inactive: None,
        },
        focused_only: false,
    });
    assert_eq!(desktop.calls.len(), 2);
    assert_eq!(
        desktop.calls[0].1,
        BorderCall::ApplyColors {
            active: Some(red),
            inactive: None
        }
    );

    // Without a registered active window nothing is updated.
    desktop.calls.clear();
    desktop.command(BorderRuntimeCommand::Foreground { hwnd: 42 });
    desktop.calls.clear();
    desktop.command(BorderRuntimeCommand::ApplyUpdate {
        update: BorderRuntimeUpdate::Offset(OffsetConfig::new(2)),
        focused_only: true,
    });
    assert!(desktop.calls.is_empty());
}

#[test]
fn host_starts_and_stops_its_timers() {
    let mut gates = RuntimeGates::default();
    gates.reorder_pending = true;
    let mut slot = None;
    let (mut host, actions) = BorderRuntimeHost::new(true, 12, DISPATCHER, &mut gates, &mut slot);
    assert_eq!(
        slot,
        Some(BorderRuntimeHandle {
            dispatcher_hwnd: DISPATCHER
        })
    );
    assert!(!gates.reorder_pending);
    assert!(host.runtime.current_process_elevated);
    assert_eq!(host.runtime.active_window, 12);
    assert_eq!(
        actions,
        vec![
            RuntimeAction::SetTimer {
                timer_id: FOREGROUND_POLL_TIMER_ID,
                interval_ms: 100
            },
            RuntimeAction::SetTimer {
                timer_id: RECONCILE_TIMER_ID,
                interval_ms: 1000
            },
        ]
    );

    let actions = host.stop(&mut slot);
    assert_eq!(slot, None);
    assert_eq!(actions.len(), 8);
    assert_eq!(
        actions[0],
        RuntimeAction::KillTimer {
            timer_id: LOCATION_TIMER_ID
        }
    );
    assert_eq!(actions[7], RuntimeAction::ClearReorderPending);
}

#[test]
fn unknown_timer_does_nothing() {
    let mut desktop = Desktop::new();
    assert_eq!(desktop.runtime.handle_timer(99, 0), Vec::new());
}

#[test]
fn nothing_is_posted_without_a_runtime() {
    let mut gates = RuntimeGates::default();
    assert_eq!(request_destroy_all_borders(None), None);
    assert_eq!(request_reload_borders(None), None);
    assert_eq!(request_destroy_border_identity(None, window(1, 1)), None);
    assert_eq!(request_destroy_observed_window(None, 1), None);
    assert_eq!(request_komorebi_refresh(None, vec![1]), None);
    assert_eq!(request_create_border(None, Some(window(1, 1))), None);

    // What was not posted does not hold up what comes next.
    let handle = Some(BorderRuntimeHandle {
        dispatcher_hwnd: DISPATCHER,
    });
    assert_eq!(request_reorder_borders(&mut gates, None), None);
    assert!(request_reorder_borders(&mut gates, handle).is_some());
    assert_eq!(request_graphics_refresh(&mut gates, None), None);
    assert!(request_graphics_refresh(&mut gates, handle).is_some());
    let event = BorderWindowEvent::LocationChange;
    assert_eq!(
        request_window_event(&mut gates, None, Some(window(1, 1)), event),
        None
    );
    assert!(request_window_event(&mut gates, handle, Some(window(1, 1)), event).is_some());
    assert_eq!(request_window_event(&mut gates, handle, None, event), None);
}

#[test]
fn failed_posts_open_the_gates_again() {
    let handle = Some(BorderRuntimeHandle {
        dispatcher_hwnd: DISPATCHER,
    });
    let mut gates = RuntimeGates::default();
    assert!(request_reorder_borders(&mut gates, handle).is_some());
    gates.reorder_post_failed();
    assert!(request_reorder_borders(&mut gates, handle).is_some());
    assert!(request_graphics_refresh(&mut gates, handle).is_some());
    gates.refresh_post_failed();
    assert!(request_graphics_refresh(&mut gates, handle).is_some());
    let event = BorderWindowEvent::LocationChange;
    assert!(request_window_event(&mut gates, handle, Some(window(1, 1)), event).is_some());
    gates.location_post_failed(window(1, 1));
    assert!(request_window_event(&mut gates, handle, Some(window(1, 1)), event).is_some());
}

#[test]
fn refresh_asked_for_during_refresh_is_repeated() {
    let handle = Some(BorderRuntimeHandle {
        dispatcher_hwnd: DISPATCHER,
    });
    let mut gates = RuntimeGates::default();
    request_graphics_refresh(&mut gates, handle);
    assert_eq!(
        gates.perform(&RuntimeAction::BeginGraphicsRefresh),
        GateEffect::Done
    );
    assert_eq!(request_graphics_refresh(&mut gates, handle), None);
    assert_eq!(
        gates.perform(&RuntimeAction::FinishGraphicsRefresh),
        GateEffect::RefreshAgain
    );
    assert_eq!(
        gates.perform(&RuntimeAction::FlushReorder),
        GateEffect::NotAGate
    );
}

#[test]
fn foreground_guess_prefers_the_systems_answer() {
    let handle = Some(BorderRuntimeHandle {
        dispatcher_hwnd: DISPATCHER,
    });
    let hwnd_of = |posting: Option<Posting>| posting.map(|p| p.command);
    assert_eq!(
        hwnd_of(request_foreground_change(handle, 5, 6)),
        Some(BorderRuntimeCommand::Foreground { hwnd: 5 })
    );
    assert_eq!(
        hwnd_of(request_foreground_change(handle, 0, 6)),
        Some(BorderRuntimeCommand::Foreground { hwnd: 6 })
    );
    assert_eq!(request_foreground_change(handle, 0, 0), None);
}

#[test]
fn snapshot_request_reports_each_failure() {
    let snapshot = BorderRuntimeSnapshot {
        active_window: 1,
        border_count: 2,
    };
    assert_eq!(
        request_runtime_snapshot(None),
        Err(SnapshotError::NotInitialized)
    );
    let refused = runtime_snapshot(Err("no window".to_string()), Ok(snapshot)).unwrap_err();
    assert_eq!(refused, SnapshotError::NotPosted("no window".to_string()));
    assert_eq!(
        refused.message(),
        "could not post command to border runtime: no window"
    );
    let late = runtime_snapshot(Ok(()), Err("too late".to_string())).unwrap_err();
    assert_eq!(late, SnapshotError::TimedOut("too late".to_string()));
    assert_eq!(
        late.message(),
        "timed out waiting for border runtime snapshot: too late"
    );
    assert_eq!(
        SnapshotError::NotInitialized.message(),
        "border runtime is not initialized"
    );
    assert_eq!(runtime_snapshot(Ok(()), Ok(snapshot)), Ok(snapshot));
}

#[test]
fn only_suitable_windows_call_for_a_border() {
    let facts = visible_facts();
    assert!(should_create_border(facts, false));
    for unsuitable in [
        WindowFacts {
            top_level: false,
            ..facts
        },
        WindowFacts {
            visible: false,
            ..facts
        },
        WindowFacts {
            cloaked: true,
            ..facts
        },
        WindowFacts {
            process_elevated: Some(true),
            ..facts
        },
        WindowFacts {
            process_elevated: None,
            ..facts
        },
        WindowFacts {
            enabled: Some(EnableMode::Bool(false)),
            ..facts
        },
        WindowFacts {
            filtered_style: true,
            ..facts
        },
        WindowFacts {
            filtered_style: true,
            enabled: Some(EnableMode::Auto),
            ..facts
        },
    ] {
        assert!(!should_create_border(unsuitable, false));
    }
    assert!(should_create_border(
        WindowFacts {
            filtered_style: true,
            enabled: Some(EnableMode::Bool(true)),
            ..facts
        },
        false
    ));
    assert!(should_create_border(
        WindowFacts {
            process_elevated: None,
            ..facts
        },
        true
    ));
}

#[test]
fn snapshot_leaves_out_what_is_no_top_level_window() {
    let mut snapshot = WindowSnapshot::new(false);
    snapshot.observe(Some(window(5, 1)), visible_facts());
    snapshot.observe(None, visible_facts());
    snapshot.observe(
        Some(window(6, 1)),
        WindowFacts {
            top_level: false,
            ..visible_facts()
        },
    );
    snapshot.observe(
        Some(window(4, 1)),
        WindowFacts {
            visible: false,
            ..visible_facts()
        },
    );
    assert_eq!(snapshot.initial_windows(), vec![4, 5]);
    assert_eq!(snapshot.creatable_windows(), vec![window(5, 1)]);
}

#[test]
fn plan_destroys_and_creates_by_identity() {
    let record = |identity: WindowIdentity| BorderRecord {
        tracking: identity,
        border_hwnd: 1,
        state: BorderLifecycleState::Active,
    };
    let mut snapshot = WindowSnapshot::new(false);
    snapshot.observe(Some(window(1, 1)), visible_facts());
    snapshot.observe(Some(window(2, 9)), visible_facts());
    snapshot.observe(Some(window(4, 1)), visible_facts());
    let current = vec![
        record(window(3, 1)),
        record(window(1, 1)),
        record(window(2, 2)),
    ];
    let plan = plan_reconciliation(&current, &snapshot);
    assert_eq!(plan.destroy, vec![window(2, 2), window(3, 1)]);
    assert_eq!(plan.create, vec![window(2, 9), window(4, 1)]);
}

#[test]
fn commands_keep_registry_and_borders_together() {
    let mut desktop = Desktop::with_windows(&[1, 2, 3]);
    desktop.create_borders_for_existing_windows();
    desktop.windows.remove(&2);
    desktop.command(BorderRuntimeCommand::DestroyObserved { hwnd: 2 });
    desktop
        .windows
        .insert(3, (window(3, 30), visible_facts()));
    desktop.command(BorderRuntimeCommand::WindowEvent {
        identity: window(3, 30),
        event: BorderWindowEvent::ShowUncloaked,
    });
    let mut registered: Vec<isize> = desktop
        .runtime
        .registry
        .records()
        .iter()
        .map(|record| record.tracking.hwnd)
        .collect();
    registered.sort();
    let mut borders: Vec<isize> = desktop.runtime.borders.keys().copied().collect();
    borders.sort();
    assert_eq!(registered, vec![1, 3]);
    assert_eq!(borders, registered);
    for record in desktop.runtime.registry.records() {
        let border = desktop.runtime.borders[&record.tracking.hwnd];
        assert_eq!(border.tracked_identity, Some(record.tracking));
    }
}
