use tacky_borders::config_watcher::{ConfigWatcher, WatcherError, WatcherPhase};
use tacky_borders::event_hook::{
    process_win_event, EventRequest, CHILDID_SELF, EVENT_OBJECT_CLOAKED, EVENT_OBJECT_DESTROY,
    EVENT_OBJECT_HIDE, EVENT_OBJECT_LOCATIONCHANGE, EVENT_OBJECT_REORDER, EVENT_OBJECT_SHOW,
    EVENT_OBJECT_UNCLOAKED, EVENT_SYSTEM_FOREGROUND, EVENT_SYSTEM_MINIMIZEEND,
    EVENT_SYSTEM_MINIMIZESTART, OBJID_CLIENT, OBJID_CURSOR, OBJID_WINDOW,
};
use tacky_borders::runtime_model::BorderWindowEvent;
use tacky_borders::sys_tray_icon::{
    close_steps, coordinated_steps, menu_entries, tray_action, CloseStep, TrayAction,
};
use tacky_borders::theme::{is_light_theme, ThemePhase, ThemeWatcher};

fn entry(name: &str, last: bool) -> Vec<u8> {
    let units: Vec<u16> = name.encode_utf16().collect();
    let mut bytes = Vec::new();
    let length = 12 + 2 * units.len();
    let padded = (length + 3) / 4 * 4;
    let next: u32 = if last { 0 } else { padded as u32 };
    bytes.extend_from_slice(&next.to_le_bytes());
    bytes.extend_from_slice(&3u32.to_le_bytes());
    bytes.extend_from_slice(&(2 * units.len() as u32).to_le_bytes());
    for unit in units {
        bytes.extend_from_slice(&unit.to_le_bytes());
    }
    bytes.resize(padded, 0);
    bytes
}

fn notifies(entries: &[Vec<u8>], name: &str) -> bool {
    let used: usize = entries.iter().map(|e| e.len()).sum();
    let mut buffer = [0u8; 1024];
    let all: Vec<u8> = entries.concat();
    buffer[..used].copy_from_slice(&all);
    ConfigWatcher::process_dir_change_notifs(&buffer, used as u32, name)
}

#[test]
fn watched_file_is_found_among_the_reported_ones() {
    assert!(notifies(&[entry("config.yaml", true)], "config.yaml"));
    assert!(notifies(
        &[entry("other.txt", false), entry("config.yaml", true)],
        "config.yaml"
    ));
    assert!(!notifies(
        &[entry("other.txt", false), entry("config.yaml.tmp", true)],
        "config.yaml"
    ));
    assert!(notifies(
        &[entry("k\u{f6}nfig \u{1f600}", true)],
        "k\u{f6}nfig \u{1f600}"
    ));
    assert!(!notifies(&[], "config.yaml"));
}

#[test]
fn entries_behind_the_last_one_do_not_count() {
    assert!(!notifies(
        &[entry("other.txt", true), entry("config.yaml", true)],
        "config.yaml"
    ));
}

#[test]
fn broken_reports_end_where_they_break() {
    let buffer = [0xffu8; 64];
    assert!(!ConfigWatcher::process_dir_change_notifs(&buffer, 64, "x"));
    assert!(!ConfigWatcher::process_dir_change_notifs(&[0u8; 4], 4, "x"));
    assert!(!ConfigWatcher::process_dir_change_notifs(&[], 100, "x"));
    let mut short = entry("config.yaml", true);
    short.truncate(20);
    assert!(!ConfigWatcher::process_dir_change_notifs(
        &short,
        20,
        "config.yaml"
    ));
}

#[test]
fn watcher_needs_a_directory_and_a_name() {
    let name = |text: &str| Some(Some(text.to_string()));
    assert_eq!(
        ConfigWatcher::new(false, name("x"), 25).unwrap_err(),
        WatcherError::NoParent
    );
    assert_eq!(
        ConfigWatcher::new(true, None, 25).unwrap_err(),
        WatcherError::NoFileName
    );
    assert_eq!(
        ConfigWatcher::new(true, Some(None), 25).unwrap_err(),
        WatcherError::NotUnicode
    );
    let watcher = ConfigWatcher::new(true, name("config.yaml"), 25).unwrap();
    assert_eq!(watcher.config_name, "config.yaml");
    assert_eq!(watcher.debounce_ms, 25);
    let watcher = ConfigWatcher::new(true, name("config.yaml"), u64::MAX).unwrap();
    assert_eq!(watcher.debounce_ms, u32::MAX);
}

#[test]
fn watcher_goes_round_until_it_is_stopped() {
    let mut watcher = ConfigWatcher::new(true, Some(Some("c".to_string())), 1).unwrap();
    watcher.armed(true);
    watcher.waited(0);
    assert_eq!(watcher.phase, WatcherPhase::Completing);
    assert!(!watcher.completed(&[], Some(0)));
    assert_eq!(watcher.phase, WatcherPhase::Debouncing);
    watcher.debounced(258);
    assert_eq!(watcher.phase, WatcherPhase::Arming);
    watcher.armed(true);
    watcher.waited(1);
    assert_eq!(watcher.phase, WatcherPhase::Canceling);
    watcher.canceled();
    assert_eq!(watcher.phase, WatcherPhase::Stopped);
}

#[test]
fn watcher_stops_on_every_failure() {
    let fresh = || ConfigWatcher::new(true, Some(Some("c".to_string())), 1).unwrap();
    let mut watcher = fresh();
    watcher.armed(false);
    assert_eq!(watcher.phase, WatcherPhase::Stopped);
    let mut watcher = fresh();
    watcher.armed(true);
    watcher.waited(u32::MAX);
    assert_eq!(watcher.phase, WatcherPhase::Canceling);
    for result in [0, 128, u32::MAX] {
        let mut watcher = fresh();
        watcher.phase = WatcherPhase::Debouncing;
        watcher.debounced(result);
        assert_eq!(watcher.phase, WatcherPhase::Stopped);
    }
    let mut watcher = fresh();
    watcher.phase = WatcherPhase::Completing;
    assert!(!watcher.completed(&entry("c", true), None));
    assert_eq!(watcher.phase, WatcherPhase::Stopped);
}

#[test]
fn completed_report_notifies_where_it_names_the_file() {
    for (name, notify) in [("config.yaml", true), ("other.yaml", false)] {
        let mut watcher =
            ConfigWatcher::new(true, Some(Some("config.yaml".to_string())), 1).unwrap();
        watcher.armed(true);
        watcher.waited(0);
        let report = entry(name, true);
        assert_eq!(
            watcher.completed(&report, Some(report.len() as u32)),
            notify
        );
        assert_eq!(watcher.phase, WatcherPhase::Debouncing);
        assert_eq!(watcher.config_name, "config.yaml");
    }
}

#[test]
fn theme_is_dark_unless_the_setting_says_light() {
    assert!(is_light_theme(Some(1)));
    assert!(!is_light_theme(Some(0)));
    assert!(!is_light_theme(Some(2)));
    assert!(!is_light_theme(None));
}

#[test]
fn theme_change_reloads_once_it_has_settled() {
    let mut watcher = ThemeWatcher::new(false);
    watcher.registered(true);
    watcher.waited(0);
    assert_eq!(watcher.phase, ThemePhase::Reading);
    watcher.theme_read(false);
    assert_eq!(watcher.phase, ThemePhase::Registering);
    watcher.registered(true);
    watcher.waited(0);
    watcher.theme_read(true);
    assert_eq!(watcher.phase, ThemePhase::Settling);
    assert!(watcher.settled(258));
    assert!(watcher.last_theme);
    assert_eq!(watcher.phase, ThemePhase::Registering);
}

#[test]
fn theme_watcher_stops_without_a_late_reload() {
    for result in [0, 5] {
        let mut watcher = ThemeWatcher::new(false);
        watcher.phase = ThemePhase::Settling;
        assert!(!watcher.settled(result));
        assert_eq!(watcher.phase, ThemePhase::Stopped);
    }
    for result in [1, 128, 129, u32::MAX] {
        let mut watcher = ThemeWatcher::new(false);
        watcher.registered(true);
        watcher.waited(result);
        assert_eq!(watcher.phase, ThemePhase::Stopped);
    }
    let mut watcher = ThemeWatcher::new(false);
    watcher.registered(false);
    assert_eq!(watcher.phase, ThemePhase::Stopped);
}

#[test]
fn menu_entries_lead_to_their_actions() {
    let entries = menu_entries(true);
    let labels: Vec<&str> = entries.iter().map(|e| e.label.as_str()).collect();
    assert_eq!(labels, vec!["Show Config", "Auto Start", "Reload", "Close"]);
    let actions: Vec<Option<TrayAction>> = entries.iter().map(|e| tray_action(&e.id)).collect();
    assert_eq!(
        actions,
        vec![
            Some(TrayAction::ShowConfig),
            Some(TrayAction::ToggleAutoStart),
            Some(TrayAction::Reload),
            Some(TrayAction::Close),
        ]
    );
    assert_eq!(entries[1].checked, Some(true));
    assert_eq!(menu_entries(false)[1].checked, Some(false));
    assert_eq!(entries[0].checked, None);
    assert_eq!(tray_action("4"), None);
    assert_eq!(tray_action(""), None);
}

#[test]
fn closing_happens_once_and_in_order() {
    assert_eq!(
        close_steps(true),
        vec![CloseStep::UnhookEvents, CloseStep::Coordinate]
    );
    assert_eq!(close_steps(false), Vec::new());
    assert_eq!(
        coordinated_steps(),
        vec![
            CloseStep::JoinReloadWorker,
            CloseStep::StopServices,
            CloseStep::FinalizeShutdown,
        ]
    );
}

#[test]
fn window_events_become_requests() {
    let window = |event| process_win_event(event, OBJID_WINDOW, CHILDID_SELF);
    let event = EventRequest::WindowEvent;
    assert_eq!(
        window(EVENT_OBJECT_LOCATIONCHANGE),
        event(BorderWindowEvent::LocationChange)
    );
    assert_eq!(
        window(EVENT_OBJECT_SHOW),
        event(BorderWindowEvent::ShowUncloaked)
    );
    assert_eq!(
        window(EVENT_OBJECT_UNCLOAKED),
        event(BorderWindowEvent::ShowUncloaked)
    );
    assert_eq!(
        window(EVENT_OBJECT_HIDE),
        event(BorderWindowEvent::HideCloaked)
    );
    assert_eq!(
        window(EVENT_OBJECT_CLOAKED),
        event(BorderWindowEvent::HideCloaked)
    );
    assert_eq!(
        window(EVENT_SYSTEM_MINIMIZESTART),
        event(BorderWindowEvent::MinimizeStart)
    );
    assert_eq!(
        window(EVENT_SYSTEM_MINIMIZEEND),
        event(BorderWindowEvent::MinimizeEnd)
    );
    assert_eq!(
        window(EVENT_SYSTEM_FOREGROUND),
        EventRequest::ForegroundChange
    );
    assert_eq!(window(EVENT_OBJECT_DESTROY), EventRequest::DestroyObserved);
    assert_eq!(window(EVENT_OBJECT_REORDER), EventRequest::Ignore);
    assert_eq!(window(1), EventRequest::Ignore);
}

#[test]
fn events_of_other_objects_are_ignored() {
    assert_eq!(
        process_win_event(EVENT_OBJECT_REORDER, OBJID_CLIENT, CHILDID_SELF),
        EventRequest::Reorder
    );
    assert_eq!(
        process_win_event(EVENT_OBJECT_LOCATIONCHANGE, OBJID_CURSOR, CHILDID_SELF),
        EventRequest::Ignore
    );
    assert_eq!(
        process_win_event(EVENT_OBJECT_LOCATIONCHANGE, OBJID_WINDOW, 1),
        EventRequest::Ignore
    );
    assert_eq!(
        process_win_event(EVENT_OBJECT_DESTROY, OBJID_WINDOW, 1),
        EventRequest::Ignore
    );
    assert_eq!(
        process_win_event(EVENT_OBJECT_SHOW, OBJID_CLIENT, CHILDID_SELF),
        EventRequest::Ignore
    );
    assert_eq!(
        process_win_event(EVENT_SYSTEM_FOREGROUND, OBJID_CURSOR, CHILDID_SELF),
        EventRequest::Ignore
    );
}
