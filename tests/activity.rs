use activity_capture::counters::{ActivityCounters, CounterStore, EventKind};
use activity_capture::events::{
    check_permission, check_screen_recording_permission, classify_hook_event, classify_tap_event,
    request_permission, request_screen_recording_permission, tap_event_mask, HookEvent,
};
use activity_capture::supervisor::{ListenerSupervisor, StartOutcome};

#[test]
fn initial_counters_are_zero() {
    let mut store = CounterStore::new();
    assert_eq!(store.snapshot_and_reset(), ActivityCounters { clicks: 0, keys: 0 });
}

#[test]
fn snapshot_returns_counts_then_zero() {
    let mut store = CounterStore::new();
    let events = [
        EventKind::Click,
        EventKind::Key,
        EventKind::Key,
        EventKind::Click,
        EventKind::Key,
    ];
    for e in events {
        store.record(e);
    }
    assert_eq!(store.snapshot_and_reset(), ActivityCounters { clicks: 2, keys: 3 });
    assert_eq!(store.snapshot_and_reset(), ActivityCounters { clicks: 0, keys: 0 });
}

#[test]
fn interleaved_snapshots_lose_nothing() {
    let mut store = CounterStore::new();
    let mut seen = ActivityCounters { clicks: 0, keys: 0 };
    for i in 0..1000u32 {
        store.record(if i % 3 == 0 { EventKind::Key } else { EventKind::Click });
        if i % 7 == 0 {
            let s = store.snapshot_and_reset();
            seen.clicks += s.clicks;
            seen.keys += s.keys;
        }
    }
    let s = store.snapshot_and_reset();
    seen.clicks += s.clicks;
    seen.keys += s.keys;
    assert_eq!(seen, ActivityCounters { clicks: 666, keys: 334 });
}

#[test]
fn ignored_events_are_not_counted() {
    let mut store = CounterStore::new();
    store.record_classified(None);
    store.record_tap_event(5);
    store.record_tap_event(2);
    store.record_hook_event(HookEvent::MouseMove);
    store.record_hook_event(HookEvent::Wheel);
    store.record_hook_event(HookEvent::KeyRelease);
    store.record_hook_event(HookEvent::ButtonRelease);
    assert_eq!(store.snapshot_and_reset(), ActivityCounters { clicks: 0, keys: 0 });
}

#[test]
fn tap_and_hook_events_are_counted() {
    let mut store = CounterStore::new();
    store.record_tap_event(10);
    store.record_tap_event(1);
    store.record_tap_event(3);
    store.record_tap_event(25);
    store.record_hook_event(HookEvent::ButtonPress);
    store.record_hook_event(HookEvent::KeyPress);
    assert_eq!(store.snapshot_and_reset(), ActivityCounters { clicks: 4, keys: 2 });
}

#[test]
fn tap_codes_are_classified() {
    assert_eq!(classify_tap_event(10), Some(EventKind::Key));
    assert_eq!(classify_tap_event(1), Some(EventKind::Click));
    assert_eq!(classify_tap_event(3), Some(EventKind::Click));
    assert_eq!(classify_tap_event(25), Some(EventKind::Click));
    assert_eq!(classify_tap_event(2), None);
    assert_eq!(classify_tap_event(11), None);
    assert_eq!(classify_tap_event(22), None);
}

#[test]
fn hook_events_are_classified() {
    assert_eq!(classify_hook_event(HookEvent::ButtonPress), Some(EventKind::Click));
    assert_eq!(classify_hook_event(HookEvent::KeyPress), Some(EventKind::Key));
    assert_eq!(classify_hook_event(HookEvent::KeyRelease), None);
    assert_eq!(classify_hook_event(HookEvent::MouseMove), None);
}

#[test]
fn tap_mask_selects_counted_codes() {
    let mask = tap_event_mask();
    assert_eq!(mask, (1u64 << 10) | (1 << 1) | (1 << 3) | (1 << 25));
    assert_eq!(mask, 0x0200_040A);
}

#[test]
fn cross_platform_permissions_are_granted() {
    assert!(check_permission());
    assert!(request_permission());
    assert!(check_screen_recording_permission());
    assert!(request_screen_recording_permission());
}

#[test]
fn second_start_spawns_nothing() {
    let mut sup = ListenerSupervisor::new();
    assert!(!sup.is_running());
    assert_eq!(sup.request_start(true), StartOutcome::SpawnWorker);
    assert_eq!(sup.request_start(true), StartOutcome::AlreadyRunning);
    assert!(sup.is_running());
}

#[test]
fn start_without_permission_is_denied() {
    let mut sup = ListenerSupervisor::new();
    assert_eq!(sup.request_start(false), StartOutcome::PermissionDenied);
    assert!(!sup.is_running());
}

#[test]
fn start_retries_after_worker_exits() {
    let mut sup = ListenerSupervisor::new();
    assert_eq!(sup.request_start(true), StartOutcome::SpawnWorker);
    sup.worker_finished();
    assert!(!sup.is_running());
    assert_eq!(sup.request_start(true), StartOutcome::SpawnWorker);
}
