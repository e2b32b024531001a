use ficha::idle::IdleTracker;
use ficha::monitor::{ProcessInfo, ProcessMonitor};
use ficha::records::ProtectedApp;
use ficha::state::{AppState, PolicyEffect, ShieldStatus, THREAT_GRACE_MS};

fn fresh(now: u64) -> AppState {
    AppState::new(ProcessMonitor::new(), IdleTracker::new(now), now)
}

fn app(process_name: &str) -> ProtectedApp {
    ProtectedApp::create(
        process_name.to_uppercase(),
        process_name.to_string(),
        "*".to_string(),
        "Test".to_string(),
    )
}

fn process(pid: i32, name: &str) -> ProcessInfo {
    ProcessInfo { pid, name: name.to_string(), exe_path: None }
}

#[test]
fn shield_starts_locked_and_enforcing() {
    let state = fresh(0);
    assert_eq!(state.get_shield_status(), ShieldStatus::LOCKED);
    assert!(state.monitor.is_monitoring());
}

#[test]
fn fresh_state_scans_for_the_names_of_its_monitor() {
    let mut monitor = ProcessMonitor::new();
    monitor.update_protected_processes(vec!["brave".to_string()]);
    assert!(!monitor.is_monitoring());
    let state = AppState::new(monitor, IdleTracker::new(0), 0);
    assert!(state.monitor.is_monitoring());
    assert_eq!(
        state.monitor.find_targets(&vec![process(100, "brave-browser")]),
        vec![(100, "brave-browser".to_string())]
    );
}

#[test]
fn lock_and_activate_set_status_and_scanning() {
    let mut state = fresh(0);
    state.activate_shield(10);
    assert_eq!(state.get_shield_status(), ShieldStatus::ACTIVE);
    assert!(!state.monitor.is_monitoring());
    assert_eq!(state.lock_shield(Ok(vec![]), 20), Ok(()));
    assert_eq!(state.get_shield_status(), ShieldStatus::LOCKED);
    assert!(state.monitor.is_monitoring());
    state.trigger_threat_detected(30);
    state.activate_shield(40);
    assert_eq!(state.get_shield_status(), ShieldStatus::ACTIVE);
    assert!(!state.monitor.is_monitoring());
    state.trigger_threat_detected(50);
    assert_eq!(state.lock_shield(Ok(vec![]), 60), Ok(()));
    assert_eq!(state.get_shield_status(), ShieldStatus::LOCKED);
    assert!(state.monitor.is_monitoring());
}

#[test]
fn locking_refreshes_the_protected_names() {
    let mut state = fresh(0);
    assert_eq!(state.update_protected_processes(Ok(vec![app("steam")])), Ok(()));
    state.activate_shield(10);
    assert_eq!(state.lock_shield(Ok(vec![app("brave"), app("vlc")]), 20), Ok(()));
    assert_eq!(state.get_shield_status(), ShieldStatus::LOCKED);
    assert!(state.monitor.is_monitoring());
    let snapshot = vec![process(100, "brave-browser"), process(101, "steam"), process(102, "vlc")];
    assert_eq!(
        state.monitor.find_targets(&snapshot),
        vec![(100, "brave-browser".to_string()), (102, "vlc".to_string())]
    );
}

#[test]
fn locking_with_a_failing_store_locks_over_the_names_as_they_were() {
    let mut state = fresh(0);
    assert_eq!(state.update_protected_processes(Ok(vec![app("steam")])), Ok(()));
    state.activate_shield(10);
    assert_eq!(
        state.lock_shield(Err("database is locked".to_string()), 20),
        Err("database is locked".to_string())
    );
    assert_eq!(state.get_shield_status(), ShieldStatus::LOCKED);
    assert!(state.monitor.is_monitoring());
    let snapshot = vec![process(100, "brave"), process(101, "steam")];
    assert_eq!(state.monitor.find_targets(&snapshot), vec![(101, "steam".to_string())]);
}

#[test]
fn kill_while_locked_shows_threat_until_grace_has_passed() {
    let mut state = fresh(0);
    state.trigger_threat_detected(1_000);
    assert_eq!(state.get_shield_status(), ShieldStatus::THREAT_DETECTED);
    assert!(state.monitor.is_monitoring());
    assert!(!state.expire_threat(1_000));
    assert!(!state.expire_threat(1_000 + THREAT_GRACE_MS - 1));
    assert_eq!(state.get_shield_status(), ShieldStatus::THREAT_DETECTED);
    assert!(state.expire_threat(1_000 + THREAT_GRACE_MS));
    assert_eq!(state.get_shield_status(), ShieldStatus::LOCKED);
    assert!(state.monitor.is_monitoring());
    assert!(!state.expire_threat(1_000 + THREAT_GRACE_MS));
}

#[test]
fn second_kill_restarts_the_grace_period() {
    let mut state = fresh(0);
    state.trigger_threat_detected(10_000);
    assert_eq!(state.get_shield_status(), ShieldStatus::THREAT_DETECTED);
    state.trigger_threat_detected(11_000);
    assert_eq!(state.get_shield_status(), ShieldStatus::THREAT_DETECTED);
    // The timer of the first kill fires three seconds after it.
    assert!(!state.expire_threat(13_000));
    assert_eq!(state.get_shield_status(), ShieldStatus::THREAT_DETECTED);
    // The timer of the second kill fires three seconds after that one.
    assert!(state.expire_threat(14_000));
    assert_eq!(state.get_shield_status(), ShieldStatus::LOCKED);
}

#[test]
fn stale_timer_does_not_undo_a_later_change() {
    let mut state = fresh(0);
    state.trigger_threat_detected(1_000);
    state.activate_shield(2_000);
    assert!(!state.expire_threat(4_000));
    assert!(!state.expire_threat(40_000));
    assert_eq!(state.get_shield_status(), ShieldStatus::ACTIVE);
    assert!(!state.monitor.is_monitoring());
}

#[test]
fn timer_with_a_clock_reading_before_the_kill_does_nothing() {
    let mut state = fresh(0);
    state.trigger_threat_detected(50_000);
    assert!(!state.expire_threat(10));
    assert_eq!(state.get_shield_status(), ShieldStatus::THREAT_DETECTED);
}

#[test]
fn threat_near_the_end_of_the_clock_never_expires() {
    let mut state = fresh(0);
    state.trigger_threat_detected(u64::MAX - 1);
    assert!(!state.expire_threat(u64::MAX));
    assert_eq!(state.get_shield_status(), ShieldStatus::THREAT_DETECTED);
}

#[test]
fn scanning_follows_the_status() {
    let mut state = fresh(0);
    state.set_shield_status(ShieldStatus::ACTIVE, 5);
    assert_eq!(state.get_shield_status(), ShieldStatus::ACTIVE);
    assert!(!state.monitor.is_monitoring());
    // A threat leaves scanning as it is.
    state.set_shield_status(ShieldStatus::THREAT_DETECTED, 100);
    assert!(!state.monitor.is_monitoring());
    assert!(!state.expire_threat(3_099));
    // When the threat expires the shield is locked and scans again.
    assert!(state.expire_threat(3_100));
    assert_eq!(state.get_shield_status(), ShieldStatus::LOCKED);
    assert!(state.monitor.is_monitoring());
    state.set_shield_status(ShieldStatus::ACTIVE, 4_000);
    state.set_shield_status(ShieldStatus::LOCKED, 5_000);
    assert!(state.monitor.is_monitoring());
    state.set_shield_status(ShieldStatus::THREAT_DETECTED, 6_000);
    assert!(state.monitor.is_monitoring());
}

#[test]
fn idle_timeout_locks_an_unlocked_shield_and_arms_scanning() {
    let mut state = fresh(0);
    state.activate_shield(0);
    assert!(!state.monitor.is_monitoring());
    assert!(state.idle_timeout(100));
    assert_eq!(state.get_shield_status(), ShieldStatus::LOCKED);
    assert!(state.monitor.is_monitoring());
    assert!(!state.idle_timeout(200));
    assert_eq!(state.get_shield_status(), ShieldStatus::LOCKED);
    assert!(state.monitor.is_monitoring());
    state.trigger_threat_detected(300);
    assert!(state.idle_timeout(400));
    assert_eq!(state.get_shield_status(), ShieldStatus::LOCKED);
    assert!(state.monitor.is_monitoring());
}

#[test]
fn idle_tick_locks_once_after_the_timeout_and_scanning_is_on_again() {
    let mut state = fresh(0);
    assert_eq!(state.update_protected_processes(Ok(vec![app("brave")])), Ok(()));
    state.idle_tracker.set_timeout(1);
    state.idle_tracker.set_enabled(true, 0);
    state.activate_shield(0);
    let snapshot = vec![process(100, "brave")];
    assert!(state.monitor.find_targets(&snapshot).is_empty());
    assert!(!state.idle_tick(59_999));
    assert_eq!(state.get_shield_status(), ShieldStatus::ACTIVE);
    assert!(!state.monitor.is_monitoring());
    assert!(state.idle_tick(61_000));
    assert_eq!(state.get_shield_status(), ShieldStatus::LOCKED);
    assert!(state.monitor.is_monitoring());
    assert_eq!(state.monitor.find_targets(&snapshot), vec![(100, "brave".to_string())]);
    assert_eq!(state.idle_tracker.get_idle_seconds(61_000), 0);
    assert!(!state.idle_tick(66_000));
}

#[test]
fn protected_names_are_replaced_whole_on_success() {
    let mut state = fresh(0);
    assert_eq!(state.update_protected_processes(Ok(vec![app("brave"), app("steam")])), Ok(()));
    let snapshot = vec![process(100, "brave-browser"), process(101, "steam"), process(102, "vlc")];
    assert_eq!(
        state.monitor.find_targets(&snapshot),
        vec![(100, "brave-browser".to_string()), (101, "steam".to_string())]
    );
    assert_eq!(state.update_protected_processes(Ok(vec![app("vlc")])), Ok(()));
    assert_eq!(state.monitor.find_targets(&snapshot), vec![(102, "vlc".to_string())]);
    assert_eq!(state.get_shield_status(), ShieldStatus::LOCKED);
}

#[test]
fn protected_names_stay_when_the_store_fails() {
    let mut state = fresh(0);
    assert_eq!(state.update_protected_processes(Ok(vec![app("brave")])), Ok(()));
    assert_eq!(
        state.update_protected_processes(Err("database is locked".to_string())),
        Err("database is locked".to_string())
    );
    let snapshot = vec![process(100, "brave")];
    assert_eq!(state.monitor.find_targets(&snapshot), vec![(100, "brave".to_string())]);
}

#[test]
fn kills_of_a_scan_show_a_threat() {
    let mut state = fresh(0);
    state.record_kills(&vec![], 1_000);
    assert_eq!(state.get_shield_status(), ShieldStatus::LOCKED);
    state.record_kills(&vec![(100, "brave-browser".to_string())], 2_000);
    assert_eq!(state.get_shield_status(), ShieldStatus::THREAT_DETECTED);
    assert!(!state.expire_threat(4_999));
    assert!(state.expire_threat(5_000));
}

#[test]
fn enforce_does_nothing_while_unlocked() {
    let mut state = fresh(0);
    assert_eq!(state.update_protected_processes(Ok(vec![app("brave")])), Ok(()));
    state.activate_shield(0);
    let snapshot = vec![process(i32::MAX, "brave")];
    let outcome = state.enforce(&snapshot, 10);
    assert!(outcome.killed.is_empty());
    assert!(outcome.failed.is_empty());
    assert_eq!(state.get_shield_status(), ShieldStatus::ACTIVE);
}

#[test]
fn enforce_reports_the_targets_whose_signal_is_not_delivered() {
    let mut state = fresh(0);
    assert_eq!(state.update_protected_processes(Ok(vec![app("brave")])), Ok(()));
    // No process has this id: the system refuses the signal.
    let snapshot = vec![process(i32::MAX, "brave"), process(7, "vlc")];
    let outcome = state.enforce(&snapshot, 10);
    assert!(outcome.killed.is_empty());
    assert_eq!(outcome.failed, vec![(i32::MAX, "brave".to_string())]);
    assert_eq!(state.get_shield_status(), ShieldStatus::LOCKED);
}

#[test]
fn switching_policies_has_the_effect_of_each() {
    let mut state = fresh(0);
    assert_eq!(state.toggle_security_policy("policy_2", true, 0), PolicyEffect::EnableStealth);
    assert_eq!(state.toggle_security_policy("policy_2", false, 0), PolicyEffect::DisableStealth);
    assert_eq!(state.toggle_security_policy("policy_1", true, 0), PolicyEffect::Nothing);
    assert_eq!(state.toggle_security_policy("policy_3", false, 0), PolicyEffect::Nothing);
    assert_eq!(state.toggle_security_policy("", true, 0), PolicyEffect::Nothing);
    assert!(!state.idle_tracker.is_enabled());
    assert_eq!(state.toggle_security_policy("policy_4", true, 7_000), PolicyEffect::IdleLockSwitched);
    assert!(state.idle_tracker.is_enabled());
    assert_eq!(state.idle_tracker.get_idle_seconds(7_000), 0);
    assert_eq!(state.toggle_security_policy("policy_4", false, 9_000), PolicyEffect::IdleLockSwitched);
    assert!(!state.idle_tracker.is_enabled());
    assert_eq!(state.idle_tracker.get_idle_seconds(9_000), 2);
}
