use ficha::monitor::{
    format_display_name, is_system_process, report_failures, report_kills, ProcessInfo,
    ProcessMonitor,
};

fn process(pid: i32, name: &str, exe_path: Option<&str>) -> ProcessInfo {
    ProcessInfo { pid, name: name.to_string(), exe_path: exe_path.map(|p| p.to_string()) }
}

fn armed(names: &[&str]) -> ProcessMonitor {
    let mut monitor = ProcessMonitor::new();
    monitor.update_protected_processes(names.iter().map(|n| n.to_string()).collect());
    monitor.set_monitoring(true);
    monitor
}

#[test]
fn test_process_monitor_state() {
    let mut monitor = ProcessMonitor::new();
    assert!(!monitor.is_monitoring(), "Should start with monitoring disabled");

    monitor.set_monitoring(true);
    assert!(monitor.is_monitoring(), "Should enable monitoring");

    monitor.set_monitoring(false);
    assert!(!monitor.is_monitoring(), "Should disable monitoring");
}

#[test]
fn scan_while_locked_kills_the_suffixed_browser() {
    let monitor = armed(&["brave"]);
    let snapshot = vec![
        process(1, "systemd", Some("/usr/lib/systemd/systemd")),
        process(100, "brave-browser", None),
        process(200, "firefox", Some("/usr/bin/firefox")),
    ];
    let targets = monitor.find_targets(&snapshot);
    assert_eq!(targets, vec![(100, "brave-browser".to_string())]);
    let killed = report_kills(&targets, &vec![true]);
    assert_eq!(killed, vec![(100, "brave-browser".to_string())]);
    assert!(report_failures(&targets, &vec![true]).is_empty());
}

#[test]
fn all_protected_processes_of_a_snapshot_are_targets_in_order() {
    let monitor = armed(&["steam", "brave"]);
    let snapshot = vec![
        process(10, "brave", None),
        process(11, "vlc", None),
        process(12, "Steam", None),
        process(13, "brave-browser", None),
        process(14, "x", Some("/home/u/.steam/ubuntu12_32/steam")),
    ];
    assert_eq!(
        monitor.find_targets(&snapshot),
        vec![
            (10, "brave".to_string()),
            (12, "Steam".to_string()),
            (13, "brave-browser".to_string()),
            (14, "x".to_string()),
        ]
    );
}

#[test]
fn nothing_is_a_target_while_scanning_is_not_armed() {
    let mut monitor = armed(&["brave"]);
    monitor.set_monitoring(false);
    let snapshot = vec![process(100, "brave", None)];
    assert!(monitor.find_targets(&snapshot).is_empty());
    assert!(monitor.check_and_kill_protected(&snapshot).is_empty());
    let outcome = monitor.scan(&snapshot);
    assert!(outcome.killed.is_empty());
    assert!(outcome.failed.is_empty());
}

#[test]
fn nothing_is_a_target_without_protected_names() {
    let monitor = armed(&[]);
    let snapshot = vec![process(100, "brave", None)];
    assert!(monitor.find_targets(&snapshot).is_empty());
    assert!(!monitor.is_protected_process(&snapshot[0]));
}

#[test]
fn system_processes_are_never_targets() {
    let monitor = armed(&["sys", "k", "bash", ""]);
    let snapshot = vec![
        process(1, "systemd", None),
        process(2, "kthreadd", None),
        process(3, "kworker/0:1", None),
        process(4, "bash", None),
        process(5, "sh", None),
        process(6, "dbus-daemon", None),
        process(7, "kate", None),
    ];
    assert_eq!(monitor.find_targets(&snapshot), vec![(7, "kate".to_string())]);
}

#[test]
fn process_ids_that_name_no_single_process_are_never_targets() {
    let monitor = armed(&["brave"]);
    let snapshot = vec![
        process(0, "brave", None),
        process(-1, "brave", None),
        process(i32::MIN, "brave", None),
    ];
    assert!(monitor.is_protected_process(&snapshot[0]));
    assert!(monitor.find_targets(&snapshot).is_empty());
    assert!(monitor.check_and_kill_protected(&snapshot).is_empty());
}

#[test]
fn undelivered_signal_is_passed_over() {
    let monitor = armed(&["brave"]);
    // No process has this id: the system refuses the signal.
    let snapshot = vec![process(i32::MAX, "brave", None), process(i32::MAX - 1, "brave-x", None)];
    assert_eq!(monitor.find_targets(&snapshot).len(), 2);
    assert!(monitor.check_and_kill_protected(&snapshot).is_empty());
}

#[test]
fn scan_reports_the_targets_that_it_could_not_terminate() {
    let monitor = armed(&["brave"]);
    // No process has these ids: the system refuses the signals.
    let snapshot = vec![
        process(i32::MAX, "brave", None),
        process(5, "firefox", None),
        process(i32::MAX - 1, "brave-x", None),
    ];
    let outcome = monitor.scan(&snapshot);
    assert!(outcome.killed.is_empty());
    assert_eq!(
        outcome.failed,
        vec![(i32::MAX, "brave".to_string()), (i32::MAX - 1, "brave-x".to_string())]
    );
}

#[test]
fn failures_are_the_targets_whose_signal_was_not_delivered() {
    let targets = vec![(1, "a".to_string()), (2, "b".to_string()), (3, "c".to_string())];
    assert_eq!(report_failures(&targets, &vec![true, false, true]), vec![(2, "b".to_string())]);
    assert_eq!(report_failures(&targets, &vec![false, false, false]), targets);
    assert!(report_failures(&targets, &vec![true, true, true]).is_empty());
    // A target without an answer counts as not delivered.
    assert_eq!(
        report_failures(&targets, &vec![true]),
        vec![(2, "b".to_string()), (3, "c".to_string())]
    );
    assert_eq!(report_failures(&targets, &vec![]), targets);
    assert!(report_failures(&vec![], &vec![false]).is_empty());
}

#[test]
fn report_holds_the_targets_whose_signal_was_delivered() {
    let targets = vec![(1, "a".to_string()), (2, "b".to_string()), (3, "c".to_string())];
    assert_eq!(
        report_kills(&targets, &vec![true, false, true]),
        vec![(1, "a".to_string()), (3, "c".to_string())]
    );
    assert!(report_kills(&targets, &vec![false, false, false]).is_empty());
    assert_eq!(report_kills(&targets, &vec![true, true, true]), targets);
    // A target without an answer counts as not delivered.
    assert_eq!(report_kills(&targets, &vec![true]), vec![(1, "a".to_string())]);
    assert!(report_kills(&targets, &vec![]).is_empty());
    assert!(report_kills(&vec![], &vec![true]).is_empty());
}

#[test]
fn replacing_the_protected_names_forgets_the_old_ones() {
    let mut monitor = armed(&["brave"]);
    let brave = process(100, "brave", None);
    let vlc = process(101, "vlc", None);
    assert!(monitor.is_protected_process(&brave));
    assert!(!monitor.is_protected_process(&vlc));
    monitor.update_protected_processes(vec!["vlc".to_string()]);
    assert!(!monitor.is_protected_process(&brave));
    assert!(monitor.is_protected_process(&vlc));
    assert!(monitor.is_monitoring());
}

#[test]
fn system_names_begin_with_a_system_prefix() {
    for name in [
        "systemd", "systemd-resolve", "kthreadd", "kworker/u8:2", "ksoftirqd/0", "rcu_sched",
        "migration/1", "watchdog/0", "cpuhp/3", "kdevtmpfs", "netns", "khungtaskd", "oom_reaper",
        "writeback", "kcompactd0", "crypto", "kblockd", "md", "mdadm", "kswapd0", "init", "bash",
        "sh", "shotwell", "dbus-daemon", "upstart", "snapd",
    ] {
        assert!(is_system_process(name), "{}", name);
    }
    for name in ["brave", "firefox", "Systemd", "rcu", "", "xsh", "ini", "zsh", " bash"] {
        assert!(!is_system_process(name), "{}", name);
    }
}

#[test]
fn display_names_are_in_title_case() {
    assert_eq!(format_display_name("brave-browser"), "Brave Browser");
    assert_eq!(format_display_name("brave-browser-stable"), "Brave Browser Stable");
    assert_eq!(format_display_name("google_chrome"), "Google Chrome");
    assert_eq!(format_display_name("firefox"), "Firefox");
    assert_eq!(format_display_name("Web Content"), "Web Content");
    assert_eq!(format_display_name("gnome-shell_helper tool"), "Gnome Shell Helper Tool");
    assert_eq!(format_display_name("vLC"), "VLC");
}

#[test]
fn display_names_drop_empty_words() {
    assert_eq!(format_display_name(""), "");
    assert_eq!(format_display_name("---"), "");
    assert_eq!(format_display_name("-a"), "A");
    assert_eq!(format_display_name("a-"), "A");
    assert_eq!(format_display_name("--a__b  c\t\n"), "A B C");
    assert_eq!(format_display_name("a\u{a0}b\u{3000}c"), "A B C");
}

#[test]
fn display_names_capitalize_beyond_ascii() {
    assert_eq!(format_display_name("éclair-ñu"), "Éclair Ñu");
    // One character may become several when it is raised.
    assert_eq!(format_display_name("ßtraße"), "SStraße");
    assert_eq!(format_display_name("ǆ-x"), "Ǆ X");
    assert_eq!(format_display_name("9-lives"), "9 Lives");
}
