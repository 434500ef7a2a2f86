use beacon_pulse::logging::system::{threads_of_process, windows_version};
use beacon_pulse::logging::recent::{
    is_expired_log, is_log_of_kind, newest_index, no_log_files_message, recent_lines,
    NANOS_PER_DAY,
};

fn lines(n: usize) -> Vec<String> {
    (0..n).map(|i| format!("line {}", i)).collect()
}

#[test]
fn log_files_are_matched_by_kind() {
    assert!(is_log_of_kind("service.log.2024-05-01", "service"));
    assert!(is_log_of_kind("capture.log", "capture"));
    assert!(!is_log_of_kind("capture.log", "service"));
    assert!(!is_log_of_kind("service.txt", "service"));
}

#[test]
fn newest_file_is_the_first_with_the_latest_time() {
    assert_eq!(newest_index(&vec![]), None);
    assert_eq!(newest_index(&vec![5]), Some(0));
    assert_eq!(newest_index(&vec![3, 9, 1, 9, 4]), Some(1));
    assert_eq!(newest_index(&vec![7, 7, 7]), Some(0));
}

#[test]
fn viewer_shows_the_last_lines() {
    assert_eq!(recent_lines(lines(5), 2), vec!["line 3", "line 4"]);
    assert_eq!(recent_lines(lines(3), 10), lines(3));
    assert_eq!(recent_lines(lines(3), 3), lines(3));
    assert_eq!(recent_lines(lines(3), 0), Vec::<String>::new());
}

#[test]
fn missing_log_message_names_the_kind() {
    assert_eq!(no_log_files_message("network"), "No log files found for type 'network'.");
}

#[test]
fn logs_older_than_the_limit_expire() {
    let now = 1_700_000_000u128 * 1_000_000_000;
    assert!(is_expired_log(now - 11 * NANOS_PER_DAY, now, 10));
    assert!(!is_expired_log(now - 10 * NANOS_PER_DAY, now, 10));
    assert!(!is_expired_log(now, now, 10));
    assert!(!is_expired_log(0, NANOS_PER_DAY, 10));
}

#[test]
fn windows_build_is_read_from_the_registry_query() {
    let out = "\r\nHKEY_LOCAL_MACHINE\\SOFTWARE\\Microsoft\\Windows NT\\CurrentVersion\r\n    CurrentBuildNumber    REG_SZ    22631\r\n\r\n";
    assert_eq!(windows_version(out), "Windows 10/11 build 22631");
    assert_eq!(windows_version("CurrentBuildNumber REG_SZ 19045"), "Windows 10/11 build 19045");
    assert_eq!(windows_version("ERROR: not found\n"), "Windows (version unknown)");
    assert_eq!(windows_version(""), "Windows (version unknown)");
    assert_eq!(
        windows_version("x CurrentBuildNumber 1\n CurrentBuildNumber 2\n"),
        "Windows 10/11 build 1"
    );
}

#[test]
fn threads_are_counted_by_owner() {
    assert_eq!(threads_of_process(&vec![4, 7, 4, 9, 4], 4), 3);
    assert_eq!(threads_of_process(&vec![4, 7], 8), 0);
    assert_eq!(threads_of_process(&vec![], 1), 0);
}
