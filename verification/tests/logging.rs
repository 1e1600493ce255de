use fastplay::logging::{
    crash_log_path, format_utc_stamp, is_expired_log, run_id, session_log_path, LogRing,
    LOG_RETENTION_NANOS, RING_CAPACITY,
};
use fastplay::time::Duration;

#[test]
fn epoch_is_the_unix_epoch() {
    assert_eq!(format_utc_stamp(0), "19700101T000000Z");
}

#[test]
fn last_second_of_a_day_does_not_roll_over() {
    assert_eq!(format_utc_stamp(86_399), "19700101T235959Z");
    assert_eq!(format_utc_stamp(86_400), "19700102T000000Z");
}

#[test]
fn known_timestamps_round_trip() {
    // Both are widely-cited fixed points, so a broken era shift shows up.
    assert_eq!(format_utc_stamp(946_684_800), "20000101T000000Z");
    assert_eq!(format_utc_stamp(1_000_000_000), "20010909T014640Z");
}

#[test]
fn leap_day_is_not_skipped() {
    // 2024-02-29 exists; 2023 has no 29th of February to land on.
    assert_eq!(format_utc_stamp(1_709_164_800), "20240229T000000Z");
    assert_eq!(format_utc_stamp(1_709_164_800 - 86_400), "20240228T000000Z");
    assert_eq!(format_utc_stamp(1_709_164_800 + 86_400), "20240301T000000Z");
}

#[test]
fn century_years_follow_the_gregorian_rule() {
    // 2000 was a leap year (divisible by 400); 1900 and 2100 are not.
    assert_eq!(format_utc_stamp(951_782_400), "20000229T000000Z");
    assert_eq!(format_utc_stamp(4_107_542_400), "21000301T000000Z");
    assert_eq!(format_utc_stamp(4_107_542_400 - 86_400), "21000228T000000Z");
}

#[test]
fn stamp_is_lexicographically_sortable() {
    // Fixed width with a leading year is what lets the directory listing
    // double as a chronological one.
    let earlier = format_utc_stamp(1_000_000_000);
    let later = format_utc_stamp(1_700_000_000);
    assert!(earlier < later);
    assert_eq!(earlier.len(), later.len());
}

#[test]
fn run_id_ends_with_the_pid_after_a_hyphen() {
    let id = run_id(1_000_000_000, 12345);
    let (stamp, pid) = id.rsplit_once('-').expect("run id has a hyphen");
    assert_eq!(pid, 12345u32.to_string());
    assert!(!stamp.contains('-'), "stamp must not contain a hyphen");
    assert!(stamp.ends_with('Z'), "stamp is UTC: {stamp}");
    assert_eq!(id, "20010909T014640Z-12345");
}

const FIXTURE: [&str; 5] = [
    "session-20260810T120000Z-4242.log",
    "crash-20260810T120000Z-4242.log",
    "recent.tsv",
    "settings.txt",
    "ffmpeg.log",
];

fn written() -> Duration {
    Duration::from_secs(1_800_000_000)
}

#[test]
fn logs_within_the_retention_window_survive() {
    for name in FIXTURE {
        assert!(
            !is_expired_log(name, Some(written()), written()),
            "{name} was deleted while still fresh"
        );
    }
}

#[test]
fn logs_past_the_retention_window_are_swept() {
    let later = Duration {
        nanos: written().nanos + LOG_RETENTION_NANOS + 60_000_000_000,
    };
    let expired = |name: &str| is_expired_log(name, Some(written()), later);

    assert!(
        expired("session-20260810T120000Z-4242.log"),
        "an expired session log survived the sweep"
    );
    assert!(
        expired("crash-20260810T120000Z-4242.log"),
        "an expired crash log survived the sweep"
    );
    assert!(!expired("recent.tsv"), "recent.tsv must never be swept");
    assert!(!expired("settings.txt"), "settings.txt must never be swept");
    assert!(
        !expired("ffmpeg.log"),
        "a .log this module does not own must never be swept"
    );
}

#[test]
fn a_log_of_unknown_or_future_age_survives() {
    let name = r"C:\logs\session-x.log";
    let age = |nanos: u128| Duration {
        nanos: written().nanos + nanos,
    };
    assert!(!is_expired_log(name, None, written()));
    assert!(!is_expired_log(name, Some(age(5)), written()));
    assert!(!is_expired_log(name, Some(written()), age(LOG_RETENTION_NANOS)));
    assert!(is_expired_log(name, Some(written()), age(LOG_RETENTION_NANOS + 1)));
}

#[test]
fn log_paths_carry_the_run() {
    assert_eq!(
        crash_log_path(Some(r"C:\d"), "r").unwrap(),
        r"C:\d\crash-r.log"
    );
    assert_eq!(
        session_log_path(Some(r"C:\d"), "r").unwrap(),
        r"C:\d\session-r.log"
    );
    assert!(crash_log_path(None, "r").is_none());
}

#[test]
fn the_ring_keeps_the_newest_lines() {
    let mut ring = LogRing::new();
    for i in 0..(RING_CAPACITY + 3) {
        ring.push(format!("line {i}"));
    }
    let text = ring.contents();
    assert_eq!(text.lines().count(), RING_CAPACITY);
    assert_eq!(text.lines().next(), Some("line 3"));
    assert!(text.ends_with(&format!("line {}\n", RING_CAPACITY + 2)));
}

#[test]
fn stamps_reach_beyond_four_digit_years() {
    assert_eq!(format_utc_stamp(253_402_300_799), "99991231T235959Z");
    assert_eq!(format_utc_stamp(253_402_300_800), "100000101T000000Z");
    assert!(format_utc_stamp(u64::MAX).ends_with('Z'));
}
