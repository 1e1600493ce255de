use fastplay::recent::{parse_line, resume_target_ms, RecentFiles, MAX_RECENT};

fn paths(r: &RecentFiles) -> Vec<String> {
    r.entries()
        .iter()
        .map(|e| e.path.clone())
        .collect()
}

#[test]
fn touch_opened_moves_to_front_and_dedupes() {
    let mut r = RecentFiles::default();
    r.touch_opened("a.mp4", 1);
    r.touch_opened("b.mp4", 2);
    r.touch_opened("a.mp4", 3); // reopen a -> front, no dupe
    assert_eq!(paths(&r), vec!["a.mp4", "b.mp4"]);
}

#[test]
fn dedupe_is_case_insensitive() {
    let mut r = RecentFiles::default();
    r.touch_opened(r"C:\Videos\Clip.mp4", 1);
    r.touch_opened(r"c:\videos\clip.mp4", 2);
    assert_eq!(r.entries().len(), 1);
}

#[test]
fn touch_opened_preserves_saved_progress() {
    let mut r = RecentFiles::default();
    r.touch_opened("a.mp4", 1);
    r.update_progress("a.mp4", 120_000, 600_000);
    r.touch_opened("b.mp4", 2);
    r.touch_opened("a.mp4", 3); // reopening must keep a's position
    let a = &r.entries()[0];
    assert_eq!(a.path, "a.mp4".to_string());
    assert_eq!(a.last_position_ms, 120_000);
    assert_eq!(a.duration_ms, 600_000);
}

#[test]
fn caps_at_max_recent() {
    let mut r = RecentFiles::default();
    for i in 0..(MAX_RECENT + 5) {
        r.touch_opened(&format!("f{i}.mp4"), i as u64);
    }
    assert_eq!(r.entries().len(), MAX_RECENT);
    // Newest (highest index) is at the front.
    assert_eq!(
        r.entries()[0].path,
        format!("f{}.mp4", MAX_RECENT + 4).to_string()
    );
}

#[test]
fn update_progress_no_op_for_unknown_file() {
    let mut r = RecentFiles::default();
    r.update_progress("ghost.mp4", 50_000, 100_000);
    assert!(r.is_empty());
}

#[test]
fn update_progress_keeps_duration_when_unknown() {
    let mut r = RecentFiles::default();
    r.touch_opened("a.mp4", 1);
    r.update_progress("a.mp4", 10_000, 600_000);
    r.update_progress("a.mp4", 20_000, 0); // dur unknown -> keep old
    assert_eq!(r.entries()[0].duration_ms, 600_000);
    assert_eq!(r.entries()[0].last_position_ms, 20_000);
}

#[test]
fn resume_only_after_30s() {
    assert_eq!(resume_target_ms(29_000, 600_000), None);
    assert_eq!(resume_target_ms(31_000, 600_000), Some(31_000));
}

#[test]
fn resume_not_near_end() {
    // 95% of 100s = 95s.
    assert_eq!(resume_target_ms(94_000, 100_000), Some(94_000));
    assert_eq!(resume_target_ms(96_000, 100_000), None);
}

#[test]
fn resume_none_when_duration_unknown() {
    assert_eq!(resume_target_ms(120_000, 0), None);
}

#[test]
fn resume_target_reads_saved_entry() {
    let mut r = RecentFiles::default();
    r.touch_opened("a.mp4", 1);
    r.update_progress("a.mp4", 120_000, 600_000);
    assert_eq!(r.resume_target("a.mp4"), Some(120_000));
    assert_eq!(r.resume_target("unknown.mp4"), None);
}

#[test]
fn remove_and_clear() {
    let mut r = RecentFiles::default();
    r.touch_opened("a.mp4", 1);
    r.touch_opened("b.mp4", 2);
    r.remove_index(0); // removes b (front)
    assert_eq!(paths(&r), vec!["a.mp4"]);
    r.remove_index(99); // out of range -> no-op
    assert_eq!(paths(&r), vec!["a.mp4"]);
    r.clear();
    assert!(r.is_empty());
}

#[test]
fn parse_line_roundtrip_and_rejects_garbage() {
    let e = parse_line("252000\t900000\t1780000000000\tC:\\Videos\\my clip.mp4").unwrap();
    assert_eq!(e.last_position_ms, 252_000);
    assert_eq!(e.duration_ms, 900_000);
    assert_eq!(e.last_opened_unix_ms, 1_780_000_000_000);
    assert_eq!(e.path, "C:\\Videos\\my clip.mp4".to_string());
    assert!(parse_line("garbage").is_none());
    assert!(parse_line("12\t34\t56\t").is_none()); // empty path
}

#[test]
fn stored_list_is_read_back() {
    let mut r = RecentFiles::default();
    r.touch_opened("C:\\a b\tc.mp4", 5);
    r.touch_opened("d.mp4", 6);
    r.update_progress("d.mp4", 40_000, 90_000);
    let stored = r.serialize();
    assert_eq!(stored, "40000\t90000\t6\td.mp4\n0\t0\t5\tC:\\a b\tc.mp4\n");
    let loaded = RecentFiles::load(Some(&stored));
    assert_eq!(loaded.entries(), r.entries());
    assert!(RecentFiles::load(None).is_empty());
}

#[test]
fn no_more_than_the_bound_is_loaded() {
    let mut text = String::new();
    for i in 0..30 {
        text.push_str(&format!("1\t2\t3\tf{i}.mp4\n"));
    }
    let loaded = RecentFiles::load(Some(&text));
    assert_eq!(loaded.entries().len(), MAX_RECENT);
    assert_eq!(loaded.entries()[0].path, "f0.mp4");
}

#[test]
fn resume_boundaries_are_exact() {
    assert_eq!(resume_target_ms(30_000, 600_000), None);
    assert_eq!(resume_target_ms(30_001, 600_000), Some(30_001));
    assert_eq!(resume_target_ms(95_000, 100_000), None);
    assert_eq!(resume_target_ms(94_999, 100_000), Some(94_999));
    assert_eq!(resume_target_ms(u64::MAX, u64::MAX), None);
}

#[test]
fn the_newest_file_comes_first() {
    let mut r = RecentFiles::default();
    for (path, now) in [("a", 1u64), ("b", 2), ("c", 3), ("a", 4)] {
        r.touch_opened(path, now);
    }
    r.update_progress("b", 40_000, 90_000);
    let times: Vec<u64> = r.entries().iter().map(|e| e.last_opened_unix_ms).collect();
    assert_eq!(times, vec![4, 3, 2]);
}
