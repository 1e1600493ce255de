use fastplay::natural::natural_cmp;
use fastplay::play_queue::{media_files_in_folder, PlayQueue};
use fastplay::winpath::file_name;
use std::cmp::Ordering;

fn p(s: &str) -> String {
    s.to_string()
}

fn names(queue: &PlayQueue) -> Vec<String> {
    queue
        .items()
        .iter()
        .map(|path| file_name(path).unwrap())
        .collect()
}

fn three_item_queue() -> PlayQueue {
    PlayQueue::from_paths(vec![p(r"C:\v\a.mp4"), p(r"C:\v\b.mp4"), p(r"C:\v\c.mp4")])
}


#[test]
fn single_file_queue_holds_one_trusted_path() {
    let q = PlayQueue::single(p(r"C:\v\movie.mkv"));
    assert_eq!(q.len(), 1);
    assert!(!q.is_empty());
    assert_eq!(q.current(), Some(r"C:\v\movie.mkv"));
}

#[test]
fn single_file_queue_does_not_filter_unusual_extensions() {
    let q = PlayQueue::single(p(r"C:\v\weird.xyz"));
    assert_eq!(q.len(), 1);
    assert_eq!(q.current(), Some(r"C:\v\weird.xyz"));
}

#[test]
fn from_paths_filters_unsupported_and_subtitles() {
    let q = PlayQueue::from_paths(vec![
        p(r"C:\v\a.mp4"),
        p(r"C:\v\readme.txt"),
        p(r"C:\v\subs.srt"),
        p(r"C:\v\b.mkv"),
    ]);
    assert_eq!(names(&q), vec!["a.mp4", "b.mkv"]);
}

#[test]
fn from_paths_empty_input_is_empty_queue() {
    let q = PlayQueue::from_paths(Vec::<String>::new());
    assert!(q.is_empty());
    assert_eq!(q.current(), None);
    assert_eq!(q.next_path(), None);
    assert_eq!(q.previous_path(), None);
}

#[test]
fn from_paths_all_unsupported_is_empty_queue() {
    let q = PlayQueue::from_paths(vec![p("a.txt"), p("b.srt")]);
    assert!(q.is_empty());
}

#[test]
fn from_paths_dedupes_case_insensitively() {
    let q = PlayQueue::from_paths(vec![p(r"C:\v\Clip.mp4"), p(r"C:\v\clip.MP4")]);
    assert_eq!(q.len(), 1);
}


#[test]
fn from_paths_sorts_naturally() {
    let q = PlayQueue::from_paths(vec![
        p(r"C:\v\Episode 10.mp4"),
        p(r"C:\v\Episode 2.mp4"),
        p(r"C:\v\Episode 1.mp4"),
    ]);
    assert_eq!(
        names(&q),
        vec!["Episode 1.mp4", "Episode 2.mp4", "Episode 10.mp4"]
    );
}

#[test]
fn from_ordered_paths_preserves_user_order() {
    let q = PlayQueue::from_ordered_paths(vec![
        p(r"C:\v\Episode 10.mp4"),
        p(r"C:\v\Episode 2.mp4"),
        p(r"C:\v\ignore.txt"),
        p(r"C:\v\Episode 10.mp4"),
    ]);
    assert_eq!(names(&q), vec!["Episode 10.mp4", "Episode 2.mp4"]);
}

#[test]
fn natural_cmp_orders_numbers_by_value() {
    assert_eq!(natural_cmp("Episode 2", "Episode 10"), Ordering::Less);
    assert_eq!(natural_cmp("img9", "img10"), Ordering::Less);
    assert_eq!(natural_cmp("a", "B"), Ordering::Less); // case-insensitive
    assert_eq!(natural_cmp("file", "file"), Ordering::Equal);
    assert_eq!(natural_cmp("v2", "v02"), Ordering::Less);
}


#[test]
fn lookup_does_not_move_cursor() {
    let q = three_item_queue();
    assert_eq!(q.cursor(), 0);
    assert_eq!(q.next_path(), Some(r"C:\v\b.mp4"));
    assert_eq!(q.next_path(), Some(r"C:\v\b.mp4")); // still b
    assert_eq!(q.cursor(), 0);
    assert_eq!(q.current(), Some(r"C:\v\a.mp4"));
}

#[test]
fn single_item_queue_has_no_navigation() {
    let mut q = PlayQueue::single(p("only.mp4"));
    assert_eq!(q.next_path(), None);
    assert_eq!(q.previous_path(), None);
    assert!(!q.commit_next());
    assert!(!q.commit_previous());
    assert_eq!(q.cursor(), 0);
}


#[test]
fn commit_next_advances_then_stops_at_last() {
    let mut q = three_item_queue();
    assert!(q.commit_next());
    assert_eq!(q.current(), Some(r"C:\v\b.mp4"));
    assert!(q.commit_next());
    assert_eq!(q.current(), Some(r"C:\v\c.mp4"));
    assert_eq!(q.next_path(), None);
    assert!(!q.commit_next());
    assert_eq!(q.current(), Some(r"C:\v\c.mp4"));
}

#[test]
fn commit_previous_retreats_then_stops_at_first() {
    let mut q = three_item_queue();
    assert!(!q.commit_previous());
    assert_eq!(q.cursor(), 0);
    q.commit_next();
    q.commit_next();
    assert!(q.commit_previous());
    assert_eq!(q.current(), Some(r"C:\v\b.mp4"));
}

#[test]
fn candidate_matches_committed_current() {
    let mut q = three_item_queue();
    let candidate = q.next_path().unwrap().to_string();
    assert!(q.commit_next());
    assert_eq!(q.current(), Some(candidate.as_str()));
}


fn file_names(files: &[String]) -> Vec<String> {
    files.iter().map(|path| file_name(path).unwrap()).collect()
}

#[test]
fn folder_enumeration_filters_sorts_and_excludes() {
    let files = media_files_in_folder(vec![
        p(r"C:\v\Episode 10.mp4"),
        p(r"C:\v\Episode 2.mp4"),
        p(r"C:\v\notes.txt"),
        p(r"C:\v\subs.srt"),
    ]);
    assert_eq!(file_names(&files), vec!["Episode 2.mp4", "Episode 10.mp4"]);
}

#[test]
fn folder_enumeration_missing_folder_is_empty() {
    assert!(media_files_in_folder(Vec::new()).is_empty());
}

#[test]
fn from_folder_builds_queue_from_supported_files() {
    let q = PlayQueue::from_folder(vec![
        p(r"C:\v\b.mp4"),
        p(r"C:\v\a.mp4"),
        p(r"C:\v\ignore.txt"),
    ]);
    assert_eq!(names(&q), vec!["a.mp4", "b.mp4"]);
}

#[test]
fn folder_enumeration_keeps_files_that_differ_in_case_in_their_order() {
    let files = media_files_in_folder(vec![p("b.MP4"), p("B.mp4"), p("a.mp4")]);
    assert_eq!(files, vec!["a.mp4", "b.MP4", "B.mp4"]);
}

#[test]
fn of_two_paths_that_differ_in_case_the_first_stays() {
    let q = PlayQueue::from_paths(vec![p("x.mp4"), p("B.mp4"), p("b.MP4")]);
    assert_eq!(q.items(), &vec!["B.mp4".to_string(), "x.mp4".to_string()]);
}

#[test]
fn moving_on_and_back_ends_where_it_began() {
    let mut q = three_item_queue();
    assert!(q.commit_next());
    assert!(q.commit_previous());
    assert_eq!(q.cursor(), 0);
}

#[test]
fn numbers_beyond_any_integer_compare_by_value() {
    assert_eq!(
        natural_cmp("v99999999999999999999999", "v100000000000000000000000"),
        Ordering::Less
    );
    assert_eq!(natural_cmp("v010", "v9"), Ordering::Greater);
    assert_eq!(natural_cmp("a1b", "a1"), Ordering::Greater);
    assert_eq!(natural_cmp("", "a"), Ordering::Less);
    assert_eq!(natural_cmp("1", "a"), Ordering::Less);
    assert_eq!(natural_cmp(" 1", "1"), Ordering::Less);
}
