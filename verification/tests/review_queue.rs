use fastplay::review_queue::{
    SavedReviewQueue, SavedReviewQueues, MAX_REVIEW_QUEUE_NAME_CHARS,
};

#[test]
fn queue_storage_roundtrips() {
    let mut queues = SavedReviewQueues::default();
    queues.upsert(
        "Client notes",
        vec![r"C:\v\a.mp4".to_string(), r"C:\v\b.mp4".to_string()],
    );
    let stored = queues.serialize();
    assert_eq!(
        stored,
        "Q\tClient notes\nI\tC:\\\\v\\\\a.mp4\nI\tC:\\\\v\\\\b.mp4\n"
    );
    let loaded = SavedReviewQueues::load(Some(&stored));
    assert_eq!(loaded.queues(), queues.queues());
}

#[test]
fn upsert_replaces_case_insensitively() {
    let mut queues = SavedReviewQueues::default();
    queues.upsert("Review", vec!["a.mp4".to_string()]);
    queues.upsert("review", vec!["b.mp4".to_string()]);
    assert_eq!(queues.queues().len(), 1);
    assert_eq!(queues.queues()[0].name, "review");
    assert_eq!(queues.queues()[0].items, vec!["b.mp4".to_string()]);
}

#[test]
fn queue_name_is_bounded() {
    let mut queues = SavedReviewQueues::default();
    queues.upsert(
        &"x".repeat(MAX_REVIEW_QUEUE_NAME_CHARS + 20),
        vec!["a.mp4".to_string()],
    );
    assert_eq!(
        queues.queues()[0].name.chars().count(),
        MAX_REVIEW_QUEUE_NAME_CHARS
    );
}

#[test]
fn remove_index_deletes_selected_queue() {
    let mut queues = SavedReviewQueues::default();
    queues.upsert("a", vec!["a.mp4".to_string()]);
    queues.upsert("b", vec!["b.mp4".to_string()]);
    assert!(queues.remove_index(0));
    assert_eq!(queues.queues().len(), 1);
    assert_eq!(queues.queues()[0].name, "b");
    assert!(!queues.remove_index(99));
}

#[test]
fn existing_items_filters_missing_files() {
    let queue = SavedReviewQueue {
        name: "Review".to_string(),
        items: vec!["exists.mp4".to_string(), "missing.mp4".to_string()],
    };
    assert_eq!(
        SavedReviewQueues::existing_items(&queue, &vec![true, false]),
        vec!["exists.mp4".to_string()]
    );
}

#[test]
fn blank_names_and_empty_queues_are_not_saved() {
    let mut queues = SavedReviewQueues::default();
    queues.upsert("  \t", vec!["a.mp4".to_string()]);
    queues.upsert("name", Vec::new());
    assert!(queues.queues().is_empty());
    queues.upsert("  name ", vec!["a.mp4".to_string()]);
    assert_eq!(queues.get("NAME").unwrap().name, "name");
    assert!(queues.get("other").is_none());
}

#[test]
fn lines_that_belong_to_no_queue_are_passed_over() {
    let text = "I\tlost.mp4\nQ\tempty\nQ\t  \nI\tlost.mp4\nQ\ta\\tb\nX\ty\nI\t\nI\tone.mp4\r\nI\tbad\\q\nI\ttwo.mp4";
    let queues = SavedReviewQueues::parse(text);
    assert_eq!(
        queues.queues(),
        &vec![SavedReviewQueue {
            name: "a\tb".to_string(),
            items: vec!["one.mp4".to_string(), "two.mp4".to_string()],
        }]
    );
    assert!(SavedReviewQueues::load(None).queues().is_empty());
}
