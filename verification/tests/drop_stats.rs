use fastplay::drop_stats::{VideoDropBuckets, VideoDropCause};

#[test]
fn note_increments_matching_bucket_only() {
    let mut buckets = VideoDropBuckets::default();
    buckets.note(VideoDropCause::QueueOverflow);
    buckets.note(VideoDropCause::QueueOverflow);
    buckets.note(VideoDropCause::SurfaceMismatch);

    assert_eq!(buckets.queue_overflow, 2);
    assert_eq!(buckets.surface_mismatch, 1);
    assert_eq!(buckets.scheduler_late, 0);
}

#[test]
fn note_saturates_at_u64_max() {
    let mut buckets = VideoDropBuckets {
        scheduler_late: u64::MAX,
        ..Default::default()
    };
    buckets.note(VideoDropCause::SchedulerLate);
    assert_eq!(buckets.scheduler_late, u64::MAX);
}

#[test]
fn default_is_zeroed() {
    let buckets = VideoDropBuckets::default();
    assert_eq!(buckets.queue_overflow, 0);
    assert_eq!(buckets.surface_mismatch, 0);
    assert_eq!(buckets.scheduler_late, 0);
}
