use fastplay::generations::{OpenGeneration, SeekGeneration};
use fastplay::media::DecodedVideoFrame;
use fastplay::time::Duration;
use fastplay::video_queue::VideoFrameQueue;

fn frame(pts_ms: u64, surface: u64) -> DecodedVideoFrame {
    DecodedVideoFrame {
        open_gen: OpenGeneration(0),
        seek_gen: SeekGeneration(0),
        pts: Duration::from_millis(pts_ms),
        surface,
    }
}

fn pts_order(q: &VideoFrameQueue) -> Vec<u64> {
    q.iter().iter().map(|f| f.pts.as_millis() as u64).collect()
}

#[test]
fn video_queue_new_is_empty() {
    let q = VideoFrameQueue::with_capacity(4);
    assert!(q.is_empty());
    assert_eq!(q.len(), 0);
    assert!(q.front().is_none());
    assert!(q.peek_second().is_none());
}

#[test]
fn in_order_inserts_append() {
    let mut q = VideoFrameQueue::with_capacity(8);
    q.insert_ordered(frame(0, 1));
    q.insert_ordered(frame(33, 2));
    q.insert_ordered(frame(66, 3));
    assert_eq!(pts_order(&q), vec![0, 33, 66]);
}

#[test]
fn out_of_order_insert_is_placed_by_pts() {
    let mut q = VideoFrameQueue::with_capacity(8);
    q.insert_ordered(frame(0, 1));
    q.insert_ordered(frame(66, 2));
    q.insert_ordered(frame(33, 3)); // arrives late, belongs in the middle
    assert_eq!(pts_order(&q), vec![0, 33, 66]);
}

#[test]
fn insert_at_front_when_earliest() {
    let mut q = VideoFrameQueue::with_capacity(8);
    q.insert_ordered(frame(50, 1));
    q.insert_ordered(frame(10, 2));
    assert_eq!(pts_order(&q), vec![10, 50]);
    assert_eq!(q.front().unwrap().surface, 2);
}

#[test]
fn front_and_peek_second_track_order() {
    let mut q = VideoFrameQueue::with_capacity(8);
    q.insert_ordered(frame(0, 1));
    q.insert_ordered(frame(33, 2));
    assert_eq!(q.front().unwrap().pts, Duration::from_millis(0));
    assert_eq!(q.peek_second().unwrap().pts, Duration::from_millis(33));
}

#[test]
fn pop_front_returns_oldest() {
    let mut q = VideoFrameQueue::with_capacity(8);
    q.insert_ordered(frame(0, 1));
    q.insert_ordered(frame(33, 2));
    let popped = q.pop_front().unwrap();
    assert_eq!(popped.surface, 1);
    assert_eq!(pts_order(&q), vec![33]);
}

#[test]
fn is_full_at_capacity() {
    let mut q = VideoFrameQueue::with_capacity(2);
    assert!(!q.is_full());
    q.insert_ordered(frame(0, 1));
    assert!(!q.is_full());
    q.insert_ordered(frame(10, 2));
    assert!(q.is_full());
}

#[test]
fn evict_overflow_drops_oldest_until_within_capacity() {
    let mut q = VideoFrameQueue::with_capacity(2);
    q.insert_ordered(frame(0, 1));
    q.insert_ordered(frame(10, 2));
    q.insert_ordered(frame(20, 3)); // now 3 > capacity 2
    let evicted = q.evict_overflow();
    assert_eq!(evicted.unwrap().surface, 1);
    assert!(q.evict_overflow().is_none(), "back within capacity");
    assert_eq!(pts_order(&q), vec![10, 20]);
}

#[test]
fn evict_overflow_is_none_within_capacity() {
    let mut q = VideoFrameQueue::with_capacity(4);
    q.insert_ordered(frame(0, 1));
    assert!(q.evict_overflow().is_none());
}

#[test]
fn equal_pts_insert_does_not_panic_and_keeps_all() {
    let mut q = VideoFrameQueue::with_capacity(8);
    q.insert_ordered(frame(10, 1));
    q.insert_ordered(frame(10, 2));
    assert_eq!(q.len(), 2);
    assert_eq!(pts_order(&q), vec![10, 10]);
}
