use fastplay::decode_thread::{teardown_step, DecodeThreadHandle, TeardownStep};
use fastplay::media::VideoDecodePreference;
use fastplay::time::Instant;

#[test]
fn new_is_idle() {
    let h = DecodeThreadHandle::new();
    assert_eq!(h.worker_count(), 0);
    assert!(h.control().is_none());
    assert!(!h.serves(VideoDecodePreference::Auto));
    assert!(!h.serves(VideoDecodePreference::ForceSoftware));
}

#[test]
fn prepare_spawn_registers_and_counts() {
    let mut h = DecodeThreadHandle::new();
    let control = 7;
    let count = h.prepare_spawn(control, VideoDecodePreference::Auto);
    assert_eq!(h.worker_count(), 1);
    assert_eq!(count, 1);
    assert!(h.control().is_some());
    assert!(h.serves(VideoDecodePreference::Auto));
}

#[test]
fn serves_false_after_preference_change() {
    let mut h = DecodeThreadHandle::new();
    h.prepare_spawn(7, VideoDecodePreference::Auto);
    assert!(!h.serves(VideoDecodePreference::ForceSoftware));
}

#[test]
fn does_not_serve_once_the_worker_has_exited() {
    let mut h = DecodeThreadHandle::new();
    h.prepare_spawn(7, VideoDecodePreference::Auto);
    assert!(h.serves(VideoDecodePreference::Auto));

    h.worker_exited();

    assert_eq!(h.worker_count(), 0);
    assert!(
        h.control().is_some(),
        "the control channel deliberately outlives the thread"
    );
    assert!(
        !h.serves(VideoDecodePreference::Auto),
        "a dead worker must not be sent an in-place seek"
    );
}

#[test]
fn serves_again_after_a_respawn_replaces_the_dead_worker() {
    let mut h = DecodeThreadHandle::new();
    h.prepare_spawn(7, VideoDecodePreference::Auto);
    h.worker_exited();
    assert!(!h.serves(VideoDecodePreference::Auto));

    h.teardown();
    h.prepare_spawn(7, VideoDecodePreference::Auto);
    assert!(h.serves(VideoDecodePreference::Auto));
}

#[test]
fn teardown_without_wait_clears_control_and_preference() {
    let mut h = DecodeThreadHandle::new();
    h.prepare_spawn(7, VideoDecodePreference::Auto);
    h.teardown();
    assert!(h.control().is_none());
    assert!(!h.serves(VideoDecodePreference::Auto));
}

#[test]
fn teardown_hands_out_the_channel_once() {
    let mut h = DecodeThreadHandle::new();
    h.prepare_spawn(9, VideoDecodePreference::Auto);
    assert_eq!(h.teardown(), Some(9));
    assert_eq!(h.teardown(), None);
    assert_eq!(h.worker_count(), 1);
}

#[test]
fn a_blocking_teardown_waits_two_seconds() {
    let start = Instant { nanos: 5_000 };
    let almost = Instant { nanos: 5_000 + 1_999_999_999 };
    let over = Instant { nanos: 5_000 + 2_000_000_000 };
    assert_eq!(teardown_step(0, start, start), TeardownStep::Join);
    assert_eq!(teardown_step(1, start, almost), TeardownStep::Wait);
    assert_eq!(teardown_step(1, start, over), TeardownStep::Detach);
}
