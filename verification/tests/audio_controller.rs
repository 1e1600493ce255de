use fastplay::audio_controller::AudioController;
use fastplay::time::{Duration, Instant};

fn ms(n: u64) -> Duration {
    Duration::from_millis(n)
}

#[test]
fn a_new_controller_is_unanchored() {
    let a = AudioController::new();
    assert!(!a.is_clock_anchored());
    assert_eq!(a.clock_anchor_pts(), None);
    assert_eq!(a.played_frames(0), 0);
}

#[test]
fn set_clock_anchor_marks_anchored_without_touching_frames() {
    let mut a = AudioController::new();
    a.record_submitted(1000);
    a.set_clock_anchor(Some(ms(500)));
    assert!(a.is_clock_anchored());
    assert_eq!(a.clock_anchor_pts(), Some(ms(500)));
    assert_eq!(a.played_frames(0), 1000, "anchoring must not reset frames");
}

#[test]
fn reset_clock_clears_anchor_and_frames() {
    let mut a = AudioController::new();
    a.record_submitted(4096);
    a.set_clock_anchor(Some(ms(250)));
    a.reset_clock();
    assert!(!a.is_clock_anchored());
    assert_eq!(a.played_frames(0), 0);
}

#[test]
fn record_submitted_accumulates() {
    let mut a = AudioController::new();
    a.record_submitted(100);
    a.record_submitted(50);
    assert_eq!(a.played_frames(0), 150);
}

#[test]
fn record_submitted_saturates_at_u64_max() {
    let mut a = AudioController::new();
    a.record_submitted(u64::MAX);
    a.record_submitted(10);
    assert_eq!(a.played_frames(0), u64::MAX);
}

#[test]
fn played_frames_is_submitted_minus_buffered() {
    let mut a = AudioController::new();
    a.record_submitted(1000);
    assert_eq!(a.played_frames(200), 800);
}

#[test]
fn played_frames_saturates_when_buffered_exceeds_submitted() {
    let mut a = AudioController::new();
    a.record_submitted(100);
    assert_eq!(a.played_frames(500), 0);
}

#[test]
fn set_clock_anchor_none_unanchors() {
    let mut a = AudioController::new();
    a.set_clock_anchor(Some(ms(10)));
    a.set_clock_anchor(None);
    assert!(!a.is_clock_anchored());
}

#[test]
fn smooth_played_fills_the_staircase_between_raw_advances() {
    // Raw position frozen (WASAPI padding not yet updated): the clock
    // must keep advancing with wall time instead of stalling on the
    // tread and then jumping a whole engine period at once.
    let mut a = AudioController::new();
    let t0 = Instant { nanos: 1_000_000_000 };
    assert_eq!(a.smooth_played(ms(100), t0), ms(100));
    let mid = a.smooth_played(ms(100), t0.plus(ms(4)));
    assert_eq!(mid, ms(104));
    // Raw then advances a full 10 ms tread; the smoothed clock lands on
    // it without ever having stalled.
    assert_eq!(a.smooth_played(ms(110), t0.plus(ms(10))), ms(110));
}

#[test]
fn smooth_played_clamps_extrapolation_on_a_stalled_device() {
    // Raw frozen far beyond one engine period (glitching endpoint): the
    // clock may lead by at most the clamp, never unboundedly.
    let mut a = AudioController::new();
    let t0 = Instant { nanos: 1_000_000_000 };
    a.smooth_played(ms(100), t0);
    assert_eq!(a.smooth_played(ms(100), t0.plus(ms(50))), ms(112));
    assert_eq!(a.smooth_played(ms(100), t0.plus(ms(500))), ms(112));
}

#[test]
fn smooth_played_is_monotonic_when_raw_lands_below_the_clamp() {
    // Extrapolation reached the clamp (112), then raw advances to only
    // 110: the returned clock must not step backward; it holds at 112
    // until raw passes it.
    let mut a = AudioController::new();
    let t0 = Instant { nanos: 1_000_000_000 };
    a.smooth_played(ms(100), t0);
    assert_eq!(a.smooth_played(ms(100), t0.plus(ms(20))), ms(112));
    assert_eq!(a.smooth_played(ms(110), t0.plus(ms(20))), ms(112));
    // Raw catches up past the held value and the clock follows it again.
    assert_eq!(a.smooth_played(ms(120), t0.plus(ms(21))), ms(120));
}

#[test]
fn reset_clock_clears_smoothing_state() {
    // After a seek the raw position restarts near zero; stale smoothing
    // state must not hold the clock at the pre-seek value.
    let mut a = AudioController::new();
    let t0 = Instant { nanos: 1_000_000_000 };
    a.smooth_played(ms(5000), t0);
    a.reset_clock();
    assert_eq!(a.smooth_played(ms(0), t0.plus(ms(1))), ms(0));
}
