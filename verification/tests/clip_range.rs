use fastplay::clip_range::ClipRangeState;
use fastplay::time::Duration;

fn secs(s: u64) -> Duration {
    Duration::from_secs(s)
}

#[test]
fn clip_range_new_is_empty() {
    let c = ClipRangeState::new();
    assert_eq!(c.in_point(), None);
    assert_eq!(c.out_point(), None);
    assert!(!c.loop_range());
    assert!(!c.auto_replay());
}

#[test]
fn mark_in_only() {
    let mut c = ClipRangeState::new();
    c.set_in_point(secs(5));
    assert_eq!(c.in_point(), Some(secs(5)));
    assert_eq!(c.out_point(), None);
}

#[test]
fn mark_out_only() {
    let mut c = ClipRangeState::new();
    c.set_out_point(secs(10));
    assert_eq!(c.out_point(), Some(secs(10)));
    assert_eq!(c.in_point(), None);
}

#[test]
fn valid_in_out_range() {
    let mut c = ClipRangeState::new();
    c.set_in_point(secs(5));
    c.set_out_point(secs(10));
    assert_eq!(c.in_point(), Some(secs(5)));
    assert_eq!(c.out_point(), Some(secs(10)));
}

#[test]
fn out_point_at_or_before_in_point_is_rejected() {
    let mut c = ClipRangeState::new();
    c.set_in_point(secs(10));
    c.set_out_point(secs(10)); // not strictly after in-point
    assert_eq!(c.out_point(), None);
    c.set_out_point(secs(5)); // before in-point
    assert_eq!(c.out_point(), None);
}

#[test]
fn in_point_at_or_after_out_point_clears_out_point() {
    let mut c = ClipRangeState::new();
    c.set_in_point(secs(2));
    c.set_out_point(secs(8));
    c.set_in_point(secs(8)); // at out-point
    assert_eq!(c.in_point(), Some(secs(8)));
    assert_eq!(c.out_point(), None);
}

#[test]
fn out_point_after_0_when_no_in_point() {
    let mut c = ClipRangeState::new();
    c.set_out_point(Duration::zero()); // not strictly after 0
    assert_eq!(c.out_point(), None);
    c.set_out_point(Duration::from_millis(1));
    assert_eq!(c.out_point(), Some(Duration::from_millis(1)));
}

#[test]
fn clear_in_point_disables_loop_when_no_out_point() {
    let mut c = ClipRangeState::new();
    c.set_in_point(secs(5));
    c.toggle_loop_or_replay(); // range set -> loop on
    assert!(c.loop_range());
    c.clear_in_point();
    assert_eq!(c.in_point(), None);
    assert!(!c.loop_range());
}

#[test]
fn clear_in_point_keeps_loop_when_out_point_remains() {
    let mut c = ClipRangeState::new();
    c.set_in_point(secs(5));
    c.set_out_point(secs(10));
    c.toggle_loop_or_replay();
    assert!(c.loop_range());
    c.clear_in_point();
    assert!(c.loop_range(), "out-point still defines a range");
}

#[test]
fn clear_out_point_disables_loop_when_no_in_point() {
    let mut c = ClipRangeState::new();
    c.set_out_point(secs(10));
    c.toggle_loop_or_replay();
    assert!(c.loop_range());
    c.clear_out_point();
    assert!(!c.loop_range());
}

#[test]
fn toggle_loops_when_range_set_and_replays_otherwise() {
    let mut c = ClipRangeState::new();
    // No range: toggles auto-replay, signals indicator.
    assert!(c.toggle_loop_or_replay());
    assert!(c.auto_replay());
    assert!(!c.loop_range());
    // With a range: toggles loop, no indicator.
    c.set_in_point(secs(1));
    assert!(!c.toggle_loop_or_replay());
    assert!(c.loop_range());
}

#[test]
fn should_replay_at_end_reflects_loop_or_auto_replay() {
    let mut c = ClipRangeState::new();
    assert!(!c.should_replay_at_end());
    c.toggle_loop_or_replay(); // auto-replay on
    assert!(c.should_replay_at_end());
}

#[test]
fn replay_position_is_in_point_or_zero() {
    let mut c = ClipRangeState::new();
    assert_eq!(c.replay_position(), Duration::zero());
    c.set_in_point(secs(7));
    assert_eq!(c.replay_position(), secs(7));
}

#[test]
fn resume_before_in_point_restarts_at_in_point() {
    let mut c = ClipRangeState::new();
    c.set_in_point(secs(10));
    c.set_out_point(secs(20));
    assert_eq!(c.resume_target(secs(5)), Some(secs(10)));
}

#[test]
fn resume_at_or_after_out_point_restarts_at_range_start() {
    let mut c = ClipRangeState::new();
    c.set_in_point(secs(10));
    c.set_out_point(secs(20));
    assert_eq!(c.resume_target(secs(20)), Some(secs(10)));
}

#[test]
fn resume_inside_range_keeps_current_position() {
    let mut c = ClipRangeState::new();
    c.set_in_point(secs(10));
    c.set_out_point(secs(20));
    assert_eq!(c.resume_target(secs(15)), None);
}

#[test]
fn resume_with_no_marks_is_always_inside() {
    let c = ClipRangeState::new();
    assert_eq!(c.resume_target(Duration::zero()), None);
    assert_eq!(c.resume_target(secs(1000)), None);
    assert!(c.position_is_in_active_range(secs(42)));
}

#[test]
fn boundary_exactly_at_in_point_is_inside() {
    let mut c = ClipRangeState::new();
    c.set_in_point(secs(10));
    // position == in_point is not "< in_point", so it is inside.
    assert_eq!(c.resume_target(secs(10)), None);
}
