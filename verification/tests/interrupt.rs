use fastplay::interrupt::{
    check_blocking, ffmpeg_check, AbortReason, InterruptState, OPEN_TIMEOUT_NANOS,
};
use fastplay::time::Instant;

#[test]
fn a_call_is_bounded_by_its_deadline() {
    let mut state = InterruptState::new();
    let start = Instant { nanos: 100 };
    assert_eq!(state.aborted_reason(false, start), None);
    state.arm(start, OPEN_TIMEOUT_NANOS);
    let before = Instant {
        nanos: 100 + OPEN_TIMEOUT_NANOS - 1,
    };
    let after = Instant {
        nanos: 100 + OPEN_TIMEOUT_NANOS,
    };
    assert_eq!(state.aborted_reason(false, before), None);
    assert_eq!(state.aborted_reason(false, after), Some(AbortReason::TimedOut));
    assert_eq!(state.aborted_reason(true, after), Some(AbortReason::Cancelled));
    state.disarm();
    assert_eq!(state.aborted_reason(false, after), None);
}

#[test]
fn a_failed_call_says_why() {
    assert_eq!(ffmpeg_check(3, "read", ""), Ok(3));
    assert_eq!(
        ffmpeg_check(-5, "read", "I/O error"),
        Err("read failed: I/O error (-5)".to_string())
    );
    assert_eq!(
        check_blocking(-5, "read", Some(AbortReason::TimedOut), "x"),
        Err(format!("read {}", AbortReason::TimedOut.text()))
    );
    assert_eq!(
        check_blocking(-5, "read", None, "x"),
        Err("read failed: x (-5)".to_string())
    );
    assert_eq!(check_blocking(0, "read", Some(AbortReason::Cancelled), "x"), Ok(0));
}
