use fastplay::viewport::ViewportState;

#[test]
fn rotate_wraps_at_four() {
    let mut v = ViewportState::new();
    v.rotate(3);
    assert_eq!(v.rotation_quarter_turns, 3);
    v.rotate(2); // 3 + 2 = 5 -> 1
    assert_eq!(v.rotation_quarter_turns, 1);
}

#[test]
fn orient_dimensions_swaps_on_odd_rotation() {
    let mut v = ViewportState::new();
    assert_eq!(v.orient_dimensions(1920, 1080), (1920, 1080));
    v.rotate(1);
    assert_eq!(v.orient_dimensions(1920, 1080), (1080, 1920));
    v.rotate(1); // now 2 quarter turns (even)
    assert_eq!(v.orient_dimensions(1920, 1080), (1920, 1080));
}

#[test]
fn stream_rotation_orients_initial_window_dimensions() {
    let mut v = ViewportState::new();
    v.apply_stream_rotation(1);
    assert_eq!(
        v.orient_dimensions(1920, 1080),
        (1080, 1920),
        "90-degree stream metadata must open a portrait window"
    );

    v.apply_stream_rotation(3);
    assert_eq!(
        v.orient_dimensions(1920, 1080),
        (1080, 1920),
        "270-degree stream metadata must open a portrait window"
    );
}

#[test]
fn apply_stream_rotation_preserves_manual_rotation_on_repeat() {
    let mut v = ViewportState::new();
    v.apply_stream_rotation(1); // initial open: view follows stream
    assert_eq!(v.rotation_quarter_turns, 1);
    v.rotate(1); // user manually rotates to 2
    v.apply_stream_rotation(1);
    assert_eq!(v.rotation_quarter_turns, 2);
    // A genuinely new stream rotation does take effect.
    v.apply_stream_rotation(3);
    assert_eq!(v.rotation_quarter_turns, 3);
}

#[test]
fn reset_turns_back_to_the_stream_and_open_to_upright() {
    let mut v = ViewportState::new();
    v.apply_stream_rotation(1);
    v.rotate(1);
    v.reset();
    assert_eq!(v.rotation_quarter_turns, 1);
    v.reset_for_open();
    assert_eq!(v.rotation_quarter_turns, 0);
    assert_eq!(v.stream_rotation_quarter_turns, 0);
}
