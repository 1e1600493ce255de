use fastplay::decode_math::{
    absolute_seek_micros, decoded_frame_pts, display_size, frame_pts, frame_surface_color,
    nv12_layout, rotation_quarter_turns, sample_aspect, stream_rotation_quarter_turns,
    ColorSpaceTag, ConvertError, StreamEntry, SurfaceColor, TimeBase, NO_TIMESTAMP,
};
use fastplay::time::Duration;

#[test]
fn time_stamps_become_positions() {
    let base = TimeBase { num: 1, den: 90_000 };
    assert_eq!(frame_pts(90_000, base), Duration::from_secs(1));
    assert_eq!(frame_pts(1, base), Duration::from_micros(11));
    assert_eq!(frame_pts(-90_000, base), Duration::zero());
    assert_eq!(frame_pts(NO_TIMESTAMP, base), Duration::zero());
    assert_eq!(frame_pts(5, TimeBase { num: 0, den: 1 }), Duration::zero());
    assert_eq!(frame_pts(5, TimeBase { num: 1, den: 0 }), Duration::zero());
    assert_eq!(
        frame_pts(i64::MAX, TimeBase { num: i32::MAX, den: 1 }),
        Duration::from_micros(u64::MAX)
    );
}

#[test]
fn the_best_effort_counts_first() {
    let base = TimeBase { num: 1, den: 1_000 };
    assert_eq!(decoded_frame_pts(7, 9, base), Duration::from_millis(7));
    assert_eq!(decoded_frame_pts(NO_TIMESTAMP, 9, base), Duration::from_millis(9));
    assert_eq!(decoded_frame_pts(NO_TIMESTAMP, NO_TIMESTAMP, base), Duration::zero());
}

#[test]
fn a_seek_counts_from_the_start_of_the_file() {
    let target = Duration::from_millis(1_500);
    assert_eq!(absolute_seek_micros(target, 1_400_000), 2_900_000);
    assert_eq!(absolute_seek_micros(target, NO_TIMESTAMP), 1_500_000);
    assert_eq!(absolute_seek_micros(target, i64::MAX), i64::MAX);
}

#[test]
fn pal_pictures_are_stretched() {
    assert_eq!(display_size(720, 576, 64, 45), (1024, 576));
    assert_eq!(sample_aspect(64, 45), (64, 45));
    assert_eq!(sample_aspect(0, 1), (1, 1));
    assert_eq!(sample_aspect(1, -1), (1, 1));
}

#[test]
fn untagged_colour_follows_the_height() {
    let other = |height| frame_surface_color(ColorSpaceTag::Other, false, height);
    assert_eq!(other(576), SurfaceColor { bt709: false, full_range: false });
    assert_eq!(other(577), SurfaceColor { bt709: true, full_range: false });
    assert_eq!(
        frame_surface_color(ColorSpaceTag::Bt709, true, 100),
        SurfaceColor { bt709: true, full_range: true }
    );
    assert_eq!(
        frame_surface_color(ColorSpaceTag::Rgb, true, 1080),
        SurfaceColor { bt709: false, full_range: false }
    );
}

#[test]
fn display_matrices_turn_by_quarters() {
    assert_eq!(rotation_quarter_turns(65_536, 0), 0);
    assert_eq!(rotation_quarter_turns(0, 65_536), 1);
    assert_eq!(rotation_quarter_turns(-65_536, 0), 2);
    assert_eq!(rotation_quarter_turns(0, -65_536), 3);
    assert_eq!(rotation_quarter_turns(60_000, 20_000), 0);
    assert_eq!(rotation_quarter_turns(0, 0), 0);
}

#[test]
fn the_first_display_matrix_counts() {
    let entry = |is_display_matrix, is_whole, a, b| StreamEntry {
        is_display_matrix,
        is_whole,
        a,
        b,
    };
    assert_eq!(
        stream_rotation_quarter_turns(&vec![
            entry(false, true, -65_536, 0),
            entry(true, true, 0, 65_536),
            entry(true, true, -65_536, 0),
        ]),
        1
    );
    assert_eq!(
        stream_rotation_quarter_turns(&vec![
            entry(true, false, 0, 65_536),
            entry(true, true, 0, 65_536),
        ]),
        0
    );
    assert_eq!(stream_rotation_quarter_turns(&Vec::new()), 0);
}

#[test]
fn planes_follow_each_other() {
    let layout = nv12_layout(4, 2).unwrap();
    assert_eq!((layout.stride, layout.y_len, layout.uv_len), (4, 8, 4));
    assert_eq!(nv12_layout(0, 2), Err(ConvertError::InvalidDimensions));
    assert_eq!(nv12_layout(3, 2), Err(ConvertError::OddDimensions));
    assert_eq!(
        ConvertError::OddDimensions.message(),
        "software fallback currently supports only even-sized frames"
    );
    assert_eq!(
        ConvertError::InvalidDimensions.message(),
        "software decode produced invalid frame dimensions"
    );
}
