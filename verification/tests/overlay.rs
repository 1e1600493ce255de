use fastplay::clock::PlaybackRate;
use fastplay::overlay::OverlayManager;

fn rate(hundredths: u32) -> PlaybackRate {
    PlaybackRate { hundredths }
}

#[test]
fn title_with_no_source_is_app_name() {
    let o = OverlayManager::new();
    assert_eq!(o.window_title(None, rate(100), None), "FastPlay");
}

#[test]
fn title_with_source_at_normal_rate_has_no_suffix() {
    let o = OverlayManager::new();
    assert_eq!(
        o.window_title(Some("clip.mp4"), rate(100), None),
        "clip.mp4 - FastPlay"
    );
}

#[test]
fn title_shows_integer_rate_without_decimals() {
    let o = OverlayManager::new();
    assert_eq!(
        o.window_title(Some("clip.mp4"), rate(200), None),
        "clip.mp4 - FastPlay [2x]"
    );
}

#[test]
fn title_trims_trailing_zeros_on_fractional_rate() {
    let o = OverlayManager::new();
    assert_eq!(
        o.window_title(Some("clip.mp4"), rate(150), None),
        "clip.mp4 - FastPlay [1.5x]"
    );
    assert_eq!(
        o.window_title(Some("clip.mp4"), rate(125), None),
        "clip.mp4 - FastPlay [1.25x]"
    );
}

#[test]
fn title_omits_decode_label_when_decode_info_hidden() {
    let o = OverlayManager::new();
    assert_eq!(
        o.window_title(Some("clip.mp4"), rate(100), Some("HW:D3D11")),
        "clip.mp4 - FastPlay"
    );
}

#[test]
fn title_includes_decode_label_when_shown() {
    let mut o = OverlayManager::new();
    o.show_decode_info = true;
    assert_eq!(
        o.window_title(Some("clip.mp4"), rate(100), Some("HW:D3D11")),
        "clip.mp4 - FastPlay [HW:D3D11]"
    );
}

#[test]
fn title_combines_rate_and_decode_label() {
    let mut o = OverlayManager::new();
    o.show_decode_info = true;
    assert_eq!(
        o.window_title(Some("clip.mp4"), rate(200), Some("SW")),
        "clip.mp4 - FastPlay [2x  SW]"
    );
}

#[test]
fn decode_label_requires_both_flag_and_label() {
    let mut o = OverlayManager::new();
    o.show_decode_info = true;
    // Flag on but no active decode mode -> no suffix.
    assert_eq!(o.window_title(Some("c.mp4"), rate(100), None), "c.mp4 - FastPlay");
}
