use fastplay::bitmap::{
    blend_pixel, draw_label, finish_text, highlight_places, Bitmap, Pixel, TextStyle,
};
use fastplay::bmp::{
    encode_bgra_bmp, pack_rows, screenshot_file_name, BgraFrameCapture, CaptureError,
};
use fastplay::overlay::Size;
use fastplay::overlay_place::{
    idle_place, overlay_is_reusable, subtitle_place, timeline_place, volume_place, Place,
};
use fastplay::panels::{
    finish_help_panel, finish_recent_panel, help_layout, help_panel, help_rows, idle_label,
    inner_rect,
    padded_size, plan_timeline, recent_layout, recent_panel, recent_row_text, subtitle_metrics,
    timeline_label_place, timeline_left_label, timeline_right_label, track_spans,
    truncate_chars, volume_metrics, Align, RecentRow, TrackLayout, HELP_ROW_COUNT,
};
use fastplay::swap_chain::{Layer, Overlays, SwapChain, SwapChainError};
use fastplay::video_plan::{
    aspect_fit_rect, color_space_bits, hdr10_validation_blt, hdr_trial_goes_on,
    plane_srv_formats, presented_size, render_video_surface, source_corner, FittedSide,
    HdrError, PlaneFormat, RenderError, SurfaceFormat, SurfaceInfo,
};
use fastplay::decode_math::SurfaceColor;
use fastplay::window::Rect;

fn px(b: u8, g: u8, r: u8, a: u8) -> Pixel {
    Pixel { b, g, r, a }
}

fn size(width: u32, height: u32) -> Size {
    Size { width, height }
}

#[test]
fn blending_follows_the_coverage() {
    let dest = px(10, 20, 30, 200);
    assert_eq!(blend_pixel(dest, px(1, 2, 3, 0)), dest);
    assert_eq!(blend_pixel(dest, px(1, 2, 3, 255)), px(1, 2, 3, 255));
    assert_eq!(blend_pixel(px(9, 9, 9, 0), px(1, 2, 3, 4)), px(1, 2, 3, 4));
    // 128 over 200: 128 + 200 - 100 covers 228.
    assert_eq!(blend_pixel(dest, px(100, 100, 100, 128)), px(60, 64, 69, 228));
}

#[test]
fn a_rectangle_is_clipped_to_the_bitmap() {
    let mut bitmap = Bitmap {
        width: 3,
        height: 2,
        pixels: vec![px(0, 0, 0, 0); 6],
    };
    let red = px(0, 0, 255, 255);
    bitmap.fill_rect(1, 1, 9, 9, red);
    let none = px(0, 0, 0, 0);
    assert_eq!(bitmap.pixels, vec![none, none, none, none, red, red]);
}

#[test]
fn text_styles_use_the_drawn_intensity() {
    let drawn = vec![px(0, 0, 0, 0), px(255, 255, 255, 0)];
    let idle = finish_text(&drawn, TextStyle::Idle);
    assert_eq!(idle[0].a, 0);
    assert!(idle[1].a > 0 && idle[1].a < 255);
    let volume = finish_text(&drawn, TextStyle::Volume);
    assert_eq!(volume[1].a, 255);
    let under = vec![px(1, 1, 1, 255); 2];
    let label = draw_label(&under, &drawn);
    assert_eq!(label[0], under[0]);
    assert_ne!(label[1], under[1]);
    let high = highlight_places(&under, 1, 2);
    assert_eq!(high[0], under[0]);
}

#[test]
fn a_screenshot_is_a_top_down_bitmap() {
    let capture = BgraFrameCapture {
        width: 2,
        height: 1,
        pixels: vec![1, 2, 3, 4, 5, 6, 7, 8],
    };
    let bytes = encode_bgra_bmp(&capture).unwrap();
    assert_eq!(bytes.len(), 62);
    assert_eq!(&bytes[0..6], &[b'B', b'M', 62, 0, 0, 0]);
    assert_eq!(&bytes[10..14], &[54, 0, 0, 0]);
    assert_eq!(&bytes[14..18], &[40, 0, 0, 0]);
    assert_eq!(&bytes[18..22], &[2, 0, 0, 0]);
    assert_eq!(&bytes[22..26], &[255, 255, 255, 255]);
    assert_eq!(&bytes[26..30], &[1, 0, 32, 0]);
    assert_eq!(&bytes[34..38], &[8, 0, 0, 0]);
    assert_eq!(&bytes[54..], &[1, 2, 3, 4, 5, 6, 7, 8]);
    assert_eq!(screenshot_file_name(1_700), "fastplay-screenshot-1700.bmp");
}

#[test]
fn an_impossible_screenshot_is_refused() {
    let capture = |width, height, len| BgraFrameCapture {
        width,
        height,
        pixels: vec![0; len],
    };
    assert_eq!(encode_bgra_bmp(&capture(2, 1, 7)), Err(CaptureError::SizeMismatch));
    assert_eq!(
        encode_bgra_bmp(&capture(0x10000, 0x10000, 0)),
        Err(CaptureError::DimensionsOverflow)
    );
    assert_eq!(
        encode_bgra_bmp(&capture(1, 0x8000_0000, 0)),
        Err(CaptureError::DimensionsOverflow)
    );
    assert_eq!(pack_rows(&Vec::new(), 4, 0, 1).err(), Some(CaptureError::EmptyTexture));
    assert_eq!(
        pack_rows(&vec![0; 8], 4, 2, 1).err(),
        Some(CaptureError::RowPitchTooSmall)
    );
    let packed = pack_rows(&vec![1, 2, 3, 4, 9, 9, 5, 6, 7, 8, 9, 9], 6, 1, 2).unwrap();
    assert_eq!(packed.pixels, vec![1, 2, 3, 4, 5, 6, 7, 8]);
}

#[test]
fn long_names_are_cut() {
    assert_eq!(truncate_chars("abc", 3), "abc");
    assert_eq!(truncate_chars("abcd", 3), "ab\u{2026}");
    assert_eq!(truncate_chars("abcd", 1), "\u{2026}");
    assert_eq!(truncate_chars("abcd", 0), "");
    assert_eq!(truncate_chars("", 0), "");
    let long = "x".repeat(80);
    assert!(recent_row_text(&long, true).ends_with('\u{2026}'));
    assert_ne!(recent_row_text("a", true), recent_row_text("a", false));
}

#[test]
fn panel_lines_follow_each_other() {
    let layout = help_layout();
    assert_eq!(help_rows().len(), HELP_ROW_COUNT);
    for i in 1..HELP_ROW_COUNT {
        assert!(layout.left_rect(i - 1).bottom <= layout.left_rect(i).top);
    }
    assert!(layout.header_rect().bottom as i64 <= layout.left_rect(0).top as i64);
    let recent = recent_layout(2);
    let drawn = vec![px(0, 0, 0, 0); (recent.width * recent.height) as usize];
    let panel = finish_recent_panel(2, 1, &drawn);
    assert_eq!(panel.pixels.len(), drawn.len());
    assert_eq!((panel.width, panel.height), (recent.width as u32, recent.height as u32));
}

#[test]
fn labels_name_the_preview_and_the_repeat() {
    assert_eq!(timeline_left_label("0:05", None), "0:05");
    assert_eq!(timeline_left_label("0:05", Some("0:05")), "0:05");
    assert_eq!(
        timeline_left_label("0:05", Some("0:09")),
        "0:05  \u{2192}  0:09"
    );
    assert_eq!(timeline_right_label("1:00", false), "1:00");
    assert_eq!(timeline_right_label("1:00", true), "\u{27F3}  1:00");
    assert!(subtitle_metrics("  ", size(640, 480)).is_none());
    assert!(subtitle_metrics("hi", size(640, 480)).is_some());
}

#[test]
fn overlays_have_their_places() {
    let view = size(1000, 900);
    assert_eq!(
        subtitle_place(size(401, 100), view),
        Place { left: 598, top: 1500, right: 1400, bottom: 1700 }
    );
    assert_eq!(
        timeline_place(40, view),
        Place { left: 0, top: 1700, right: 2000, bottom: 1780 }
    );
    assert_eq!(
        volume_place(size(100, 30), view),
        Place { left: 1768, top: 32, right: 1968, bottom: 92 }
    );
    assert_eq!(
        idle_place(size(301, 100), view),
        Place { left: 699, top: 800, right: 1301, bottom: 1000 }
    );
    assert_eq!(
        idle_place(size(2000, 2000), view),
        Place { left: 0, top: 0, right: 2000, bottom: 1800 }
    );
    assert!(overlay_is_reusable(Some(view), view));
    assert!(!overlay_is_reusable(Some(view), size(1000, 901)));
    assert!(!overlay_is_reusable(None, view));
}

#[test]
fn layers_are_stacked_in_order() {
    let all = Overlays { subtitle: true, timeline: true, volume: true };
    let mut chain = SwapChain::new();
    let (at, layers) = chain.render_surface(all, size(5, 6)).unwrap();
    assert_eq!(at, size(5, 6));
    assert_eq!(
        layers,
        vec![Layer::Video, Layer::Subtitle, Layer::Timeline, Layer::Volume]
    );
    assert!(!chain.resize(0, 9));
    assert!(chain.resize(8, 9));
    assert_eq!(chain.render(all), Err(SwapChainError::BackbufferNotBound));
    assert_eq!(
        chain.viewport_size(size(5, 6)),
        Err(SwapChainError::TextureNotBound)
    );
    chain.resized(8, 9);
    assert_eq!(chain.viewport_size(size(5, 6)), Ok(size(8, 9)));
    let none = Overlays { subtitle: false, timeline: false, volume: false };
    assert_eq!(chain.render(none), Ok(vec![Layer::Ground]));
    chain.release_resources();
    assert_eq!(
        chain.render_surface(none, size(1, 1)),
        Err(SwapChainError::TextureNotBound)
    );
    assert_eq!(
        SwapChainError::TextureNotBound.message(),
        "swap-chain backbuffer texture is not bound"
    );
}

#[test]
fn a_picture_is_fitted_and_planned() {
    assert_eq!(
        aspect_fit_rect(size(1920, 1080), size(800, 800), FittedSide::Height(450)),
        Rect { left: 0, top: 175, right: 800, bottom: 625 }
    );
    assert_eq!(
        aspect_fit_rect(size(2047, 1446), size(2000, 723), FittedSide::Width(1023)),
        Rect { left: 488, top: 0, right: 1511, bottom: 723 }
    );
    assert_eq!(
        aspect_fit_rect(size(0, 9), size(8, 8), FittedSide::Width(3)),
        Rect { left: 0, top: 0, right: 8, bottom: 8 }
    );
    assert_eq!(
        aspect_fit_rect(size(1, 999), size(8, 8), FittedSide::Width(0)),
        Rect { left: 4, top: 0, right: 5, bottom: 8 }
    );
    let surface = SurfaceInfo {
        size: size(720, 576),
        sar_num: 64,
        sar_den: 45,
        color: SurfaceColor { bt709: true, full_range: true },
        needs_tone_map: false,
    };
    assert_eq!(presented_size(surface, 5), size(576, 1024));
    assert_eq!(presented_size(surface, 2), size(1024, 576));
    let side = FittedSide::Height(1024);
    let plan = render_video_surface(surface, size(576, 1024), 1, 5, side, None).unwrap();
    assert_eq!(plan.base, Rect { left: 0, top: 0, right: 576, bottom: 1024 });
    assert!(!plan.reuse);
    assert_eq!(plan.rotation_quarter_turns, 1);
    let again = render_video_surface(surface, size(576, 1024), 1, 5, side, Some(plan.key)).unwrap();
    assert!(again.reuse);
    assert_eq!(plan.color_space_bits, color_space_bits(surface.color));
    assert_eq!(plan.content_input, size(720, 576));
    let empty = SurfaceInfo { size: size(0, 0), ..surface };
    let plan = render_video_surface(empty, size(0, 9), 1, 0, side, None).unwrap();
    assert_eq!(plan.content_input, size(1, 1));
    assert_eq!(plan.content_output, size(1, 9));
    let hdr = SurfaceInfo { needs_tone_map: true, ..surface };
    assert_eq!(
        render_video_surface(hdr, size(1, 1), 1, 0, side, None),
        Err(RenderError::NeedsToneMap)
    );
}

#[test]
fn rotation_permutes_which_source_corner_each_dest_corner_samples() {
    // Corners are counted clockwise from the top left.
    let texcoord = |corner: u8| match corner {
        0 => [0.0f32, 0.0],
        1 => [1.0, 0.0],
        2 => [1.0, 1.0],
        _ => [0.0, 1.0],
    };
    let top_left_uv = |turns: u8| texcoord(source_corner(0, turns));
    assert_eq!(top_left_uv(0), [0.0, 0.0]);
    assert_eq!(top_left_uv(2), [1.0, 1.0]);
    assert_eq!(top_left_uv(1), [0.0, 1.0]);
    assert_eq!(top_left_uv(3), [1.0, 0.0]);
}

#[test]
fn hdr_conversions_are_tried_only_where_offered() {
    assert_eq!(
        plane_srv_formats(SurfaceFormat::P010),
        Ok((PlaneFormat::R16, PlaneFormat::R16G16))
    );
    assert_eq!(plane_srv_formats(SurfaceFormat::Other), Err(RenderError::NotPlanar));
    let unverified = Err(HdrError::ColorSpaceUnverified);
    let trial =
        hdr10_validation_blt(size(0, 4), size(8, 8), Ok(5), None, Ok(12), true).unwrap();
    assert_eq!(trial.output_color_space, 5);
    assert_eq!(trial.input, size(1, 4));
    assert_eq!(trial.stream_color_space, 12);
    assert_eq!(trial.target, Rect { left: 0, top: 0, right: 8, bottom: 8 });
    assert_eq!(
        hdr10_validation_blt(size(4, 4), size(8, 8), Ok(5), Some(3), unverified, true)
            .unwrap()
            .stream_color_space,
        3
    );
    assert_eq!(
        hdr10_validation_blt(size(4, 4), size(8, 8), Ok(5), None, unverified, true),
        Err(HdrError::ColorSpaceUnverified)
    );
    assert_eq!(
        hdr10_validation_blt(size(4, 4), size(8, 8), Ok(5), Some(3), unverified, false),
        Err(HdrError::VideoContext1Unavailable)
    );
    assert_eq!(
        hdr10_validation_blt(size(4, 4), size(8, 8), unverified, Some(3), Ok(1), false),
        Err(HdrError::ColorSpaceUnverified)
    );
    assert_eq!(
        hdr_trial_goes_on(false, false),
        Err(HdrError::FormatConversionUnsupported)
    );
    assert!(hdr_trial_goes_on(false, true).is_ok());
}

#[test]
fn the_track_shows_marks_and_progress() {
    let spans = track_spans(200, 20, 180, 50, Some(40), Some(120), 70);
    assert_eq!(spans.range, Some((40, 120)));
    assert_eq!(spans.played, Some((40, 70)));
    assert_eq!((spans.in_mark, spans.out_mark), (Some(40), Some(119)));
    assert_eq!(spans.handle, 70);
    let plain = track_spans(200, 20, 180, 500, None, None, 500);
    assert_eq!(plain.range, None);
    assert_eq!(plain.played, Some((20, 180)));
    assert_eq!(plain.handle, 180);
    let edge = track_spans(200, 20, 180, 0, Some(-9), Some(999), 0);
    assert_eq!((edge.in_mark, edge.out_mark), (Some(0), Some(198)));
    assert_eq!(edge.played, None);
    let outside = track_spans(200, -30, 180, 40, None, None, 90);
    assert_eq!(outside.played, Some((0, 40)));
    assert_eq!(outside.handle, 90);
}

#[test]
fn labels_have_their_sizes() {
    let volume = volume_metrics("50%").unwrap();
    assert_eq!((volume.font_height, volume.padding_x, volume.padding_y), (18, 14, 8));
    assert_eq!(volume.max_width, 160);
    assert!(volume_metrics(" ").is_none());
    let (text, idle) = idle_label();
    assert_eq!(text, "Drop a file to play");
    assert_eq!((idle.font_height, idle.padding_x, idle.padding_y), (16, 24, 16));
    assert_eq!(
        timeline_label_place(200),
        Rect { left: 16, top: 4, right: 184, bottom: 24 }
    );
}

#[test]
fn text_is_padded_on_all_sides() {
    let text = Rect { left: 0, top: 0, right: 100, bottom: 20 };
    assert_eq!(padded_size(text, 8, 4), size(116, 28));
    assert_eq!(
        inner_rect(size(116, 28), 8, 4),
        Rect { left: 8, top: 4, right: 108, bottom: 24 }
    );
    let layout = recent_layout(3);
    assert_eq!(layout.left_rect(1).top, layout.right_rect(1).top);
    assert!(layout.left_rect(1).right <= layout.right_rect(1).left);
}

fn row(name: &str, position: &str) -> RecentRow {
    RecentRow {
        name: name.to_string(),
        position: position.to_string(),
    }
}

#[test]
fn the_recent_panel_lists_names_and_positions() {
    let rows = vec![row("a.mp4", "0:10"), row("b.mp4", "")];
    let texts = recent_panel(&rows, 1);
    let words: Vec<&str> = texts.iter().map(|t| t.text.as_str()).collect();
    assert_eq!(
        words,
        vec![
            "Recent Files",
            "  a.mp4",
            "0:10",
            "\u{203A} b.mp4",
            "",
            "Enter Open   \u{2191}\u{2193} Select   Del Remove   Esc Close",
        ]
    );
    let layout = recent_layout(2);
    assert_eq!(texts[1].place, layout.left_rect(0));
    assert_eq!((texts[2].place, texts[2].align), (layout.right_rect(0), Align::Right));
    assert_eq!(texts[5].place, Rect { left: 22, top: 100, right: 538, bottom: 122 });
}

#[test]
fn an_empty_recent_panel_says_so_and_highlights_nothing() {
    let texts = recent_panel(&Vec::new(), 0);
    assert_eq!(texts.len(), 3);
    assert_eq!(texts[1].text, "No recent files");
    assert_eq!(texts[1].place, Rect { left: 22, top: 48, right: 538, bottom: 70 });
    let layout = recent_layout(0);
    let drawn = vec![px(0, 0, 0, 0); (layout.width * layout.height) as usize];
    let plain = finish_recent_panel(0, 0, &drawn);
    let place = 50 * 560;
    assert_eq!(plain.pixels[place], px(22, 20, 18, 218));
    let chosen = finish_recent_panel(1, 0, &drawn);
    assert_eq!(chosen.pixels[place], px(46, 52, 70, 230));
    let beyond = finish_recent_panel(1, 1, &drawn);
    assert_eq!(beyond.pixels[place], px(22, 20, 18, 218));
}

#[test]
fn the_help_panel_has_a_heading_and_two_columns() {
    let texts = help_panel(&help_rows());
    assert_eq!(texts.len(), 1 + 2 * HELP_ROW_COUNT);
    assert_eq!((texts[0].text.as_str(), texts[0].align), ("Controls", Align::Center));
    assert_eq!(texts[1].text, "Space");
    assert_eq!(texts[2].text, "Pause / resume");
    assert_eq!(texts[2].place, help_layout().right_rect(0));
    let picture = finish_help_panel(&vec![px(0, 0, 0, 0); 390 * 544]);
    assert_eq!(picture.pixels[44 * 390 + 20], px(255, 255, 255, 60));
}

#[test]
fn a_timeline_needs_a_view_and_a_second() {
    let layout = TrackLayout {
        top: 100,
        track_top: 120,
        track_bottom: 126,
        track_left: 20,
        track_right: 180,
    };
    let plan = |view, millis| {
        plan_timeline(
            view,
            40,
            fastplay::time::Duration::from_millis(millis),
            layout,
            50,
            None,
            Some(90),
            70,
        )
    };
    assert!(plan(size(0, 480), 5_000).is_none());
    assert!(plan(size(200, 0), 5_000).is_none());
    assert!(plan(size(200, 480), 999).is_none());
    let drawn = plan(size(200, 480), 1_000).unwrap();
    assert_eq!(drawn.size, size(200, 40));
    assert_eq!((drawn.rows.top, drawn.rows.bottom, drawn.rows.middle), (20, 26, 23));
    assert_eq!((drawn.rows.mark_top, drawn.rows.mark_bottom), (17, 29));
    assert_eq!(drawn.spans.out_mark, Some(89));
    assert_eq!((drawn.track_left, drawn.track_right), (20, 180));
}
