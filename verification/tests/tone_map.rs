use fastplay::audio_device::check_sink_format;
use fastplay::crash_report::{crash_marker, crash_report, EXCEPTION_ACCESS_VIOLATION};
use fastplay::media::AudioStreamFormat;
use fastplay::video_plan::{tone_map_levels, HdrTransfer, ToneMapLevels};

/// The constants that the shader is given.
struct ToneMapParams {
    range: [f32; 4],
    params: [f32; 4],
}

fn params_of(levels: ToneMapLevels) -> ToneMapParams {
    let max_code = levels.max_code as f32;
    ToneMapParams {
        range: [
            levels.luma_zero as f32 / max_code,
            max_code / levels.luma_span as f32,
            levels.chroma_zero as f32 / max_code,
            max_code / levels.chroma_span as f32,
        ],
        params: [
            levels.max_word as f32 / (levels.code_step * levels.max_code) as f32,
            levels.transfer as f32,
            0.75,
            0.0,
        ],
    }
}

fn decode_levels(params: &ToneMapParams, luma_code: f32, chroma_code: f32) -> (f32, f32) {
    let [y_offset, y_scale, c_offset, c_scale] = params.range;
    let scale = params.params[0];
    let luma = (luma_code * scale - y_offset) * y_scale;
    let chroma = (chroma_code * scale - c_offset) * c_scale;
    (luma, chroma)
}

#[test]
fn studio_10_bit_levels_map_video_black_and_white_to_0_and_1() {
    let params = params_of(tone_map_levels(HdrTransfer::Hlg, false, true));
    let fetch = |code_10bit: f32| code_10bit * 64.0 / 65535.0;

    let (black, neutral) = decode_levels(&params, fetch(64.0), fetch(512.0));
    assert!(
        black.abs() < 1e-4,
        "video black must decode to 0.0, got {black}"
    );
    assert!(
        neutral.abs() < 1e-4,
        "neutral chroma must decode to 0.0, got {neutral}"
    );

    let (white, _) = decode_levels(&params, fetch(940.0), fetch(512.0));
    assert!(
        (white - 1.0).abs() < 1e-4,
        "nominal white must decode to 1.0, got {white}"
    );

    let (_, high) = decode_levels(&params, fetch(64.0), fetch(960.0));
    assert!(
        (high - 0.5).abs() < 1e-3,
        "chroma 960 must be +0.5, got {high}"
    );
}

#[test]
fn studio_8_bit_levels_map_video_black_and_white_to_0_and_1() {
    let params = params_of(tone_map_levels(HdrTransfer::Pq, false, false));
    assert_eq!(params.params[0], 1.0, "8-bit needs no sample rescale");

    let (black, _) = decode_levels(&params, 16.0 / 255.0, 128.0 / 255.0);
    let (white, _) = decode_levels(&params, 235.0 / 255.0, 128.0 / 255.0);
    assert!(
        black.abs() < 1e-4,
        "video black must decode to 0.0, got {black}"
    );
    assert!(
        (white - 1.0).abs() < 1e-4,
        "nominal white must decode to 1.0, got {white}"
    );
}

#[test]
fn full_range_levels_pass_luma_through_and_center_chroma() {
    let params = params_of(tone_map_levels(HdrTransfer::Hlg, true, true));
    let fetch = |code_10bit: f32| code_10bit * 64.0 / 65535.0;

    let (black, neutral) = decode_levels(&params, fetch(0.0), fetch(512.0));
    let (white, _) = decode_levels(&params, fetch(1023.0), fetch(512.0));
    assert!(
        black.abs() < 1e-4,
        "full-range black must be 0.0, got {black}"
    );
    assert!(
        (white - 1.0).abs() < 1e-4,
        "full-range white must be 1.0, got {white}"
    );
    assert!(
        neutral.abs() < 1e-4,
        "full-range neutral chroma must be 0.0, got {neutral}"
    );
}

#[test]
fn transfer_selector_distinguishes_pq_from_hlg() {
    let pq = params_of(tone_map_levels(HdrTransfer::Pq, false, true));
    let hlg = params_of(tone_map_levels(HdrTransfer::Hlg, false, true));
    assert_eq!(pq.params[1], 0.0);
    assert_eq!(hlg.params[1], 1.0);
}

#[test]
fn a_crash_is_put_in_words() {
    let text = crash_report(EXCEPTION_ACCESS_VIOLATION, 0x7ff6_1234_abcd, &vec![1, 0x10], "main")
        .unwrap();
    assert_eq!(
        text,
        "CRASH: ACCESS_VIOLATION at 0x00007FF61234ABCD\nType: WRITE\nTarget address: 0x0000000000000010\n\nThis is a hardware exception (not a Rust panic).\nCheck this run's session log for the buffered trace leading up to this crash.\n\nBacktrace:\nmain\n"
    );
    assert!(crash_report(EXCEPTION_ACCESS_VIOLATION, 0, &Vec::new(), "")
        .unwrap()
        .contains("Type: ?\n"));
    assert_eq!(crash_report(0x8000_0003, 0, &vec![0], ""), None);
    assert_eq!(crash_marker("x"), "\n=== CRASH ===\nx\n");
}

#[test]
fn a_sink_plays_four_byte_samples() {
    let format = AudioStreamFormat::stereo_f32_48khz();
    assert!(check_sink_format(&format).is_ok());
    let short = AudioStreamFormat {
        bytes_per_sample: 2,
        ..format
    };
    assert_eq!(
        check_sink_format(&short).unwrap_err(),
        "default shared mix format is 48000 Hz, 2 channels, 2 bytes/sample; M3 currently supports only float shared-mode sinks"
    );
}
