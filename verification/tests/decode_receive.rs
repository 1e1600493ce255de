use fastplay::audio_batcher::Stamps;
use fastplay::decode_math::{ConvertError, TimeBase};
use fastplay::decode_receive::{
    audio_received, begin_audio_receive, ensure_decoder_supports_d3d11,
    extract_hdr_metadata_from_frame, pending_audio_frame, pending_video_frame,
    receive_failure_message, resampled_bytes, select_d3d11_pixel_format, AudioReceiveStep,
    FrameHeader, HardwareConfig, ReceiveFailure, ReceiveReply, ReceiveStep, SideData,
    SoftwareVideoConverter, VideoReceive,
};
use fastplay::generations::{OpenGeneration, OperationId, SeekGeneration};
use fastplay::media::AudioStreamFormat;
use fastplay::time::Duration;

fn stamps() -> Stamps {
    Stamps {
        open_gen: OpenGeneration(1),
        seek_gen: SeekGeneration(2),
        op_id: OperationId(3),
    }
}

#[test]
fn a_decoder_needs_all_three_abilities() {
    let config = |gives_textures, on_graphics_device, takes_device| HardwareConfig {
        gives_textures,
        on_graphics_device,
        takes_device,
    };
    let partial = vec![
        config(true, true, false),
        config(true, false, true),
        config(false, true, true),
    ];
    assert_eq!(
        ensure_decoder_supports_d3d11(&partial).unwrap_err(),
        "decoder does not advertise AV_PIX_FMT_D3D11 via HW_DEVICE_CTX"
    );
    assert!(ensure_decoder_supports_d3d11(&vec![
        config(false, false, false),
        config(true, true, true)
    ])
    .is_ok());
}

#[test]
fn the_texture_format_is_chosen_before_the_end() {
    assert_eq!(select_d3d11_pixel_format(&vec![3, 9, -1, 172], 9, -1), 9);
    assert_eq!(select_d3d11_pixel_format(&vec![3, -1, 9], 9, -1), -1);
    assert_eq!(select_d3d11_pixel_format(&Vec::new(), 9, -1), -1);
}

#[test]
fn light_levels_are_not_passed_over() {
    assert!(extract_hdr_metadata_from_frame(&vec![None, Some(SideData::Other)]).is_ok());
    assert!(
        extract_hdr_metadata_from_frame(&vec![None, Some(SideData::MasteringDisplay)]).is_err()
    );
    assert!(extract_hdr_metadata_from_frame(&vec![Some(SideData::ContentLight)]).is_err());
}

#[test]
fn a_picture_carries_its_stamps_and_shape() {
    let header = FrameHeader {
        best_effort: 2_000,
        pts: 1,
        width: 720,
        height: 576,
        sar_num: 64,
        sar_den: 45,
    };
    let frame = pending_video_frame(header, TimeBase { num: 1, den: 1_000 }, stamps(), 77);
    assert_eq!(frame.pts, Duration::from_secs(2));
    assert_eq!((frame.display_width, frame.display_height), (1024, 576));
    assert_eq!(frame.surface, 77);
    assert_eq!(frame.op_id, OperationId(3));
    let square = FrameHeader {
        sar_num: 0,
        ..header
    };
    let frame = pending_video_frame(square, TimeBase { num: 1, den: 1_000 }, stamps(), 77);
    assert_eq!(frame.display_width, 720);
}

#[test]
fn pictures_are_taken_until_none_is_left() {
    let (mut receive, step) = VideoReceive::begin(Some(9), 0, false, false);
    assert_eq!(step, ReceiveStep::Receive);
    for _ in 0..2 {
        assert_eq!(
            receive.advance(ReceiveReply::Picture(9), false, false),
            ReceiveStep::Convert
        );
        assert_eq!(
            receive.advance(ReceiveReply::Done, false, false),
            ReceiveStep::HandOver
        );
        assert_eq!(
            receive.advance(ReceiveReply::Done, false, false),
            ReceiveStep::Receive
        );
    }
    assert_eq!(
        receive.advance(ReceiveReply::Drained, false, false),
        ReceiveStep::Stop
    );
    assert_eq!(receive.produced_frames, 2);
}

#[test]
fn taking_pictures_stops_for_a_newer_command() {
    assert_eq!(VideoReceive::begin(None, 0, true, true).1, ReceiveStep::Stop);
    let (mut receive, _) = VideoReceive::begin(None, 0, false, true);
    assert_eq!(
        receive.advance(ReceiveReply::Picture(1), true, false),
        ReceiveStep::DropAndStop
    );
    assert_eq!(receive.produced_frames, 0);
}

#[test]
fn taking_pictures_fails_with_a_reason() {
    assert_eq!(
        VideoReceive::begin(Some(9), 0, false, true).1,
        ReceiveStep::Fail(ReceiveFailure::DeviceRemoved)
    );
    let (mut receive, _) = VideoReceive::begin(Some(9), 0, false, false);
    assert_eq!(
        receive.advance(ReceiveReply::Picture(-3), false, false),
        ReceiveStep::Fail(ReceiveFailure::UnexpectedFormat(-3))
    );
    let (mut receive, _) = VideoReceive::begin(Some(9), 0, false, false);
    assert_eq!(
        receive.advance(ReceiveReply::Failed, false, false),
        ReceiveStep::Fail(ReceiveFailure::Call)
    );
    assert_eq!(
        receive_failure_message(ReceiveFailure::UnexpectedFormat(-3), ""),
        "decoder produced unexpected pixel format -3 instead of AV_PIX_FMT_D3D11"
    );
    assert_eq!(
        receive_failure_message(ReceiveFailure::DeviceRemoved, ""),
        "D3D11 device removed during hardware decode"
    );
    assert_eq!(receive_failure_message(ReceiveFailure::Call, "why"), "why");
}

#[test]
fn sound_is_handed_over_piece_by_piece() {
    assert_eq!(begin_audio_receive(true), AudioReceiveStep::Stop);
    assert_eq!(begin_audio_receive(false), AudioReceiveStep::Receive);
    assert_eq!(audio_received(true, -11), AudioReceiveStep::Stop);
    assert_eq!(audio_received(false, -5), AudioReceiveStep::Fail);
    assert_eq!(audio_received(false, 0), AudioReceiveStep::HandOver);
    let format = AudioStreamFormat::stereo_f32_48khz();
    assert_eq!(resampled_bytes(100, &format), 800);
    let mut produced = 4u64;
    let frame = pending_audio_frame(
        Duration::from_secs(1),
        vec![0; 20],
        format,
        stamps(),
        &mut produced,
    );
    assert_eq!((frame.frame_count, produced), (2, 5));
}

#[test]
fn a_converter_is_made_once_per_shape() {
    let mut converter = SoftwareVideoConverter::new();
    assert!(converter.convert(4, 2, 0).unwrap().recreate);
    assert_eq!(
        converter.recreate(4, 2, 12, false).unwrap_err(),
        "failed to create software video converter from pixel format 12 to NV12"
    );
    assert!(converter.recreate(4, 2, 12, true).is_ok());
    let plan = converter.convert(4, 2, 12).unwrap();
    assert!(!plan.recreate);
    assert_eq!(plan.layout.y_len, 8);
    assert!(converter.convert(4, 2, 13).unwrap().recreate);
    assert!(converter.convert(6, 2, 12).unwrap().recreate);
    assert_eq!(converter.convert(5, 2, 12), Err(ConvertError::OddDimensions));
}
