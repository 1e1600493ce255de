use fastplay::decode_run::{
    open_fallback_message, run_failure_message, DecodeOpen, DecodeRun, FailCause, OpenReply,
    OpenStep, RunReply, RunStep, WantedStreams,
};
use fastplay::events::VideoPresentationPath;
use fastplay::media::{VideoDecodeMode, VideoDecodePreference};
use fastplay::time::Duration;

fn run(mode: VideoDecodeMode, audio: Option<i32>) -> DecodeRun {
    let (run, step) = DecodeRun::begin(
        Some(0),
        audio,
        mode,
        0,
        0,
        Some(Duration::from_secs(4)),
        0,
        false,
    );
    assert_eq!(step, RunStep::Read);
    run
}

#[test]
fn packets_go_to_their_decoders() {
    let mut r = run(VideoDecodeMode::HardwareD3D11, Some(1));
    assert_eq!(r.advance(RunReply::Packet(5), false, false), RunStep::DropAndRead);
    assert_eq!(r.advance(RunReply::Packet(0), false, false), RunStep::SendVideo);
    assert_eq!(r.advance(RunReply::Done(0), false, false), RunStep::ReceiveVideo);
    assert_eq!(r.advance(RunReply::Done(3), false, false), RunStep::Read);
    assert_eq!(r.advance(RunReply::Packet(1), false, false), RunStep::SendAudio);
    assert_eq!(r.advance(RunReply::Done(0), false, false), RunStep::ReceiveAudio);
    assert_eq!(r.advance(RunReply::Done(1), false, false), RunStep::Read);
    assert_eq!(r.produced_video_frames, 3);
    assert_eq!(r.advance(RunReply::EndOfFile, false, false), RunStep::FlushVideo);
    assert_eq!(r.advance(RunReply::Done(0), false, false), RunStep::ReceiveVideo);
    assert_eq!(r.advance(RunReply::Done(1), false, false), RunStep::FlushAudio);
    assert_eq!(r.advance(RunReply::Done(0), false, false), RunStep::ReceiveAudio);
    assert_eq!(r.advance(RunReply::Done(0), false, false), RunStep::FlushBatch);
    assert_eq!(r.advance(RunReply::Done(0), false, false), RunStep::Complete);
}

#[test]
fn a_run_without_a_picture_fails() {
    let mut r = run(VideoDecodeMode::Software, None);
    assert_eq!(r.advance(RunReply::EndOfFile, false, false), RunStep::FlushVideo);
    assert_eq!(r.advance(RunReply::Done(0), false, false), RunStep::ReceiveVideo);
    assert_eq!(
        r.advance(RunReply::Done(0), false, false),
        RunStep::Fail(FailCause::NoVideoFrame)
    );
}

#[test]
fn hardware_falls_back_once() {
    let mut r = run(VideoDecodeMode::HardwareD3D11, None);
    r.advance(RunReply::Packet(0), false, false);
    assert_eq!(r.advance(RunReply::Failed, false, false), RunStep::OpenSoftware);
    assert_eq!(
        r.advance(RunReply::SoftwareOpened(1), false, false),
        RunStep::RestartAt(Duration::from_secs(4))
    );
    assert_eq!(r.mode, VideoDecodeMode::Software);
    assert_eq!((r.hw_fallback_count, r.rotation_quarter_turns), (1, 1));
    assert_eq!(r.advance(RunReply::Done(0), false, false), RunStep::Read);
    r.advance(RunReply::Packet(0), false, false);
    assert_eq!(
        r.advance(RunReply::Failed, false, false),
        RunStep::Fail(FailCause::Call)
    );
}

#[test]
fn a_lost_device_or_a_failed_fallback_ends_the_run() {
    let mut r = run(VideoDecodeMode::HardwareD3D11, None);
    assert_eq!(
        r.advance(RunReply::Packet(0), false, true),
        RunStep::Fail(FailCause::DeviceRemoved)
    );
    let mut r = run(VideoDecodeMode::HardwareD3D11, None);
    r.advance(RunReply::Packet(0), false, false);
    r.advance(RunReply::Failed, false, false);
    assert_eq!(
        r.advance(RunReply::Failed, false, false),
        RunStep::Fail(FailCause::Fallback)
    );
}

#[test]
fn a_newer_command_ends_the_run() {
    let mut r = run(VideoDecodeMode::Software, None);
    assert_eq!(r.advance(RunReply::Packet(7), true, false), RunStep::Cancel);
    let mut r = run(VideoDecodeMode::Software, None);
    assert_eq!(r.advance(RunReply::EndOfFile, true, false), RunStep::Cancel);
}

#[test]
fn failures_are_put_in_words() {
    assert_eq!(run_failure_message(FailCause::Call, "because", ""), "because");
    assert_ne!(run_failure_message(FailCause::NoVideoFrame, "a", "b"), "a");
    assert!(run_failure_message(FailCause::Fallback, "hw", "sw").contains("sw"));
    assert_eq!(
        open_fallback_message("no device", "no codec"),
        "hardware decode unavailable (no device); software fallback failed (no codec)"
    );
}

#[test]
fn opening_prefers_hardware() {
    let (mut o, step) = DecodeOpen::begin(
        WantedStreams::VideoAndAudio,
        VideoDecodePreference::Auto,
        Some(Duration::from_secs(9)),
    );
    assert_eq!(step, OpenStep::OpenInput);
    assert_eq!(o.advance(OpenReply::Done, false), OpenStep::FindStreams);
    assert_eq!(o.advance(OpenReply::Done, false), OpenStep::OpenHardware);
    assert_eq!(o.advance(OpenReply::Failed, false), OpenStep::OpenSoftware);
    assert_eq!(
        o.advance(OpenReply::VideoOpened { standard_color: true }, false),
        OpenStep::OpenAudio
    );
    assert_eq!(
        o.advance(OpenReply::Audio(true), false),
        OpenStep::ReportMode {
            mode: VideoDecodeMode::Software,
            hw_fallback_count: 1
        }
    );
    assert_eq!(o.advance(OpenReply::Done, false), OpenStep::ReadDuration);
    assert_eq!(
        o.advance(OpenReply::Length(Duration::from_secs(60)), false),
        OpenStep::ReportDuration(Duration::from_secs(60))
    );
    assert_eq!(
        o.advance(OpenReply::Done, false),
        OpenStep::SeekTo(Duration::from_secs(9))
    );
    assert_eq!(o.advance(OpenReply::Done, false), OpenStep::Allocate);
    assert_eq!(o.advance(OpenReply::Done, false), OpenStep::Complete);
}

#[test]
fn forced_software_never_asks_the_hardware() {
    let (mut o, _) = DecodeOpen::begin(
        WantedStreams::VideoOnly,
        VideoDecodePreference::ForceSoftware,
        None,
    );
    o.advance(OpenReply::Done, false);
    assert_eq!(o.advance(OpenReply::Done, false), OpenStep::OpenSoftware);
    assert_eq!(
        o.advance(OpenReply::VideoOpened { standard_color: false }, false),
        OpenStep::ProbeColor
    );
    assert_eq!(
        o.advance(OpenReply::Path(VideoPresentationPath::UnsupportedHdr), false),
        OpenStep::Fail(FailCause::UnsupportedHdr)
    );
}
