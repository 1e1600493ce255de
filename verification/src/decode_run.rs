//! Opening a file and decoding it to its end: which call comes next, given how
//! the last one went. The calls themselves are made by the thread that runs it.
use vstd::prelude::*;
use crate::drop_stats::counted;
use crate::events::VideoPresentationPath;
use crate::media::{VideoDecodeMode, VideoDecodePreference};
use crate::text::owned;
use crate::time::Duration;

verus! {

/// Why decoding failed.
#[derive(Clone, Copy, Debug, PartialEq, Eq, Structural)]
pub enum FailCause {
    /// The call that was made failed, for the reason that it gave.
    Call,
    /// The graphics device was removed.
    DeviceRemoved,
    /// Hardware decoding failed, and then software decoding did too.
    Fallback,
    /// The end came without a single picture.
    NoVideoFrame,
    /// The colours of the file cannot be passed through.
    ColorSpaceUnverified,
    /// The colours of the file would have to be mapped.
    ToneMappingNotImplemented,
    /// The colours of the file cannot be shown.
    UnsupportedHdr,
}

/// The words for a cause that needs none from a call.
pub open spec fn cause_text(cause: FailCause) -> Option<Seq<char>> {
    match cause {
        FailCause::DeviceRemoved => Some("D3D11 device removed during hardware decode"@),
        FailCause::NoVideoFrame => Some("no decodable video frame was produced"@),
        _ => None,
    }
}

/// The words for a failure while decoding, given what the last call said and
/// what the software decoder said.
pub fn run_failure_message(cause: FailCause, call: &str, software: &str) -> (r: String)
    ensures
        r@ == (match cause_text(cause) {
            Some(text) => text,
            None => if cause == FailCause::Fallback {
                call@ + "; software fallback also failed: "@ + software@
            } else {
                call@
            },
        }),
{
    match cause {
        FailCause::DeviceRemoved => owned("D3D11 device removed during hardware decode"),
        FailCause::NoVideoFrame => owned("no decodable video frame was produced"),
        FailCause::Fallback => {
            let mut out = owned(call);
            out.append("; software fallback also failed: ");
            out.append(software);
            out
        },
        _ => owned(call),
    }
}

/// The words for a file that neither decoder opens.
pub fn open_fallback_message(hardware: &str, software: &str) -> (r: String)
    ensures
        r@ == "hardware decode unavailable ("@ + hardware@ + "); software fallback failed ("@
            + software@ + ")"@,
{
    let mut out = owned("hardware decode unavailable (");
    out.append(hardware);
    out.append("); software fallback failed (");
    out.append(software);
    out.append(")");
    out
}

/// Where a run is.
#[derive(Clone, Copy, Debug, PartialEq, Eq, Structural)]
pub enum RunStage {
    Reading,
    SendingVideo,
    OpeningSoftware,
    Restarting,
    ReceivingVideo,
    SendingAudio,
    ReceivingAudio,
    FlushingVideo,
    DrainingVideo,
    FlushingAudio,
    DrainingAudio,
    FlushingBatch,
    Over,
}

/// What a run does next.
#[derive(Clone, Copy, Debug, PartialEq, Eq, Structural)]
pub enum RunStep {
    /// Read a packet.
    Read,
    /// Let the packet go and read another one.
    DropAndRead,
    /// Send the packet to the video decoder.
    SendVideo,
    /// Let the packet go and open a software decoder.
    OpenSoftware,
    /// Report the decode mode, then go back to this position.
    RestartAt(Duration),
    /// Take what the video decoder has.
    ReceiveVideo,
    /// Send the packet to the audio decoder.
    SendAudio,
    /// Take what the audio decoder has.
    ReceiveAudio,
    /// Tell the video decoder that this was all.
    FlushVideo,
    /// Tell the audio decoder that this was all.
    FlushAudio,
    /// Hand over the audio that was gathered.
    FlushBatch,
    /// It is over.
    Complete,
    /// A newer command has come.
    Cancel,
    /// It failed.
    Fail(FailCause),
}

/// How a call went.
#[derive(Clone, Copy, Debug, PartialEq, Eq, Structural)]
pub enum RunReply {
    /// A packet of this stream was read.
    Packet(i32),
    EndOfFile,
    /// The call succeeded, and gave this many pictures.
    Done(u64),
    /// A software decoder was opened for a picture that is turned so.
    SoftwareOpened(u8),
    Failed,
}

/// A run from a position to the end.
#[derive(Clone, Copy, Debug, PartialEq, Eq, Structural)]
pub struct DecodeRun {
    pub stage: RunStage,
    /// The video stream; an audio-only run has none.
    pub video_stream: Option<i32>,
    pub audio_stream: Option<i32>,
    pub mode: VideoDecodeMode,
    pub hw_fallback_count: u64,
    pub rotation_quarter_turns: u8,
    pub fallback_done: bool,
    /// Where the run began.
    pub position: Option<Duration>,
    pub produced_video_frames: u64,
}

/// A sum, at most the largest number.
pub open spec fn sum_pictures(a: u64, b: u64) -> u64 {
    if a + b > u64::MAX {
        u64::MAX
    } else {
        (a + b) as u64
    }
}

impl DecodeRun {
    /// At another stage.
    pub open spec fn at(self, stage: RunStage) -> Self {
        DecodeRun { stage, ..self }
    }

    /// Back to reading, unless a newer command has come.
    pub open spec fn again(self, cancelled: bool, step: RunStep) -> (Self, RunStep) {
        if cancelled {
            (self.at(RunStage::Over), RunStep::Cancel)
        } else {
            (self.at(RunStage::Reading), step)
        }
    }

    /// Over, because it failed.
    pub open spec fn failed(self, cause: FailCause) -> (Self, RunStep) {
        (self.at(RunStage::Over), RunStep::Fail(cause))
    }

    /// Over, because all is done. A file with video must have given a picture.
    pub open spec fn finished(self) -> (Self, RunStep) {
        if self.video_stream is Some && self.produced_video_frames == 0 {
            self.failed(FailCause::NoVideoFrame)
        } else {
            (self.at(RunStage::Over), RunStep::Complete)
        }
    }

    /// After the video decoder was emptied.
    pub open spec fn video_drained(self) -> (Self, RunStep) {
        if self.audio_stream is Some {
            (self.at(RunStage::FlushingAudio), RunStep::FlushAudio)
        } else {
            self.finished()
        }
    }

    /// After a packet was read: it goes to the decoder of its stream.
    pub open spec fn routed(self, stream: i32, cancelled: bool, device_removed: bool) -> (
        Self,
        RunStep,
    ) {
        if self.video_stream == Some(stream) {
            if self.mode == VideoDecodeMode::HardwareD3D11 && device_removed {
                self.failed(FailCause::DeviceRemoved)
            } else {
                (self.at(RunStage::SendingVideo), RunStep::SendVideo)
            }
        } else if self.audio_stream == Some(stream) {
            (self.at(RunStage::SendingAudio), RunStep::SendAudio)
        } else {
            self.again(cancelled, RunStep::DropAndRead)
        }
    }

    /// With a software decoder.
    pub open spec fn with_software(self, rotation: u8) -> Self {
        DecodeRun {
            mode: VideoDecodeMode::Software,
            hw_fallback_count: counted(self.hw_fallback_count),
            rotation_quarter_turns: rotation,
            fallback_done: true,
            ..self
        }
    }

    /// Where a restart begins.
    pub open spec fn restart_position(self) -> Duration {
        match self.position {
            Some(p) => p,
            None => Duration { nanos: 0 },
        }
    }

    /// Whether a reply can be one to the call at hand.
    pub open spec fn expects(self, reply: RunReply) -> bool {
        match self.stage {
            RunStage::Reading => reply is Packet || reply is EndOfFile || reply is Failed,
            RunStage::OpeningSoftware => reply is SoftwareOpened || reply is Failed,
            RunStage::Over => false,
            _ => reply is Done || reply is Failed,
        }
    }

    /// What comes next.
    pub open spec fn after(self, reply: RunReply, cancelled: bool, device_removed: bool) -> (
        Self,
        RunStep,
    ) {
        match (self.stage, reply) {
            (RunStage::Reading, RunReply::Packet(stream)) => self.routed(
                stream,
                cancelled,
                device_removed,
            ),
            (RunStage::Reading, RunReply::EndOfFile) => if cancelled {
                (self.at(RunStage::Over), RunStep::Cancel)
            } else if self.video_stream is Some {
                (self.at(RunStage::FlushingVideo), RunStep::FlushVideo)
            } else {
                self.video_drained()
            },
            (RunStage::SendingVideo, RunReply::Done(_)) => (
                self.at(RunStage::ReceivingVideo),
                RunStep::ReceiveVideo,
            ),
            (RunStage::SendingVideo, RunReply::Failed) => if self.mode
                == VideoDecodeMode::HardwareD3D11 && !self.fallback_done {
                (self.at(RunStage::OpeningSoftware), RunStep::OpenSoftware)
            } else {
                self.failed(FailCause::Call)
            },
            (RunStage::OpeningSoftware, RunReply::SoftwareOpened(rotation)) => (
                self.with_software(rotation).at(RunStage::Restarting),
                RunStep::RestartAt(self.restart_position()),
            ),
            (RunStage::OpeningSoftware, RunReply::Failed) => self.failed(FailCause::Fallback),
            (RunStage::Restarting, RunReply::Done(_)) => self.again(cancelled, RunStep::Read),
            (RunStage::ReceivingVideo, RunReply::Done(frames)) => DecodeRun {
                produced_video_frames: sum_pictures(self.produced_video_frames, frames),
                ..self
            }.again(cancelled, RunStep::Read),
            (RunStage::SendingAudio, RunReply::Done(_)) => (
                self.at(RunStage::ReceivingAudio),
                RunStep::ReceiveAudio,
            ),
            (RunStage::ReceivingAudio, RunReply::Done(_)) => self.again(cancelled, RunStep::Read),
            (RunStage::FlushingVideo, RunReply::Done(_)) => (
                self.at(RunStage::DrainingVideo),
                RunStep::ReceiveVideo,
            ),
            (RunStage::DrainingVideo, RunReply::Done(frames)) => DecodeRun {
                produced_video_frames: sum_pictures(self.produced_video_frames, frames),
                ..self
            }.video_drained(),
            (RunStage::FlushingAudio, RunReply::Done(_)) => (
                self.at(RunStage::DrainingAudio),
                RunStep::ReceiveAudio,
            ),
            (RunStage::DrainingAudio, RunReply::Done(_)) => (
                self.at(RunStage::FlushingBatch),
                RunStep::FlushBatch,
            ),
            (RunStage::FlushingBatch, RunReply::Done(_)) => self.finished(),
            _ => self.failed(FailCause::Call),
        }
    }

    /// Begins a run.
    pub fn begin(
        video_stream: Option<i32>,
        audio_stream: Option<i32>,
        mode: VideoDecodeMode,
        hw_fallback_count: u64,
        rotation_quarter_turns: u8,
        position: Option<Duration>,
        produced_video_frames: u64,
        cancelled: bool,
    ) -> (r: (Self, RunStep))
        ensures
            r == (DecodeRun {
                stage: RunStage::Reading,
                video_stream,
                audio_stream,
                mode,
                hw_fallback_count,
                rotation_quarter_turns,
                fallback_done: false,
                position,
                produced_video_frames,
            }).again(cancelled, RunStep::Read),
    {
        let run = DecodeRun {
            stage: if cancelled {
                RunStage::Over
            } else {
                RunStage::Reading
            },
            video_stream,
            audio_stream,
            mode,
            hw_fallback_count,
            rotation_quarter_turns,
            fallback_done: false,
            position,
            produced_video_frames,
        };
        (
            run,
            if cancelled {
                RunStep::Cancel
            } else {
                RunStep::Read
            },
        )
    }

    fn fail(&mut self, cause: FailCause) -> (r: RunStep)
        ensures
            (*final(self), r) == old(self).failed(cause),
    {
        self.stage = RunStage::Over;
        RunStep::Fail(cause)
    }

    fn go_on(&mut self, cancelled: bool, step: RunStep) -> (r: RunStep)
        ensures
            (*final(self), r) == old(self).again(cancelled, step),
    {
        if cancelled {
            self.stage = RunStage::Over;
            RunStep::Cancel
        } else {
            self.stage = RunStage::Reading;
            step
        }
    }

    fn finish(&mut self) -> (r: RunStep)
        ensures
            (*final(self), r) == old(self).finished(),
    {
        if self.video_stream.is_some() && self.produced_video_frames == 0 {
            return self.fail(FailCause::NoVideoFrame);
        }
        self.stage = RunStage::Over;
        RunStep::Complete
    }

    fn leave_video(&mut self) -> (r: RunStep)
        ensures
            (*final(self), r) == old(self).video_drained(),
    {
        if self.audio_stream.is_some() {
            self.stage = RunStage::FlushingAudio;
            return RunStep::FlushAudio;
        }
        self.finish()
    }

    fn route(&mut self, stream: i32, cancelled: bool, device_removed: bool) -> (r: RunStep)
        ensures
            (*final(self), r) == old(self).routed(stream, cancelled, device_removed),
    {
        let is_video = match self.video_stream {
            Some(s) => s == stream,
            None => false,
        };
        let is_audio = match self.audio_stream {
            Some(s) => s == stream,
            None => false,
        };
        if is_video {
            let hardware = match self.mode {
                VideoDecodeMode::HardwareD3D11 => true,
                VideoDecodeMode::Software => false,
            };
            if hardware && device_removed {
                return self.fail(FailCause::DeviceRemoved);
            }
            self.stage = RunStage::SendingVideo;
            return RunStep::SendVideo;
        }
        if is_audio {
            self.stage = RunStage::SendingAudio;
            return RunStep::SendAudio;
        }
        self.go_on(cancelled, RunStep::DropAndRead)
    }

    /// Takes up how the last call went; returns what to do next.
    pub fn advance(&mut self, reply: RunReply, cancelled: bool, device_removed: bool) -> (r:
        RunStep)
        requires
            old(self).expects(reply),
        ensures
            (*final(self), r) == old(self).after(reply, cancelled, device_removed),
    {
        match (self.stage, reply) {
            (RunStage::Reading, RunReply::Packet(stream)) => self.route(
                stream,
                cancelled,
                device_removed,
            ),
            (RunStage::Reading, RunReply::EndOfFile) => {
                if cancelled {
                    self.stage = RunStage::Over;
                    RunStep::Cancel
                } else if self.video_stream.is_some() {
                    self.stage = RunStage::FlushingVideo;
                    RunStep::FlushVideo
                } else {
                    self.leave_video()
                }
            },
            (RunStage::SendingVideo, RunReply::Done(_)) => {
                self.stage = RunStage::ReceivingVideo;
                RunStep::ReceiveVideo
            },
            (RunStage::SendingVideo, RunReply::Failed) => {
                let hardware = match self.mode {
                    VideoDecodeMode::HardwareD3D11 => true,
                    VideoDecodeMode::Software => false,
                };
                if hardware && !self.fallback_done {
                    self.stage = RunStage::OpeningSoftware;
                    RunStep::OpenSoftware
                } else {
                    self.fail(FailCause::Call)
                }
            },
            (RunStage::OpeningSoftware, RunReply::SoftwareOpened(rotation)) => {
                let position = match self.position {
                    Some(p) => p,
                    None => Duration::zero(),
                };
                self.mode = VideoDecodeMode::Software;
                self.hw_fallback_count = self.hw_fallback_count.saturating_add(1);
                self.rotation_quarter_turns = rotation;
                self.fallback_done = true;
                self.stage = RunStage::Restarting;
                RunStep::RestartAt(position)
            },
            (RunStage::OpeningSoftware, RunReply::Failed) => self.fail(FailCause::Fallback),
            (RunStage::Restarting, RunReply::Done(_)) => self.go_on(cancelled, RunStep::Read),
            (RunStage::ReceivingVideo, RunReply::Done(frames)) => {
                self.produced_video_frames = self.produced_video_frames.saturating_add(frames);
                self.go_on(cancelled, RunStep::Read)
            },
            (RunStage::SendingAudio, RunReply::Done(_)) => {
                self.stage = RunStage::ReceivingAudio;
                RunStep::ReceiveAudio
            },
            (RunStage::ReceivingAudio, RunReply::Done(_)) => self.go_on(cancelled, RunStep::Read),
            (RunStage::FlushingVideo, RunReply::Done(_)) => {
                self.stage = RunStage::DrainingVideo;
                RunStep::ReceiveVideo
            },
            (RunStage::DrainingVideo, RunReply::Done(frames)) => {
                self.produced_video_frames = self.produced_video_frames.saturating_add(frames);
                self.leave_video()
            },
            (RunStage::FlushingAudio, RunReply::Done(_)) => {
                self.stage = RunStage::DrainingAudio;
                RunStep::ReceiveAudio
            },
            (RunStage::DrainingAudio, RunReply::Done(_)) => {
                self.stage = RunStage::FlushingBatch;
                RunStep::FlushBatch
            },
            (RunStage::FlushingBatch, RunReply::Done(_)) => self.finish(),
            _ => self.fail(FailCause::Call),
        }
    }
}

/// A run that completes was not overtaken at its end, and a file with video has
/// given a picture.
pub proof fn completed_run_has_pictures(
    run: DecodeRun,
    reply: RunReply,
    cancelled: bool,
    device_removed: bool,
)
    requires
        run.expects(reply),
        run.after(reply, cancelled, device_removed).1 == RunStep::Complete,
    ensures
        ({
            let after = run.after(reply, cancelled, device_removed).0;
            &&& after.video_stream is Some ==> after.produced_video_frames > 0
            &&& !(run.stage == RunStage::Reading && cancelled)
        }),
{
}

/// Software decoding is fallen back to once in a run: after it, no step opens
/// another software decoder.
pub proof fn one_fallback_per_run(
    run: DecodeRun,
    reply: RunReply,
    cancelled: bool,
    device_removed: bool,
)
    requires
        run.expects(reply),
        run.fallback_done,
    ensures
        run.after(reply, cancelled, device_removed).1 != RunStep::OpenSoftware,
        run.after(reply, cancelled, device_removed).0.fallback_done,
{
}

/// Once a newer command has come, no other packet is read.
pub proof fn cancelled_run_reads_no_more(run: DecodeRun, reply: RunReply, device_removed: bool)
    requires
        run.expects(reply),
    ensures
        run.after(reply, true, device_removed).1 != RunStep::Read,
        run.after(reply, true, device_removed).1 != RunStep::DropAndRead,
{
}

/// What is to be decoded.
#[derive(Clone, Copy, Debug, PartialEq, Eq, Structural)]
pub enum WantedStreams {
    VideoOnly,
    VideoAndAudio,
    AudioOnly,
}

/// Where an open is.
#[derive(Clone, Copy, Debug, PartialEq, Eq, Structural)]
pub enum OpenStage {
    OpeningInput,
    FindingStreams,
    OpeningHardware,
    OpeningSoftware,
    ProbingColor,
    OpeningAudio,
    ReportingMode,
    ReadingDuration,
    ReportingDuration,
    Seeking,
    Allocating,
    Over,
}

/// What an open does next.
#[derive(Clone, Copy, Debug, PartialEq, Eq, Structural)]
pub enum OpenStep {
    OpenInput,
    FindStreams,
    OpenHardware,
    OpenSoftware,
    /// Ask what the screen can show.
    ProbeColor,
    OpenAudio,
    /// Report the decode mode with how often software was fallen back to.
    ReportMode { mode: VideoDecodeMode, hw_fallback_count: u64 },
    ReadDuration,
    ReportDuration(Duration),
    SeekTo(Duration),
    Allocate,
    /// The file is open.
    Complete,
    /// There is nothing to decode, or a newer command has come.
    GiveUp,
    Fail(FailCause),
}

/// How a call went.
#[derive(Clone, Copy, Debug, PartialEq, Eq, Structural)]
pub enum OpenReply {
    Done,
    /// A video decoder was opened; whether the colours are the usual ones.
    VideoOpened { standard_color: bool },
    /// How the colours can be shown.
    Path(VideoPresentationPath),
    /// Whether there is audio.
    Audio(bool),
    /// The length of the file; zero if it is not known.
    Length(Duration),
    Failed,
}

/// The opening of a file.
#[derive(Clone, Copy, Debug, PartialEq, Eq, Structural)]
pub struct DecodeOpen {
    pub stage: OpenStage,
    pub wanted: WantedStreams,
    pub preference: VideoDecodePreference,
    pub start_position: Option<Duration>,
    pub hardware_failed: bool,
    pub mode: VideoDecodeMode,
    pub has_audio: bool,
}

impl DecodeOpen {
    /// At another stage.
    pub open spec fn at(self, stage: OpenStage) -> Self {
        DecodeOpen { stage, ..self }
    }

    /// Over, because it failed.
    pub open spec fn failed(self, cause: FailCause) -> (Self, OpenStep) {
        (self.at(OpenStage::Over), OpenStep::Fail(cause))
    }

    /// Over, with nothing to decode.
    pub open spec fn given_up(self) -> (Self, OpenStep) {
        (self.at(OpenStage::Over), OpenStep::GiveUp)
    }

    /// How often software was fallen back to.
    pub open spec fn fallbacks(self) -> u64 {
        if self.hardware_failed {
            1
        } else {
            0
        }
    }

    /// On to the seek, or past it.
    pub open spec fn to_seek(self) -> (Self, OpenStep) {
        match self.start_position {
            Some(target) => (self.at(OpenStage::Seeking), OpenStep::SeekTo(target)),
            None => (self.at(OpenStage::Allocating), OpenStep::Allocate),
        }
    }

    /// On to the report of the decode mode.
    pub open spec fn to_report(self) -> (Self, OpenStep) {
        (
            self.at(OpenStage::ReportingMode),
            OpenStep::ReportMode { mode: self.mode, hw_fallback_count: self.fallbacks() },
        )
    }

    /// On to the audio decoder, if audio is wanted.
    pub open spec fn to_audio(self) -> (Self, OpenStep) {
        if self.wanted == WantedStreams::VideoOnly {
            self.to_report()
        } else {
            (self.at(OpenStage::OpeningAudio), OpenStep::OpenAudio)
        }
    }

    /// After a video decoder was opened. Only the usual colours are played.
    pub open spec fn video_opened(
        self,
        mode: VideoDecodeMode,
        standard_color: bool,
        cancelled: bool,
    ) -> (Self, OpenStep) {
        let o = DecodeOpen { mode, ..self };
        if cancelled {
            o.given_up()
        } else if standard_color {
            o.to_audio()
        } else {
            (o.at(OpenStage::ProbingColor), OpenStep::ProbeColor)
        }
    }

    /// Whether a reply can be one to the call at hand.
    pub open spec fn expects(self, reply: OpenReply) -> bool {
        match self.stage {
            OpenStage::OpeningHardware => reply is VideoOpened || reply is Failed,
            OpenStage::OpeningSoftware => reply is VideoOpened || reply is Failed,
            OpenStage::ProbingColor => reply is Path || reply is Failed,
            OpenStage::OpeningAudio => reply is Audio || reply is Failed,
            OpenStage::ReadingDuration => reply is Length,
            OpenStage::Over => false,
            _ => reply is Done || reply is Failed,
        }
    }

    /// What comes next.
    pub open spec fn after(self, reply: OpenReply, cancelled: bool) -> (Self, OpenStep) {
        match (self.stage, reply) {
            (OpenStage::OpeningInput, OpenReply::Done) => (
                self.at(OpenStage::FindingStreams),
                OpenStep::FindStreams,
            ),
            (OpenStage::FindingStreams, OpenReply::Done) => if cancelled {
                self.given_up()
            } else if self.wanted == WantedStreams::AudioOnly {
                (self.at(OpenStage::OpeningAudio), OpenStep::OpenAudio)
            } else if self.preference == VideoDecodePreference::ForceSoftware {
                (self.at(OpenStage::OpeningSoftware), OpenStep::OpenSoftware)
            } else {
                (self.at(OpenStage::OpeningHardware), OpenStep::OpenHardware)
            },
            (OpenStage::OpeningHardware, OpenReply::VideoOpened { standard_color }) =>
                self.video_opened(VideoDecodeMode::HardwareD3D11, standard_color, cancelled),
            (OpenStage::OpeningHardware, OpenReply::Failed) => (
                DecodeOpen { hardware_failed: true, ..self }.at(OpenStage::OpeningSoftware),
                OpenStep::OpenSoftware,
            ),
            (OpenStage::OpeningSoftware, OpenReply::VideoOpened { standard_color }) =>
                self.video_opened(VideoDecodeMode::Software, standard_color, cancelled),
            (OpenStage::OpeningSoftware, OpenReply::Failed) => if self.hardware_failed {
                self.failed(FailCause::Fallback)
            } else {
                self.failed(FailCause::Call)
            },
            (OpenStage::ProbingColor, OpenReply::Path(path)) => match path {
                VideoPresentationPath::ExistingSdr => self.to_audio(),
                VideoPresentationPath::Hdr10Passthrough => self.failed(
                    FailCause::ColorSpaceUnverified,
                ),
                VideoPresentationPath::HdrToSdrToneMapRequired => self.failed(
                    FailCause::ToneMappingNotImplemented,
                ),
                VideoPresentationPath::UnsupportedHdr => self.failed(FailCause::UnsupportedHdr),
            },
            (OpenStage::OpeningAudio, OpenReply::Audio(has_audio)) => {
                let o = DecodeOpen { has_audio, ..self };
                if self.wanted != WantedStreams::AudioOnly {
                    o.to_report()
                } else if has_audio {
                    o.to_seek()
                } else {
                    o.given_up()
                }
            },
            (OpenStage::ReportingMode, OpenReply::Done) => (
                self.at(OpenStage::ReadingDuration),
                OpenStep::ReadDuration,
            ),
            (OpenStage::ReadingDuration, OpenReply::Length(length)) => if length@ == 0 {
                self.to_seek()
            } else {
                (self.at(OpenStage::ReportingDuration), OpenStep::ReportDuration(length))
            },
            (OpenStage::ReportingDuration, OpenReply::Done) => self.to_seek(),
            (OpenStage::Seeking, OpenReply::Done) => (
                self.at(OpenStage::Allocating),
                OpenStep::Allocate,
            ),
            (OpenStage::Allocating, OpenReply::Done) => (
                self.at(OpenStage::Over),
                OpenStep::Complete,
            ),
            _ => self.failed(FailCause::Call),
        }
    }

    /// Begins to open a file.
    pub fn begin(
        wanted: WantedStreams,
        preference: VideoDecodePreference,
        start_position: Option<Duration>,
    ) -> (r: (Self, OpenStep))
        ensures
            r.0 == (DecodeOpen {
                stage: OpenStage::OpeningInput,
                wanted,
                preference,
                start_position,
                hardware_failed: false,
                mode: VideoDecodeMode::Software,
                has_audio: false,
            }),
            r.1 == OpenStep::OpenInput,
    {
        (
            DecodeOpen {
                stage: OpenStage::OpeningInput,
                wanted,
                preference,
                start_position,
                hardware_failed: false,
                mode: VideoDecodeMode::Software,
                has_audio: false,
            },
            OpenStep::OpenInput,
        )
    }

    fn fail(&mut self, cause: FailCause) -> (r: OpenStep)
        ensures
            (*final(self), r) == old(self).failed(cause),
    {
        self.stage = OpenStage::Over;
        OpenStep::Fail(cause)
    }

    fn give_up(&mut self) -> (r: OpenStep)
        ensures
            (*final(self), r) == old(self).given_up(),
    {
        self.stage = OpenStage::Over;
        OpenStep::GiveUp
    }

    fn go_to_seek(&mut self) -> (r: OpenStep)
        ensures
            (*final(self), r) == old(self).to_seek(),
    {
        match self.start_position {
            Some(target) => {
                self.stage = OpenStage::Seeking;
                OpenStep::SeekTo(target)
            },
            None => {
                self.stage = OpenStage::Allocating;
                OpenStep::Allocate
            },
        }
    }

    fn go_to_report(&mut self) -> (r: OpenStep)
        ensures
            (*final(self), r) == old(self).to_report(),
    {
        self.stage = OpenStage::ReportingMode;
        let hw_fallback_count: u64 = if self.hardware_failed {
            1
        } else {
            0
        };
        OpenStep::ReportMode { mode: self.mode, hw_fallback_count }
    }

    fn go_to_audio(&mut self) -> (r: OpenStep)
        ensures
            (*final(self), r) == old(self).to_audio(),
    {
        match self.wanted {
            WantedStreams::VideoOnly => self.go_to_report(),
            _ => {
                self.stage = OpenStage::OpeningAudio;
                OpenStep::OpenAudio
            },
        }
    }

    fn take_video(&mut self, mode: VideoDecodeMode, standard_color: bool, cancelled: bool) -> (r:
        OpenStep)
        ensures
            (*final(self), r) == old(self).video_opened(mode, standard_color, cancelled),
    {
        self.mode = mode;
        if cancelled {
            return self.give_up();
        }
        if standard_color {
            return self.go_to_audio();
        }
        self.stage = OpenStage::ProbingColor;
        OpenStep::ProbeColor
    }

    /// Takes up how the last call went; returns what to do next.
    pub fn advance(&mut self, reply: OpenReply, cancelled: bool) -> (r: OpenStep)
        requires
            old(self).expects(reply),
        ensures
            (*final(self), r) == old(self).after(reply, cancelled),
    {
        match (self.stage, reply) {
            (OpenStage::OpeningInput, OpenReply::Done) => {
                self.stage = OpenStage::FindingStreams;
                OpenStep::FindStreams
            },
            (OpenStage::FindingStreams, OpenReply::Done) => {
                if cancelled {
                    return self.give_up();
                }
                match (self.wanted, self.preference) {
                    (WantedStreams::AudioOnly, _) => {
                        self.stage = OpenStage::OpeningAudio;
                        OpenStep::OpenAudio
                    },
                    (_, VideoDecodePreference::ForceSoftware) => {
                        self.stage = OpenStage::OpeningSoftware;
                        OpenStep::OpenSoftware
                    },
                    (_, VideoDecodePreference::Auto) => {
                        self.stage = OpenStage::OpeningHardware;
                        OpenStep::OpenHardware
                    },
                }
            },
            (OpenStage::OpeningHardware, OpenReply::VideoOpened { standard_color }) =>
                self.take_video(VideoDecodeMode::HardwareD3D11, standard_color, cancelled),
            (OpenStage::OpeningHardware, OpenReply::Failed) => {
                self.hardware_failed = true;
                self.stage = OpenStage::OpeningSoftware;
                OpenStep::OpenSoftware
            },
            (OpenStage::OpeningSoftware, OpenReply::VideoOpened { standard_color }) =>
                self.take_video(VideoDecodeMode::Software, standard_color, cancelled),
            (OpenStage::OpeningSoftware, OpenReply::Failed) => {
                if self.hardware_failed {
                    self.fail(FailCause::Fallback)
                } else {
                    self.fail(FailCause::Call)
                }
            },
            (OpenStage::ProbingColor, OpenReply::Path(path)) => match path {
                VideoPresentationPath::ExistingSdr => self.go_to_audio(),
                VideoPresentationPath::Hdr10Passthrough => self.fail(
                    FailCause::ColorSpaceUnverified,
                ),
                VideoPresentationPath::HdrToSdrToneMapRequired => self.fail(
                    FailCause::ToneMappingNotImplemented,
                ),
                VideoPresentationPath::UnsupportedHdr => self.fail(FailCause::UnsupportedHdr),
            },
            (OpenStage::OpeningAudio, OpenReply::Audio(has_audio)) => {
                self.has_audio = has_audio;
                match self.wanted {
                    WantedStreams::AudioOnly => if has_audio {
                        self.go_to_seek()
                    } else {
                        self.give_up()
                    },
                    _ => self.go_to_report(),
                }
            },
            (OpenStage::ReportingMode, OpenReply::Done) => {
                self.stage = OpenStage::ReadingDuration;
                OpenStep::ReadDuration
            },
            (OpenStage::ReadingDuration, OpenReply::Length(length)) => {
                if length.is_zero() {
                    return self.go_to_seek();
                }
                self.stage = OpenStage::ReportingDuration;
                OpenStep::ReportDuration(length)
            },
            (OpenStage::ReportingDuration, OpenReply::Done) => self.go_to_seek(),
            (OpenStage::Seeking, OpenReply::Done) => {
                self.stage = OpenStage::Allocating;
                OpenStep::Allocate
            },
            (OpenStage::Allocating, OpenReply::Done) => {
                self.stage = OpenStage::Over;
                OpenStep::Complete
            },
            _ => self.fail(FailCause::Call),
        }
    }
}

/// No hardware decoder is opened once a newer command has come.
pub proof fn cancelled_open_takes_no_decoder(o: DecodeOpen, reply: OpenReply)
    requires
        o.expects(reply),
        o.stage == OpenStage::FindingStreams,
    ensures
        o.after(reply, true).1 != OpenStep::OpenHardware,
        o.after(reply, true).1 != OpenStep::OpenSoftware,
{
}

/// Where software is asked for, hardware is not tried.
pub proof fn forced_software_tries_no_hardware(o: DecodeOpen, reply: OpenReply, cancelled: bool)
    requires
        o.expects(reply),
        o.preference == VideoDecodePreference::ForceSoftware,
    ensures
        o.after(reply, cancelled).1 != OpenStep::OpenHardware,
{
}

/// A packet goes to the decoder of its stream, and any other is let go. With the
/// graphics device gone, hardware decoding fails.
pub proof fn packet_goes_to_its_decoder(run: DecodeRun, stream: i32, device_removed: bool)
    requires
        run.stage == RunStage::Reading,
        run.video_stream is Some ==> run.video_stream != run.audio_stream,
    ensures
        ({
            let step = run.after(RunReply::Packet(stream), false, device_removed).1;
            let gone = run.mode == VideoDecodeMode::HardwareD3D11 && device_removed;
            &&& (run.video_stream == Some(stream) && !gone ==> step == RunStep::SendVideo)
            &&& (run.video_stream == Some(stream) && gone ==> step == RunStep::Fail(
                FailCause::DeviceRemoved,
            ))
            &&& (run.audio_stream == Some(stream) ==> step == RunStep::SendAudio)
            &&& (run.video_stream != Some(stream) && run.audio_stream != Some(stream) ==> step
                == RunStep::DropAndRead)
        }),
{
}

/// What was sent to a decoder is taken out of it before the next packet is read.
pub proof fn decoder_is_emptied_before_reading_on(
    run: DecodeRun,
    frames: u64,
    device_removed: bool,
)
    ensures
        run.stage == RunStage::SendingVideo ==> run.after(
            RunReply::Done(frames),
            false,
            device_removed,
        ).1 == RunStep::ReceiveVideo,
        run.stage == RunStage::SendingAudio ==> run.after(
            RunReply::Done(frames),
            false,
            device_removed,
        ).1 == RunStep::ReceiveAudio,
        run.stage == RunStage::ReceivingVideo || run.stage == RunStage::ReceivingAudio
            ==> run.after(RunReply::Done(frames), false, device_removed).1 == RunStep::Read,
        run.stage == RunStage::ReceivingVideo && run.produced_video_frames + frames <= u64::MAX
            ==> run.after(
            RunReply::Done(frames),
            false,
            device_removed,
        ).0.produced_video_frames == run.produced_video_frames + frames,
{
}

/// At the end of the file the pictures that a decoder still holds come out, then the
/// sound, then what was gathered of it; only then is the run complete.
pub proof fn end_of_file_empties_every_decoder(
    run: DecodeRun,
    frames: u64,
    device_removed: bool,
)
    ensures
        run.stage == RunStage::Reading ==> run.after(
            RunReply::EndOfFile,
            false,
            device_removed,
        ).1 == (if run.video_stream is Some {
            RunStep::FlushVideo
        } else if run.audio_stream is Some {
            RunStep::FlushAudio
        } else {
            RunStep::Complete
        }),
        run.stage == RunStage::FlushingVideo ==> run.after(
            RunReply::Done(frames),
            false,
            device_removed,
        ).1 == RunStep::ReceiveVideo,
        run.stage == RunStage::DrainingVideo && run.audio_stream is Some ==> run.after(
            RunReply::Done(frames),
            false,
            device_removed,
        ).1 == RunStep::FlushAudio,
        run.stage == RunStage::DrainingVideo && run.audio_stream is None && (
        run.produced_video_frames > 0 || frames > 0) ==> run.after(
            RunReply::Done(frames),
            false,
            device_removed,
        ).1 == RunStep::Complete,
        run.stage == RunStage::FlushingAudio ==> run.after(
            RunReply::Done(frames),
            false,
            device_removed,
        ).1 == RunStep::ReceiveAudio,
        run.stage == RunStage::DrainingAudio ==> run.after(
            RunReply::Done(frames),
            false,
            device_removed,
        ).1 == RunStep::FlushBatch,
        run.stage == RunStage::FlushingBatch ==> run.after(
            RunReply::Done(frames),
            false,
            device_removed,
        ).1 == (if run.video_stream is Some && run.produced_video_frames == 0 {
            RunStep::Fail(FailCause::NoVideoFrame)
        } else {
            RunStep::Complete
        }),
{
}

/// Hardware that does not take a packet is given up for software, once: decoding
/// starts again from where the run began, and the fallback is counted.
pub proof fn failing_hardware_is_replaced_by_software(
    run: DecodeRun,
    rotation: u8,
    cancelled: bool,
    device_removed: bool,
)
    requires
        run.hw_fallback_count < u64::MAX,
    ensures
        run.stage == RunStage::SendingVideo ==> run.after(
            RunReply::Failed,
            cancelled,
            device_removed,
        ).1 == (if run.mode == VideoDecodeMode::HardwareD3D11 && !run.fallback_done {
            RunStep::OpenSoftware
        } else {
            RunStep::Fail(FailCause::Call)
        }),
        run.stage == RunStage::OpeningSoftware ==> ({
            let (next, step) = run.after(
                RunReply::SoftwareOpened(rotation),
                cancelled,
                device_removed,
            );
            &&& step == RunStep::RestartAt(
                match run.position {
                    Some(p) => p,
                    None => Duration { nanos: 0 },
                },
            )
            &&& next.mode == VideoDecodeMode::Software
            &&& next.fallback_done
            &&& next.hw_fallback_count == run.hw_fallback_count + 1
            &&& next.rotation_quarter_turns == rotation
            &&& next.video_stream == run.video_stream
            &&& next.audio_stream == run.audio_stream
            &&& next.produced_video_frames == run.produced_video_frames
        }),
        run.stage == RunStage::OpeningSoftware ==> run.after(
            RunReply::Failed,
            cancelled,
            device_removed,
        ).1 == RunStep::Fail(FailCause::Fallback),
{
}

/// A file is opened with the graphics device unless software is forced; where that
/// does not work software is tried, and that is counted. Sound alone needs neither.
pub proof fn hardware_is_tried_before_software(o: DecodeOpen, standard_color: bool)
    ensures
        o.stage == OpenStage::FindingStreams ==> o.after(OpenReply::Done, false).1 == (if o.wanted
            == WantedStreams::AudioOnly {
            OpenStep::OpenAudio
        } else if o.preference == VideoDecodePreference::ForceSoftware {
            OpenStep::OpenSoftware
        } else {
            OpenStep::OpenHardware
        }),
        o.stage == OpenStage::OpeningHardware ==> o.after(OpenReply::Failed, false).1
            == OpenStep::OpenSoftware && o.after(OpenReply::Failed, false).0.hardware_failed,
        o.stage == OpenStage::OpeningHardware ==> o.after(
            OpenReply::VideoOpened { standard_color },
            false,
        ).0.mode == VideoDecodeMode::HardwareD3D11,
        o.stage == OpenStage::OpeningSoftware ==> o.after(
            OpenReply::VideoOpened { standard_color },
            false,
        ).0.mode == VideoDecodeMode::Software,
        o.stage == OpenStage::OpeningSoftware ==> o.after(OpenReply::Failed, false).1
            == OpenStep::Fail(
            if o.hardware_failed {
                FailCause::Fallback
            } else {
                FailCause::Call
            },
        ),
        o.stage == OpenStage::OpeningAudio && o.wanted != WantedStreams::AudioOnly ==> o.after(
            OpenReply::Audio(true),
            false,
        ).1 == (OpenStep::ReportMode {
            mode: o.mode,
            hw_fallback_count: if o.hardware_failed {
                1
            } else {
                0
            },
        }),
{
}

/// A file whose colours are not the usual ones is played only where the screen shows
/// them as usual ones.
pub proof fn unusual_colours_are_not_played(
    o: DecodeOpen,
    path: VideoPresentationPath,
    cancelled: bool,
)
    ensures
        o.stage == OpenStage::OpeningHardware || o.stage == OpenStage::OpeningSoftware ==> o.after(
            OpenReply::VideoOpened { standard_color: false },
            false,
        ).1 == OpenStep::ProbeColor,
        o.stage == OpenStage::ProbingColor ==> (o.after(OpenReply::Path(path), cancelled).1
            is Fail <==> path != VideoPresentationPath::ExistingSdr),
        o.stage == OpenStage::ProbingColor && o.wanted == WantedStreams::VideoAndAudio ==> o.after(
            OpenReply::Path(VideoPresentationPath::ExistingSdr),
            cancelled,
        ).1 == OpenStep::OpenAudio,
{
}

/// A known length is reported, and an open that was given a start goes there before it
/// is complete.
pub proof fn open_goes_to_its_start(o: DecodeOpen, length: Duration, cancelled: bool)
    ensures
        ({
            let onward = match o.start_position {
                Some(target) => OpenStep::SeekTo(target),
                None => OpenStep::Allocate,
            };
            &&& (o.stage == OpenStage::ReportingMode ==> o.after(OpenReply::Done, cancelled).1
                == OpenStep::ReadDuration)
            &&& (o.stage == OpenStage::ReadingDuration && length@ > 0 ==> o.after(
                OpenReply::Length(length),
                cancelled,
            ).1 == OpenStep::ReportDuration(length))
            &&& (o.stage == OpenStage::ReadingDuration && length@ == 0 ==> o.after(
                OpenReply::Length(length),
                cancelled,
            ).1 == onward)
            &&& (o.stage == OpenStage::ReportingDuration ==> o.after(
                OpenReply::Done,
                cancelled,
            ).1 == onward)
            &&& (o.stage == OpenStage::Seeking ==> o.after(OpenReply::Done, cancelled).1
                == OpenStep::Allocate)
            &&& (o.stage == OpenStage::Allocating ==> o.after(OpenReply::Done, cancelled).1
                == OpenStep::Complete)
            &&& (o.stage == OpenStage::OpeningAudio && o.wanted == WantedStreams::AudioOnly
                ==> o.after(OpenReply::Audio(true), cancelled).1 == onward)
            &&& (o.stage == OpenStage::OpeningAudio && o.wanted == WantedStreams::AudioOnly
                ==> o.after(OpenReply::Audio(false), cancelled).1 == OpenStep::GiveUp)
        }),
{
}

/// The decoders that are opened are those of the streams that are wanted: with audio
/// alone no video decoder is opened and a file without audio is given up, and with
/// video alone no audio decoder is.
pub proof fn wanted_streams_are_opened(o: DecodeOpen, has_audio: bool)
    ensures
        ({
            let found = o.at(OpenStage::FindingStreams);
            let asked = o.at(OpenStage::OpeningAudio);
            let audio_only = o.wanted == WantedStreams::AudioOnly;
            let report = OpenStep::ReportMode {
                mode: o.mode,
                hw_fallback_count: if o.hardware_failed {
                    1
                } else {
                    0
                },
            };
            &&& (audio_only ==> found.after(OpenReply::Done, false).1 == OpenStep::OpenAudio)
            &&& (!audio_only ==> found.after(OpenReply::Done, false).1 != OpenStep::OpenAudio)
            &&& (audio_only ==> asked.after(OpenReply::Audio(false), false).1 == OpenStep::GiveUp)
            &&& (audio_only && o.start_position is None ==> asked.after(
                OpenReply::Audio(true),
                false,
            ).1 == OpenStep::Allocate)
            &&& (audio_only ==> (o.start_position matches Some(t) ==> asked.after(
                OpenReply::Audio(true),
                false,
            ).1 == OpenStep::SeekTo(t)))
            &&& (!audio_only ==> asked.after(OpenReply::Audio(has_audio), false).1 == report)
            &&& (!audio_only ==> asked.after(OpenReply::Audio(has_audio), false).0.has_audio
                == has_audio)
        }),
{
}

/// A video decoder that was opened for the usual colours is followed by the audio
/// decoder, or by the report where video alone is wanted; a software decoder that
/// fails says whether hardware had failed before it.
pub proof fn opened_video_is_followed_by_audio(o: DecodeOpen)
    ensures
        ({
            let hw = o.at(OpenStage::OpeningHardware);
            let sw = o.at(OpenStage::OpeningSoftware);
            let opened = OpenReply::VideoOpened { standard_color: true };
            &&& hw.after(opened, false).0.mode == VideoDecodeMode::HardwareD3D11
            &&& sw.after(opened, false).0.mode == VideoDecodeMode::Software
            &&& (o.wanted != WantedStreams::VideoOnly ==> sw.after(opened, false).1
                == OpenStep::OpenAudio && hw.after(opened, false).1 == OpenStep::OpenAudio)
            &&& (o.wanted == WantedStreams::VideoOnly ==> sw.after(opened, false).1 is ReportMode
                && hw.after(opened, false).1 is ReportMode)
            &&& (o.hardware_failed ==> sw.after(OpenReply::Failed, false).1 == OpenStep::Fail(
                FailCause::Fallback,
            ))
            &&& (!o.hardware_failed ==> sw.after(OpenReply::Failed, false).1 == OpenStep::Fail(
                FailCause::Call,
            ))
        }),
{
}

/// Pictures that were received add to those before, and a file with video that gave
/// none has failed.
pub proof fn received_pictures_are_counted(run: DecodeRun, frames: u64)
    requires
        run.produced_video_frames + frames <= u64::MAX,
    ensures
        ({
            let s = run.at(RunStage::ReceivingVideo).after(RunReply::Done(frames), false, false);
            let d = run.at(RunStage::DrainingVideo).after(RunReply::Done(frames), false, false);
            let total = run.produced_video_frames + frames;
            &&& s.0.produced_video_frames == total
            &&& s.1 == RunStep::Read
            &&& d.0.produced_video_frames == total
            &&& (run.audio_stream is Some ==> d.1 == RunStep::FlushAudio)
            &&& (run.audio_stream is None && run.video_stream is Some && total == 0 ==> d.1
                == RunStep::Fail(FailCause::NoVideoFrame))
            &&& (run.audio_stream is None && total > 0 ==> d.1 == RunStep::Complete)
        }),
{
}

} // verus!
