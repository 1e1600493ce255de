//! What decode workers and devices report to a session.
use vstd::prelude::*;
use crate::generations::{OpenGeneration, OperationId, SeekGeneration};
use crate::media::{DecodedAudioFrame, VideoDecodeMode};
use crate::time::Duration;

verus! {

/// How decoded video reaches the screen.
#[derive(Clone, Copy, Debug, PartialEq, Eq, Structural)]
pub enum VideoPresentationPath {
    ExistingSdr,
    Hdr10Passthrough,
    HdrToSdrToneMapRequired,
    UnsupportedHdr,
}

/// A decoded picture as the worker hands it over; `surface` finds its pixels.
#[derive(Clone, Copy, Debug, PartialEq, Eq, Structural)]
pub struct PendingVideoFrame {
    pub open_gen: OpenGeneration,
    pub seek_gen: SeekGeneration,
    pub op_id: OperationId,
    pub pts: Duration,
    pub surface: u64,
    pub display_width: u32,
    pub display_height: u32,
}

impl PendingVideoFrame {
    pub fn open_gen(&self) -> (r: OpenGeneration)
        ensures
            r == self.open_gen,
    {
        self.open_gen
    }

    pub fn seek_gen(&self) -> (r: SeekGeneration)
        ensures
            r == self.seek_gen,
    {
        self.seek_gen
    }

    pub fn op_id(&self) -> (r: OperationId)
        ensures
            r == self.op_id,
    {
        self.op_id
    }

    pub fn pts(&self) -> (r: Duration)
        ensures
            r == self.pts,
    {
        self.pts
    }
}

/// A report to the session.
#[derive(Clone, Debug, PartialEq, Eq)]
pub enum SessionEvent {
    DecodeModeSelected {
        open_gen: OpenGeneration,
        seek_gen: SeekGeneration,
        op_id: OperationId,
        mode: VideoDecodeMode,
        hw_fallback_count: u64,
        /// Clockwise quarter turns that the stream asks for.
        rotation_quarter_turns: u8,
    },
    MediaDurationKnown {
        open_gen: OpenGeneration,
        seek_gen: SeekGeneration,
        op_id: OperationId,
        duration: Duration,
    },
    /// The presentation path of this open, reported before any of its frames.
    PresentationPathSelected {
        open_gen: OpenGeneration,
        seek_gen: SeekGeneration,
        op_id: OperationId,
        path: VideoPresentationPath,
    },
    /// Which static HDR metadata blocks the first frame carried. Advisory: it
    /// never holds playback up.
    HdrMetadataKnown {
        open_gen: OpenGeneration,
        seek_gen: SeekGeneration,
        op_id: OperationId,
        mastering: bool,
        content_light: bool,
    },
    VideoFrameReady(PendingVideoFrame),
    AudioFrameReady(DecodedAudioFrame),
    VideoStreamEnded { open_gen: OpenGeneration, seek_gen: SeekGeneration, op_id: OperationId },
    /// The file has no video: no frame will arrive, and audio alone decides
    /// when playback ends.
    NoVideoStream { open_gen: OpenGeneration, op_id: OperationId },
    AudioStreamEnded { open_gen: OpenGeneration, seek_gen: SeekGeneration, op_id: OperationId },
    OpenFailed { open_gen: OpenGeneration, op_id: OperationId, error: String },
    PlaybackFailed {
        open_gen: OpenGeneration,
        seek_gen: SeekGeneration,
        op_id: OperationId,
        error: String,
    },
    DeviceLost { open_gen: OpenGeneration, seek_gen: SeekGeneration, op_id: OperationId },
    AudioEndpointChanged { open_gen: OpenGeneration, seek_gen: SeekGeneration, op_id: OperationId },
}

impl SessionEvent {
    /// The open generation that the event belongs to.
    pub open spec fn open_stamp(self) -> OpenGeneration {
        match self {
            SessionEvent::DecodeModeSelected { open_gen, .. } => open_gen,
            SessionEvent::MediaDurationKnown { open_gen, .. } => open_gen,
            SessionEvent::PresentationPathSelected { open_gen, .. } => open_gen,
            SessionEvent::HdrMetadataKnown { open_gen, .. } => open_gen,
            SessionEvent::VideoFrameReady(f) => f.open_gen,
            SessionEvent::AudioFrameReady(f) => f.open_gen,
            SessionEvent::VideoStreamEnded { open_gen, .. } => open_gen,
            SessionEvent::NoVideoStream { open_gen, .. } => open_gen,
            SessionEvent::AudioStreamEnded { open_gen, .. } => open_gen,
            SessionEvent::OpenFailed { open_gen, .. } => open_gen,
            SessionEvent::PlaybackFailed { open_gen, .. } => open_gen,
            SessionEvent::DeviceLost { open_gen, .. } => open_gen,
            SessionEvent::AudioEndpointChanged { open_gen, .. } => open_gen,
        }
    }

    /// The seek generation that the event belongs to; reports on the open
    /// itself have none.
    pub open spec fn seek_stamp(self) -> Option<SeekGeneration> {
        match self {
            SessionEvent::DecodeModeSelected { seek_gen, .. } => Some(seek_gen),
            SessionEvent::MediaDurationKnown { seek_gen, .. } => Some(seek_gen),
            SessionEvent::PresentationPathSelected { seek_gen, .. } => Some(seek_gen),
            SessionEvent::HdrMetadataKnown { seek_gen, .. } => Some(seek_gen),
            SessionEvent::VideoFrameReady(f) => Some(f.seek_gen),
            SessionEvent::AudioFrameReady(f) => Some(f.seek_gen),
            SessionEvent::VideoStreamEnded { seek_gen, .. } => Some(seek_gen),
            SessionEvent::NoVideoStream { .. } => None,
            SessionEvent::AudioStreamEnded { seek_gen, .. } => Some(seek_gen),
            SessionEvent::OpenFailed { .. } => None,
            SessionEvent::PlaybackFailed { seek_gen, .. } => Some(seek_gen),
            SessionEvent::DeviceLost { seek_gen, .. } => Some(seek_gen),
            SessionEvent::AudioEndpointChanged { seek_gen, .. } => Some(seek_gen),
        }
    }

    /// The operation that the event belongs to.
    pub open spec fn operation(self) -> OperationId {
        match self {
            SessionEvent::DecodeModeSelected { op_id, .. } => op_id,
            SessionEvent::MediaDurationKnown { op_id, .. } => op_id,
            SessionEvent::PresentationPathSelected { op_id, .. } => op_id,
            SessionEvent::HdrMetadataKnown { op_id, .. } => op_id,
            SessionEvent::VideoFrameReady(f) => f.op_id,
            SessionEvent::AudioFrameReady(f) => f.op_id,
            SessionEvent::VideoStreamEnded { op_id, .. } => op_id,
            SessionEvent::NoVideoStream { op_id, .. } => op_id,
            SessionEvent::AudioStreamEnded { op_id, .. } => op_id,
            SessionEvent::OpenFailed { op_id, .. } => op_id,
            SessionEvent::PlaybackFailed { op_id, .. } => op_id,
            SessionEvent::DeviceLost { op_id, .. } => op_id,
            SessionEvent::AudioEndpointChanged { op_id, .. } => op_id,
        }
    }
}

} // verus!
