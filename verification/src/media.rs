//! Plain values that describe media: positions, decode modes and frames.
use vstd::prelude::*;
use crate::generations::{OpenGeneration, OperationId, SeekGeneration};
use crate::time::Duration;

verus! {

/// Where a seek should land.
#[derive(Clone, Copy, Debug, PartialEq, Eq, Structural)]
pub struct SeekTarget {
    pub position: Duration,
}

impl SeekTarget {
    pub fn new(position: Duration) -> (r: Self)
        ensures
            r.position == position,
    {
        SeekTarget { position }
    }

    pub fn position(self) -> (r: Duration)
        ensures
            r == self.position,
    {
        self.position
    }
}

/// What a reported position rests on.
#[derive(Clone, Copy, Debug, PartialEq, Eq, Structural)]
pub enum PositionKind {
    PendingSeekTarget,
    SettledPlaybackClock,
}

/// The position to show at one moment.
#[derive(Clone, Copy, Debug, PartialEq, Eq, Structural)]
pub struct PlaybackSnapshot {
    pub position: Duration,
    pub kind: PositionKind,
}

/// How video is being decoded.
#[derive(Clone, Copy, Debug, PartialEq, Eq, Structural)]
pub enum VideoDecodeMode {
    HardwareD3D11,
    Software,
}

/// How video should be decoded.
#[derive(Clone, Copy, Debug, PartialEq, Eq, Structural)]
pub enum VideoDecodePreference {
    Auto,
    ForceSoftware,
}

/// The layout of interleaved audio samples.
#[derive(Clone, Copy, Debug, PartialEq, Eq, Structural)]
pub struct AudioStreamFormat {
    pub sample_rate: u32,
    pub channels: u16,
    pub bytes_per_sample: u16,
    pub channel_mask: u64,
}

impl AudioStreamFormat {
    /// Front left and right in 32-bit floating-point samples at 48 kHz.
    pub fn stereo_f32_48khz() -> (r: Self)
        ensures
            r == (AudioStreamFormat {
                sample_rate: 48_000,
                channels: 2,
                bytes_per_sample: 4,
                channel_mask: 3,
            }),
    {
        AudioStreamFormat { sample_rate: 48_000, channels: 2, bytes_per_sample: 4, channel_mask: 3 }
    }

    /// Bytes of one sample of every channel.
    pub open spec fn frame_bytes(self) -> int {
        self.channels * self.bytes_per_sample
    }

    /// Bytes of one sample of every channel.
    pub fn bytes_per_frame(&self) -> (r: u32)
        ensures
            r == self.frame_bytes(),
    {
        assert(self.channels * self.bytes_per_sample <= 0xffff * 0xffff) by (nonlinear_arith)
            requires
                self.channels <= 0xffff,
                self.bytes_per_sample <= 0xffff,
        ;
        self.channels as u32 * self.bytes_per_sample as u32
    }
}

/// A decoded picture that waits to be shown; `surface` finds its pixels.
#[derive(Clone, Copy, Debug, PartialEq, Eq, Structural)]
pub struct DecodedVideoFrame {
    pub open_gen: OpenGeneration,
    pub seek_gen: SeekGeneration,
    pub pts: Duration,
    pub surface: u64,
}

/// A decoded stretch of audio that waits to be played; `buffer` finds its samples.
#[derive(Clone, Copy, Debug, PartialEq, Eq, Structural)]
pub struct DecodedAudioFrame {
    pub open_gen: OpenGeneration,
    pub seek_gen: SeekGeneration,
    pub op_id: OperationId,
    pub pts: Duration,
    pub format: AudioStreamFormat,
    pub frame_count: u32,
    pub buffer: u64,
}

} // verus!
