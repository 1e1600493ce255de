//! The mathematical model of a playback session: its state as plain values and
//! sequences, and each transition as a function from state to state.
use vstd::prelude::*;
use crate::audio_controller::{submitted_after, AudioController};
use crate::clip_range::ClipRangeState;
use crate::clock::{PlaybackClock, PlaybackRate};
use crate::commands::SessionCommand;
use crate::decode_thread::DecodeThreadHandle;
use crate::drop_stats::{counted, VideoDropBuckets, VideoDropCause};
use crate::events::{PendingVideoFrame, SessionEvent, VideoPresentationPath};
use crate::generations::{next_count, GenerationState, OpenGeneration, OperationClock, OperationId, SeekGeneration};
use crate::media::{
    DecodedAudioFrame, DecodedVideoFrame, PlaybackSnapshot, PositionKind, SeekTarget,
    VideoDecodeMode, VideoDecodePreference,
};
use crate::overlay::{OverlayManager, Size};
use crate::state::PlaybackState;
use crate::time::{clamp_nanos, Duration, Instant};
use crate::video_queue::{in_pts_order, insert_position};
use crate::viewport::ViewportState;

verus! {

/// A frame that is later than this is dropped if another one waits.
pub const VERY_LATE_VIDEO_NANOS: u128 = 400_000_000;

/// A longer gap between two frames is not taken for the frame interval.
pub const MAX_OBSERVED_FRAME_INTERVAL_NANOS: u128 = 250_000_000;

/// The frame interval that is assumed while none was observed.
pub const DEFAULT_FRAME_STEP_NANOS: u128 = 33_333_333;

/// How long the volume is shown.
pub const VOLUME_OVERLAY_NANOS: u128 = 900_000_000;

/// How long the replay indicator is shown.
pub const REPLAY_INDICATOR_NANOS: u128 = 1_500_000_000;

/// What a session asks the program around it to do, in order.
#[derive(Clone, Copy, Debug, PartialEq, Eq, Structural)]
pub enum SessionAction {
    /// Tell this decode worker to shut down, and wait for it to leave if asked.
    StopDecoder { control: Option<u64>, wait: bool },
    /// Start a decode worker.
    SpawnDecoder {
        start: Option<Duration>,
        open_gen: OpenGeneration,
        seek_gen: SeekGeneration,
        op_id: OperationId,
        preference: VideoDecodePreference,
    },
    /// Hand a seek to the running decode worker.
    SeekDecoder { control: u64, target: Duration, seek_gen: SeekGeneration, op_id: OperationId },
    /// Keep the pixels of an accepted frame.
    RegisterSurface { surface: u64, open_gen: OpenGeneration, seek_gen: SeekGeneration },
    /// Free the pixels of a frame.
    ReleaseSurface(u64),
    /// Free the pixels of all frames.
    ResetSurfaces,
    ClearTimelineOverlay,
    ClearVolumeOverlay,
    ClearSubtitleOverlay,
    ClearRecentOverlay,
    /// Make a new audio sink and report how that went.
    RebuildAudioSink,
    /// Drop what the audio sink holds; report it if that fails.
    ResetAudioSink,
    /// Pause the audio sink; report it if that fails, and go on.
    PauseAudioSink,
    AdjustVolume(i16),
    UpdateWindowTitle,
    /// Fit the window to a new picture, and centre it if asked.
    ResizeForContent { width: u32, height: u32, center: bool },
    FitWindow { width: u32, height: u32 },
    SetClientSize { width: u32, height: u32 },
    ToggleFullscreen,
    ZoomAtCursor { delta: i16, cursor_x: i32, cursor_y: i32 },
    PanBy { dx: i32, dy: i32 },
    ResetZoom,
    ShowHelp(Size),
    HideHelp,
    /// Build the graphics device anew and report how that went.
    RebuildDevice,
    SelectPresentationPath(VideoPresentationPath),
    ApplyHdrMetadata { mastering: bool, content_light: bool },
    /// Free what the presenter holds, before the window goes.
    PrepareForShutdown,
}

/// The audio sink, as far as playback depends on it.
#[derive(Clone, Copy, Debug, PartialEq, Eq, Structural)]
pub struct SinkState {
    pub started: bool,
    pub sample_rate: u32,
}

/// Counters and reminders of what is still to be measured.
#[derive(Clone, Copy, Debug, PartialEq, Eq, Structural)]
pub struct PlaybackMetrics {
    pub measure_open_audio: bool,
    pub pending_first_frame: bool,
    pub pending_first_audio: bool,
    pub pending_seek_first_frame: bool,
    pub pending_seek_settled: bool,
    pub presented_video_frames: u64,
    pub dropped_video_frames: u64,
    pub audio_underruns: u64,
    pub hw_fallback_count: u64,
}

impl PlaybackMetrics {
    pub open spec fn initial() -> Self {
        PlaybackMetrics {
            measure_open_audio: false,
            pending_first_frame: false,
            pending_first_audio: false,
            pending_seek_first_frame: false,
            pending_seek_settled: false,
            presented_video_frames: 0,
            dropped_video_frames: 0,
            audio_underruns: 0,
            hw_fallback_count: 0,
        }
    }

    /// The counters start again with each operation.
    pub open spec fn reset(self) -> Self {
        PlaybackMetrics {
            presented_video_frames: 0,
            dropped_video_frames: 0,
            audio_underruns: 0,
            ..self
        }
    }
}

/// What a command asks of the audio sink before it is carried out.
#[derive(Clone, Copy, Debug, PartialEq, Eq, Structural)]
pub enum SinkCall {
    Nothing,
    Pause,
    Resume,
}

/// The audio sink did not do what it was asked for.
#[derive(Clone, Copy, Debug, PartialEq, Eq, Structural)]
pub struct SinkRefused;

/// What the devices report at the time of a call.
#[derive(Clone, Copy, Debug, PartialEq, Eq, Structural)]
pub struct DeviceView {
    /// Audio frames that the sink still holds.
    pub buffered_frames: u32,
    /// Whether the sink did what `sink_call` asks for.
    pub sink_obeyed: bool,
    /// Whether a picture has been selected for showing.
    pub surface_selected: bool,
    /// The size of that picture.
    pub surface_size: Option<Size>,
    /// The size of the view, if it is known.
    pub viewport: Option<Size>,
}

/// A stretch of audio and how much of it the sink has taken.
#[derive(Clone, Copy, Debug, PartialEq, Eq, Structural)]
pub struct QueuedAudioFrame {
    pub frame: DecodedAudioFrame,
    pub submitted_frames: u32,
}

/// What one round of audio submission has done so far.
#[derive(Clone, Copy, Debug, PartialEq, Eq, Structural)]
pub struct AudioBatch {
    pub first_written_pts: Option<Duration>,
    pub wrote_any: bool,
}

/// What became of the next video frame.
#[derive(Clone, Copy, Debug, PartialEq, Eq, Structural)]
pub enum VideoStep {
    /// Nothing is due.
    Wait,
    /// The out point was reached: this round of playback is over.
    StoppedAtOutPoint,
    /// Show this frame.
    Present(DecodedVideoFrame),
}

/// What the presenter said about the pixels of a frame.
#[derive(Clone, Copy, Debug, PartialEq, Eq, Structural)]
pub enum SurfaceSelection {
    /// They do not belong to the frame.
    Mismatch,
    /// They are selected now; before them these were.
    Selected(Option<u64>),
}

/// How showing the picture went.
#[derive(Clone, Copy, Debug, PartialEq, Eq, Structural)]
pub enum PresentResult {
    Shown,
    /// The window cannot be seen.
    Occluded,
    DeviceLost,
}

/// The plain values of a session.
#[derive(Clone, Copy, Debug, PartialEq, Eq, Structural)]
pub struct SessionCore {
    pub state: PlaybackState,
    pub generations: GenerationState,
    pub operation_clock: OperationClock,
    pub active_operation_id: Option<OperationId>,
    pub decode_preference: VideoDecodePreference,
    pub decode_thread: DecodeThreadHandle,
    pub sink: Option<SinkState>,
    pub video_clock: Option<PlaybackClock>,
    pub media_time_origin_pts: Option<Duration>,
    pub paused_clock_position: Option<Duration>,
    pub audio: AudioController,
    pub media_duration: Option<Duration>,
    pub pending_seek_target: Option<SeekTarget>,
    pub seek_discard_before_pts: Option<Duration>,
    pub seek_frame_presented_since_request: bool,
    pub audio_stream_expected: bool,
    pub overlay: OverlayManager,
    pub drop_buckets: VideoDropBuckets,
    pub video_stream_ended: bool,
    pub audio_stream_ended: bool,
    pub active_decode_mode: Option<VideoDecodeMode>,
    pub present_needed: bool,
    pub screenshot_pending: bool,
    pub observed_frame_interval: Option<Duration>,
    pub last_presented_media_position: Option<Duration>,
    pub viewport: ViewportState,
    pub needs_initial_resize: bool,
    pub has_shown_content: bool,
    pub pause_after_seek: bool,
    pub playback_rate: PlaybackRate,
    pub clip_range: ClipRangeState,
    pub idle_pace_requested: bool,
    pub tick_active: bool,
    pub cached_buffered_frames: Option<u32>,
    pub metrics: PlaybackMetrics,
}

impl SessionCore {
    /// Nothing open.
    pub open spec fn initial() -> Self {
        SessionCore {
            state: PlaybackState::Idle,
            generations: GenerationState { open: OpenGeneration(0), seek: SeekGeneration(0) },
            operation_clock: OperationClock { last: 0 },
            active_operation_id: None,
            decode_preference: VideoDecodePreference::Auto,
            decode_thread: DecodeThreadHandle::idle(0),
            sink: None,
            video_clock: None,
            media_time_origin_pts: None,
            paused_clock_position: None,
            audio: AudioController::unanchored(),
            media_duration: None,
            pending_seek_target: None,
            seek_discard_before_pts: None,
            seek_frame_presented_since_request: false,
            audio_stream_expected: false,
            overlay: OverlayManager::initial(),
            drop_buckets: VideoDropBuckets::none(),
            video_stream_ended: false,
            audio_stream_ended: false,
            active_decode_mode: None,
            present_needed: true,
            screenshot_pending: false,
            observed_frame_interval: None,
            last_presented_media_position: None,
            viewport: ViewportState::upright(),
            needs_initial_resize: false,
            has_shown_content: false,
            pause_after_seek: false,
            playback_rate: PlaybackRate { hundredths: 100 },
            clip_range: ClipRangeState::unmarked(false),
            idle_pace_requested: false,
            tick_active: false,
            cached_buffered_frames: None,
            metrics: PlaybackMetrics::initial(),
        }
    }

    /// With clocks and counters cleared for another operation.
    #[verifier::opaque]
    pub open spec fn prepared(self, rebuild_sink: bool, reset_audio_expectation: bool) -> Self {
        SessionCore {
            video_clock: None,
            media_time_origin_pts: if reset_audio_expectation {
                None
            } else {
                self.media_time_origin_pts
            },
            seek_discard_before_pts: if reset_audio_expectation {
                None
            } else {
                self.seek_discard_before_pts
            },
            paused_clock_position: None,
            audio: AudioController::unanchored(),
            drop_buckets: VideoDropBuckets::none(),
            metrics: self.metrics.reset(),
            video_stream_ended: false,
            audio_stream_ended: false,
            active_decode_mode: None,
            overlay: OverlayManager {
                volume_overlay_until: None,
                subtitle_clock_base: None,
                active_subtitle_cue: None,
                active_subtitle_viewport: None,
                ..self.overlay
            },
            audio_stream_expected: !reset_audio_expectation && self.audio_stream_expected,
            sink: match self.sink {
                Some(s) if !rebuild_sink => Some(SinkState { started: false, ..s }),
                _ => None,
            },
            ..self
        }
    }

    /// With a seek marked as pending.
    #[verifier::opaque]
    pub open spec fn seek_pending(self, target: SeekTarget, absolute: Duration) -> Self {
        SessionCore {
            pending_seek_target: Some(target),
            seek_discard_before_pts: Some(absolute),
            overlay: OverlayManager {
                subtitle_clock_base: Some(target.position),
                ..self.overlay
            },
            metrics: PlaybackMetrics {
                pending_seek_first_frame: true,
                pending_seek_settled: true,
                ..self.metrics
            },
            seek_frame_presented_since_request: false,
            ..self
        }
    }

    /// In another state, with another operation under way.
    pub open spec fn entered(self, state: PlaybackState, op_id: OperationId) -> Self {
        SessionCore { state, active_operation_id: Some(op_id), ..self }
    }

    /// After a frame at `position` was selected for showing. A picture that a
    /// pause waited for ends in the pause; otherwise playback runs, unless audio
    /// is still awaited.
    #[verifier::opaque]
    pub open spec fn after_shown(self, position: Duration) -> Self {
        let count = counted(self.metrics.presented_video_frames);
        SessionCore {
            observed_frame_interval: self.interval_after(position),
            last_presented_media_position: Some(position),
            present_needed: true,
            metrics: PlaybackMetrics {
                presented_video_frames: count,
                pending_first_frame: self.metrics.pending_first_frame || count == 1,
                ..self.metrics
            },
            seek_frame_presented_since_request: self.seek_frame_presented_since_request
                || self.metrics.pending_seek_settled,
            pause_after_seek: false,
            paused_clock_position: if self.pause_after_seek {
                match self.pending_seek_target {
                    Some(target) => Some(target.position),
                    None => None,
                }
            } else {
                self.paused_clock_position
            },
            state: if self.pause_after_seek {
                PlaybackState::Paused
            } else if !self.audio_stream_expected || self.audio.clock_anchor_pts is Some {
                PlaybackState::Playing
            } else {
                self.state
            },
            ..self
        }
    }

    /// The gap to the frame before, if it is plausible, else what was known.
    pub open spec fn interval_after(self, position: Duration) -> Option<Duration> {
        match self.last_presented_media_position {
            Some(previous) => {
                let gap = position@ - previous@;
                if 0 < gap <= MAX_OBSERVED_FRAME_INTERVAL_NANOS {
                    Some(Duration { nanos: gap as u128 })
                } else {
                    self.observed_frame_interval
                }
            },
            None => self.observed_frame_interval,
        }
    }

    /// Without the reminders that were met: a picture that shows meets those
    /// for the first frame; a settled seek is no longer pending.
    #[verifier::opaque]
    pub open spec fn reminders_dropped(self, settled: bool, surface_selected: bool) -> Self {
        SessionCore {
            metrics: PlaybackMetrics {
                pending_first_frame: self.metrics.pending_first_frame && !surface_selected,
                pending_first_audio: false,
                measure_open_audio: self.metrics.measure_open_audio
                    && !self.metrics.pending_first_audio,
                pending_seek_first_frame: self.metrics.pending_seek_first_frame
                    && !surface_selected,
                pending_seek_settled: self.metrics.pending_seek_settled && !settled,
                ..self.metrics
            },
            pending_seek_target: if settled {
                None
            } else {
                self.pending_seek_target
            },
            ..self
        }
    }

    /// Plain values for a new file, before its operation begins.
    #[verifier::opaque]
    pub open spec fn opening(self, preference: VideoDecodePreference, subtitle_loaded: bool) -> Self {
        SessionCore {
            generations: GenerationState {
                open: OpenGeneration(next_count(self.generations.open.0)),
                ..self.generations
            },
            operation_clock: OperationClock { last: next_count(self.operation_clock.last) },
            decode_preference: preference,
            overlay: OverlayManager {
                subtitle_loaded,
                subtitles_enabled: subtitle_loaded,
                subtitle_clock_base: None,
                active_subtitle_cue: None,
                active_subtitle_viewport: None,
                ..self.overlay
            },
            playback_rate: PlaybackRate { hundredths: 100 },
            clip_range: ClipRangeState::unmarked(self.clip_range.auto_replay),
            media_duration: None,
            active_decode_mode: None,
            observed_frame_interval: None,
            last_presented_media_position: None,
            viewport: ViewportState::upright(),
            needs_initial_resize: true,
            metrics: PlaybackMetrics { measure_open_audio: true, ..self.metrics },
            ..self
        }
    }
}

/// The text of an optional string.
pub open spec fn opt_text(s: Option<String>) -> Option<Seq<char>> {
    match s {
        Some(t) => Some(t@),
        None => None,
    }
}

/// Nanoseconds that a number of audio frames lasts, to the nearest one; halfway
/// between two, to the even one.
pub open spec fn frames_span(frames: int, sample_rate: u32) -> int {
    let n = frames * 1_000_000_000;
    let below = n / (sample_rate as int);
    let rest = n % (sample_rate as int);
    if 2 * rest > sample_rate || (2 * rest == sample_rate && below % 2 == 1) {
        below + 1
    } else {
        below
    }
}

/// The actions that free the pixels of these frames.
pub open spec fn releases(frames: Seq<DecodedVideoFrame>) -> Seq<SessionAction> {
    frames.map_values(|f: DecodedVideoFrame| SessionAction::ReleaseSurface(f.surface))
}

/// Whether every queued stretch of audio says how fast it plays.
pub open spec fn audio_rates_known(s: Seq<QueuedAudioFrame>) -> bool {
    forall|k: int| 0 <= k < s.len() ==> (#[trigger] s[k]).frame.format.sample_rate > 0
}

/// The model of a session.
#[verifier::ext_equal]
pub struct SessionModel {
    pub core: SessionCore,
    pub source: Option<Seq<char>>,
    pub video: Seq<DecodedVideoFrame>,
    pub video_capacity: usize,
    pub audio: Seq<QueuedAudioFrame>,
    pub audio_capacity: usize,
    pub actions: Seq<SessionAction>,
    pub last_error: Option<Seq<char>>,
    pub sink_error: Option<Seq<char>>,
}

impl SessionModel {
    /// Nothing open, nothing queued and nothing asked for but a first picture.
    pub open spec fn initial(video_capacity: usize, audio_capacity: usize) -> Self {
        SessionModel {
            core: SessionCore::initial(),
            source: None,
            video: Seq::empty(),
            video_capacity,
            audio: Seq::empty(),
            audio_capacity,
            actions: Seq::empty(),
            last_error: None,
            sink_error: None,
        }
    }

    /// What every operation keeps.
    pub open spec fn wf(self) -> bool {
        &&& in_pts_order(self.video)
        &&& self.core.playback_rate.hundredths > 0
        &&& (self.core.video_clock matches Some(c) ==> c.rate.hundredths > 0)
        &&& self.core.clip_range.wf()
        &&& self.core.audio.wf()
        &&& audio_rates_known(self.audio)
    }

    /// With other plain values.
    pub open spec fn with(self, core: SessionCore) -> Self {
        SessionModel { core, ..self }
    }

    /// With one more action.
    pub open spec fn act(self, action: SessionAction) -> Self {
        SessionModel { actions: self.actions.push(action), ..self }
    }

    /// Whether stamps are those of the current operation.
    pub open spec fn is_current(
        self,
        open_gen: OpenGeneration,
        seek_gen: SeekGeneration,
        op_id: OperationId,
    ) -> bool {
        open_gen == self.core.generations.open && seek_gen == self.core.generations.seek
            && self.core.active_operation_id == Some(op_id)
    }

    /// The position of a time stamp, counted from the first one seen.
    pub open spec fn media_time(self, pts: Duration) -> Duration {
        match self.core.media_time_origin_pts {
            Some(origin) => if pts@ >= origin@ {
                Duration { nanos: (pts@ - origin@) as u128 }
            } else {
                Duration { nanos: 0 }
            },
            None => Duration { nanos: 0 },
        }
    }

    /// The time stamp that a position stands for.
    pub open spec fn absolute(self, position: Duration) -> Duration {
        match self.core.media_time_origin_pts {
            Some(origin) => Duration { nanos: clamp_nanos(origin@ + position@) as u128 },
            None => position,
        }
    }

    /// The position of the master clock: where it was paused; else what audio
    /// has played; else what the video clock shows.
    pub open spec fn master(self, now: Instant, buffered: u32) -> Option<Duration> {
        if self.core.paused_clock_position is Some {
            self.core.paused_clock_position
        } else {
            match (self.core.audio.clock_anchor_pts, self.core.sink) {
                (Some(anchor), Some(sink)) if sink.started && sink.sample_rate > 0 => Some(
                    Duration {
                        nanos: clamp_nanos(
                            self.media_time(anchor)@ + frames_span(
                                self.core.audio.played(buffered as u64),
                                sink.sample_rate,
                            ),
                        ) as u128,
                    },
                ),
                _ => match self.core.video_clock {
                    Some(clock) => Some(Duration { nanos: clock.position_nanos(now) as u128 }),
                    None => None,
                },
            }
        }
    }

    /// The master clock, or the start while there is none.
    pub open spec fn master_or_start(self, now: Instant, buffered: u32) -> Duration {
        match self.master(now, buffered) {
            Some(p) => p,
            None => Duration { nanos: 0 },
        }
    }

    /// The position to show: the target of a pending seek, else the clock.
    pub open spec fn shown(self, now: Instant, buffered: u32) -> PlaybackSnapshot {
        match self.core.pending_seek_target {
            Some(target) => PlaybackSnapshot {
                position: target.position,
                kind: PositionKind::PendingSeekTarget,
            },
            None => PlaybackSnapshot {
                position: self.master_or_start(now, buffered),
                kind: PositionKind::SettledPlaybackClock,
            },
        }
    }

    /// Without queued video; the pixels are freed.
    #[verifier::opaque]
    pub open spec fn video_cleared(self) -> Self {
        SessionModel {
            video: Seq::empty(),
            actions: self.actions + releases(self.video),
            ..self
        }
    }

    /// With a started sink paused.
    #[verifier::opaque]
    pub open spec fn sink_paused(self) -> Self {
        match self.core.sink {
            Some(s) if s.started => self.with(
                SessionCore { sink: Some(SinkState { started: false, ..s }), ..self.core },
            ).act(SessionAction::PauseAudioSink),
            _ => self,
        }
    }

    /// With a started sink that was paused already.
    #[verifier::opaque]
    pub open spec fn sink_halted(self) -> Self {
        match self.core.sink {
            Some(s) if s.started => self.with(
                SessionCore { sink: Some(SinkState { started: false, ..s }), ..self.core },
            ),
            _ => self,
        }
    }

    /// With the decode worker let go.
    #[verifier::opaque]
    pub open spec fn torn_down(self, wait: bool) -> Self {
        self.with(
            SessionCore {
                decode_thread: DecodeThreadHandle::idle(self.core.decode_thread.active_worker_count),
                ..self.core
            },
        ).act(SessionAction::StopDecoder { control: self.core.decode_thread.control, wait })
    }

    /// With a decode worker started.
    #[verifier::opaque]
    pub open spec fn spawned(
        self,
        start: Option<Duration>,
        open_gen: OpenGeneration,
        seek_gen: SeekGeneration,
        op_id: OperationId,
    ) -> Self {
        self.with(
            SessionCore {
                decode_thread: self.core.decode_thread.spawned(
                    op_id.0,
                    self.core.decode_preference,
                ),
                ..self.core
            },
        ).act(
            SessionAction::SpawnDecoder {
                start,
                open_gen,
                seek_gen,
                op_id,
                preference: self.core.decode_preference,
            },
        )
    }

    /// The actions that prepare the devices for another operation.
    pub open spec fn prepare_actions(self, rebuild_sink: bool, reset_surfaces: bool) -> Seq<
        SessionAction,
    > {
        let surfaces = if reset_surfaces {
            seq![
                SessionAction::ResetSurfaces,
                SessionAction::ClearTimelineOverlay,
                SessionAction::ClearVolumeOverlay,
            ]
        } else {
            Seq::empty()
        };
        let sink = if rebuild_sink {
            seq![SessionAction::RebuildAudioSink]
        } else if self.core.sink is None {
            Seq::empty()
        } else if self.core.pause_after_seek {
            seq![SessionAction::PauseAudioSink]
        } else {
            seq![SessionAction::ResetAudioSink]
        };
        releases(self.video) + surfaces + seq![SessionAction::ClearSubtitleOverlay] + sink
    }

    /// With queues, clocks and counters cleared for another operation. A new
    /// file also forgets where its time starts and whether it has audio.
    #[verifier::opaque]
    pub open spec fn prepared(
        self,
        rebuild_sink: bool,
        reset_audio_expectation: bool,
        reset_surfaces: bool,
    ) -> Self {
        SessionModel {
            core: self.core.prepared(rebuild_sink, reset_audio_expectation),
            video: Seq::empty(),
            audio: Seq::empty(),
            actions: self.actions + self.prepare_actions(rebuild_sink, reset_surfaces),
            sink_error: if rebuild_sink {
                None
            } else {
                self.sink_error
            },
            ..self
        }
    }

    /// With a new decode worker for an operation.
    #[verifier::opaque]
    pub open spec fn begun(
        self,
        start: Option<Duration>,
        open_gen: OpenGeneration,
        seek_gen: SeekGeneration,
        op_id: OperationId,
        next_state: PlaybackState,
        rebuild_sink: bool,
        reset_audio_expectation: bool,
    ) -> Self {
        let p = self.torn_down(false).prepared(rebuild_sink, reset_audio_expectation, true);
        let q = SessionModel {
            core: p.core.entered(next_state, op_id),
            last_error: None,
            ..p
        };
        q.spawned(start, open_gen, seek_gen, op_id)
    }

    /// With the seek generation and the operation counted up.
    #[verifier::opaque]
    pub open spec fn next_seek(self) -> Self {
        self.with(
            SessionCore {
                generations: GenerationState {
                    seek: SeekGeneration(next_count(self.core.generations.seek.0)),
                    ..self.core.generations
                },
                operation_clock: OperationClock {
                    last: next_count(self.core.operation_clock.last),
                },
                metrics: PlaybackMetrics { measure_open_audio: false, ..self.core.metrics },
                ..self.core
            },
        )
    }

    /// The operation that was handed out last.
    pub open spec fn last_operation(self) -> OperationId {
        OperationId(self.core.operation_clock.last)
    }

    /// With a seek to `target` under way. The running decode worker serves it
    /// if it can; otherwise another one opens the file at the target.
    #[verifier::opaque]
    pub open spec fn seek_executed(self, target: SeekTarget) -> Self {
        let absolute = self.absolute(target.position);
        let n = self.next_seek();
        let seek_gen = n.core.generations.seek;
        let op_id = n.last_operation();
        let p = n.prepared(false, false, false);
        let q = SessionModel {
            core: p.core.entered(PlaybackState::Seeking, op_id),
            last_error: None,
            ..p
        };
        let r = match q.core.decode_thread.control {
            Some(control) if q.core.decode_thread.serving(q.core.decode_preference) => q.act(
                SessionAction::SeekDecoder { control, target: absolute, seek_gen, op_id },
            ),
            _ => q.torn_down(false).spawned(
                Some(absolute),
                q.core.generations.open,
                seek_gen,
                op_id,
            ),
        };
        r.with(r.core.seek_pending(target, absolute))
    }

    /// Whether a seek makes sense now: a file is open and not about to be.
    pub open spec fn accepts_seek(self) -> bool {
        &&& self.source is Some
        &&& self.core.state != PlaybackState::Idle
        &&& self.core.state != PlaybackState::Opening
        &&& self.core.state != PlaybackState::Error
    }

    /// A position no further than the end, if the end is known.
    pub open spec fn clamped(self, position: Duration) -> Duration {
        match self.core.media_duration {
            Some(end) if position@ > end@ => end,
            _ => position,
        }
    }

    /// After a request to seek.
    #[verifier::opaque]
    pub open spec fn sought(self, target: SeekTarget) -> Self {
        if self.accepts_seek() {
            self.seek_executed(SeekTarget { position: self.clamped(target.position) })
        } else {
            self
        }
    }

    /// After a request to play again from the start of the range.
    #[verifier::opaque]
    pub open spec fn replayed(self) -> Self {
        self.sought(
            SeekTarget { position: Duration { nanos: self.core.clip_range.start() as u128 } },
        )
    }

    /// After the pause key while a seek is under way: the first press holds the
    /// picture once it arrives, the second seeks again without a pause. A sink
    /// that does not pause plays on.
    #[verifier::opaque]
    pub open spec fn pending_seek_pause_toggled(
        self,
        now: Instant,
        buffered: u32,
        sink_obeyed: bool,
    ) -> Self {
        if !self.core.pause_after_seek {
            let held = self.with(SessionCore { pause_after_seek: true, ..self.core });
            if sink_obeyed {
                held.sink_halted()
            } else {
                held
            }
        } else {
            let position = self.shown(now, buffered).position;
            let target = match self.core.clip_range.resumed(position) {
                Some(t) => t,
                None => position,
            };
            self.with(SessionCore { pause_after_seek: false, ..self.core }).sought(
                SeekTarget { position: target },
            )
        }
    }

    /// Whether both streams are over and played out, the device aside.
    pub open spec fn streams_exhausted(self) -> bool {
        &&& self.core.video_stream_ended
        &&& self.video.len() == 0
        &&& (self.core.audio_stream_expected ==> self.core.audio_stream_ended && self.audio.len()
            == 0)
    }

    /// After playback was resumed from a pause inside the range. A sink that does
    /// not resume leaves it paused.
    #[verifier::opaque]
    pub open spec fn resumed(self, now: Instant, surface_selected: bool, sink_obeyed: bool) -> Self {
        let c = self.core;
        let next = if surface_selected {
            PlaybackState::Playing
        } else {
            PlaybackState::Priming
        };
        if c.audio.clock_anchor_pts is None {
            let position = match c.paused_clock_position {
                Some(p) => p,
                None => Duration { nanos: 0 },
            };
            self.with(
                SessionCore {
                    video_clock: Some(
                        PlaybackClock { started: now, base: position, rate: c.playback_rate },
                    ),
                    paused_clock_position: None,
                    state: next,
                    ..c
                },
            )
        } else {
            match c.sink {
                Some(s) => if sink_obeyed {
                    self.with(
                        SessionCore {
                            sink: Some(SinkState { started: true, ..s }),
                            paused_clock_position: None,
                            state: next,
                            ..c
                        },
                    )
                } else {
                    self
                },
                None => self.with(
                    SessionCore { paused_clock_position: None, state: next, ..c },
                ),
            }
        }
    }

    /// After playback was paused. A started sink that does not pause leaves the
    /// state as it is; the clock is held all the same.
    #[verifier::opaque]
    pub open spec fn paused(self, now: Instant, buffered: u32, sink_obeyed: bool) -> Self {
        let held = self.with(
            SessionCore { paused_clock_position: self.master(now, buffered), ..self.core },
        );
        if self.sink_started() && !sink_obeyed {
            held
        } else {
            let p = held.sink_halted();
            p.with(SessionCore { state: PlaybackState::Paused, ..p.core })
        }
    }

    /// What the pause key asks of the sink.
    pub open spec fn toggle_call(self, now: Instant, buffered: u32) -> SinkCall {
        let pauses = match self.core.state {
            PlaybackState::Seeking => !self.core.pause_after_seek,
            PlaybackState::Priming => self.core.pending_seek_target is None
                || !self.core.pause_after_seek,
            PlaybackState::Playing | PlaybackState::Draining => true,
            _ => false,
        };
        let resumes = self.core.state == PlaybackState::Paused && self.core.clip_range.resumed(
            self.shown(now, buffered).position,
        ) is None && !self.streams_exhausted() && self.core.audio.clock_anchor_pts is Some;
        if pauses && self.sink_started() {
            SinkCall::Pause
        } else if resumes && self.core.sink is Some {
            SinkCall::Resume
        } else {
            SinkCall::Nothing
        }
    }

    /// Whether a step by one frame begins with the pause key.
    pub open spec fn step_toggles(self) -> bool {
        self.source is Some && self.core.state != PlaybackState::Paused && self.core.state
            != PlaybackState::Ended
    }

    /// What a command asks of the sink before it is carried out.
    pub open spec fn sink_call(self, command: SessionCommand, now: Instant, buffered: u32) -> SinkCall {
        match command {
            SessionCommand::TogglePause => self.toggle_call(now, buffered),
            SessionCommand::StepFrameForward | SessionCommand::StepFrameBackward =>
                if self.step_toggles() {
                    self.toggle_call(now, buffered)
                } else {
                    SinkCall::Nothing
                },
            _ => SinkCall::Nothing,
        }
    }

    /// Whether a command fails because the sink did not do what it asks for.
    pub open spec fn is_refused(
        self,
        command: SessionCommand,
        now: Instant,
        devices: DeviceView,
    ) -> bool {
        !devices.sink_obeyed && self.sink_call(command, now, devices.buffered_frames)
            != SinkCall::Nothing
    }

    /// After the pause key.
    #[verifier::opaque]
    pub open spec fn pause_toggled(self, now: Instant, devices: DeviceView) -> Self {
        let buffered = devices.buffered_frames;
        match self.core.state {
            PlaybackState::Seeking => self.pending_seek_pause_toggled(
                now,
                buffered,
                devices.sink_obeyed,
            ),
            PlaybackState::Priming if self.core.pending_seek_target is Some =>
                self.pending_seek_pause_toggled(now, buffered, devices.sink_obeyed),
            PlaybackState::Playing | PlaybackState::Priming | PlaybackState::Draining =>
                self.paused(now, buffered, devices.sink_obeyed),
            PlaybackState::Paused => match self.core.clip_range.resumed(
                self.shown(now, buffered).position,
            ) {
                Some(target) => self.with(
                    SessionCore { pause_after_seek: false, ..self.core },
                ).sought(SeekTarget { position: target }),
                None => if self.streams_exhausted() {
                    self.replayed()
                } else {
                    self.resumed(now, devices.surface_selected, devices.sink_obeyed)
                },
            },
            PlaybackState::Ended => self.replayed(),
            _ => self,
        }
    }

    /// The first plausible gap between neighbours from place `at` on.
    pub open spec fn queued_interval(self, at: int) -> Duration
        decreases self.video.len() - at,
    {
        if at < 1 || at >= self.video.len() {
            Duration { nanos: DEFAULT_FRAME_STEP_NANOS }
        } else {
            let gap = self.media_time(self.video[at].pts)@ - self.media_time(
                self.video[at - 1].pts,
            )@;
            if 0 < gap <= MAX_OBSERVED_FRAME_INTERVAL_NANOS {
                Duration { nanos: gap as u128 }
            } else {
                self.queued_interval(at + 1)
            }
        }
    }

    /// How long one frame lasts: as observed, else as queued, else assumed.
    pub open spec fn frame_step(self) -> Duration {
        match self.core.observed_frame_interval {
            Some(interval) => interval,
            None => self.queued_interval(1),
        }
    }

    /// Where a step by one frame leads.
    pub open spec fn step_target(self, forward: bool, now: Instant, buffered: u32) -> Duration {
        let current = match self.core.pending_seek_target {
            Some(target) => target.position,
            None => match self.core.last_presented_media_position {
                Some(p) => p,
                None => self.shown(now, buffered).position,
            },
        };
        let step = self.frame_step();
        let target = if forward {
            Duration { nanos: clamp_nanos(current@ + step@) as u128 }
        } else if current@ >= step@ {
            Duration { nanos: (current@ - step@) as u128 }
        } else {
            Duration { nanos: 0 }
        };
        self.clamped(target)
    }

    /// After a step by one frame: playback pauses, and the picture one frame
    /// further is sought. Where the sink does not pause, nothing is sought.
    #[verifier::opaque]
    pub open spec fn frame_stepped(self, forward: bool, now: Instant, devices: DeviceView) -> Self {
        if self.source is None {
            self
        } else {
            let p = if self.step_toggles() {
                self.pause_toggled(now, devices)
            } else {
                self
            };
            let refused = self.step_toggles() && !devices.sink_obeyed && self.toggle_call(
                now,
                devices.buffered_frames,
            ) != SinkCall::Nothing;
            if refused {
                p
            } else {
                let target = p.step_target(forward, now, devices.buffered_frames);
                p.with(SessionCore { pause_after_seek: true, ..p.core }).sought(
                    SeekTarget { position: target },
                )
            }
        }
    }

    /// With another rate: clocks and queued audio start anew.
    #[verifier::opaque]
    pub open spec fn rate_changed(self, rate: PlaybackRate) -> Self {
        if rate == self.core.playback_rate {
            self
        } else {
            SessionModel {
                core: SessionCore {
                    playback_rate: rate,
                    video_clock: None,
                    audio: AudioController::unanchored(),
                    ..self.core
                },
                audio: Seq::empty(),
                actions: self.actions.push(SessionAction::UpdateWindowTitle),
                ..self
            }
        }
    }

    /// After a command.
    #[verifier::opaque]
    pub open spec fn commanded(
        self,
        command: SessionCommand,
        now: Instant,
        devices: DeviceView,
    ) -> Self {
        let c = self.core;
        let here = self.shown(now, devices.buffered_frames).position;
        match command {
            SessionCommand::Tick => self,
            SessionCommand::TogglePause => self.pause_toggled(now, devices),
            SessionCommand::ToggleSubtitles => {
                let t = self.with(
                    SessionCore { overlay: c.overlay.subtitles_toggled(), ..c },
                );
                if c.overlay.subtitle_loaded && c.overlay.subtitles_enabled {
                    t.act(SessionAction::ClearSubtitleOverlay)
                } else {
                    t
                }
            },
            SessionCommand::SaveScreenshot => self.with(
                SessionCore { screenshot_pending: true, present_needed: true, ..c },
            ),
            SessionCommand::Seek(target) => self.with(
                SessionCore { pause_after_seek: false, ..c },
            ).sought(target),
            SessionCommand::StepFrameForward => self.frame_stepped(true, now, devices),
            SessionCommand::StepFrameBackward => self.frame_stepped(false, now, devices),
            SessionCommand::AdjustVolumeSteps(steps) => if c.sink is None {
                self
            } else {
                self.with(
                    SessionCore {
                        overlay: OverlayManager {
                            volume_overlay_until: Some(
                                Instant { nanos: (now@ + VOLUME_OVERLAY_NANOS) as u128 },
                            ),
                            ..c.overlay
                        },
                        ..c
                    },
                ).act(SessionAction::AdjustVolume(steps))
            },
            SessionCommand::RotateClockwise => self.with(
                SessionCore { viewport: c.viewport.turned(1), present_needed: true, ..c },
            ),
            SessionCommand::RotateCounterClockwise => self.with(
                SessionCore { viewport: c.viewport.turned(3), present_needed: true, ..c },
            ),
            SessionCommand::ToggleBorderlessFullscreen => self.act(SessionAction::ToggleFullscreen),
            SessionCommand::ZoomAtCursor { delta, cursor_x, cursor_y } => self.act(
                SessionAction::ZoomAtCursor { delta, cursor_x, cursor_y },
            ),
            SessionCommand::ResetView => self.with(
                SessionCore { viewport: c.viewport.reset_view(), present_needed: true, ..c },
            ).act(SessionAction::ResetZoom),
            SessionCommand::ToggleAutoReplay => self.with(
                SessionCore {
                    clip_range: ClipRangeState {
                        auto_replay: !c.clip_range.auto_replay,
                        ..c.clip_range
                    },
                    overlay: OverlayManager {
                        replay_indicator_until: Some(
                            Instant { nanos: (now@ + REPLAY_INDICATOR_NANOS) as u128 },
                        ),
                        ..c.overlay
                    },
                    ..c
                },
            ),
            SessionCommand::SetInPoint => self.with(
                SessionCore { clip_range: c.clip_range.with_in_point(here), ..c },
            ),
            SessionCommand::ClearInPoint => self.with(
                SessionCore { clip_range: c.clip_range.without_in_point(), ..c },
            ),
            SessionCommand::SetOutPoint => self.with(
                SessionCore { clip_range: c.clip_range.with_out_point(here), ..c },
            ),
            SessionCommand::ClearOutPoint => self.with(
                SessionCore { clip_range: c.clip_range.without_out_point(), ..c },
            ),
            SessionCommand::ToggleLoopRange => self.with(
                SessionCore {
                    clip_range: c.clip_range.toggled(),
                    overlay: OverlayManager {
                        replay_indicator_until: if c.clip_range.is_marked() {
                            c.overlay.replay_indicator_until
                        } else {
                            Some(Instant { nanos: (now@ + REPLAY_INDICATOR_NANOS) as u128 })
                        },
                        ..c.overlay
                    },
                    ..c
                },
            ),
            SessionCommand::FitWindow => match devices.surface_size {
                Some(size) => {
                    let shown = c.viewport.oriented(size.width, size.height);
                    self.act(SessionAction::FitWindow { width: shown.0, height: shown.1 })
                },
                None => self,
            },
            SessionCommand::HalfSizeWindow => match devices.surface_size {
                Some(size) => {
                    let shown = c.viewport.oriented(size.width, size.height);
                    self.act(
                        SessionAction::SetClientSize {
                            width: half_at_least_one(shown.0),
                            height: half_at_least_one(shown.1),
                        },
                    )
                },
                None => self,
            },
            SessionCommand::ToggleDecodeInfo => self.with(
                SessionCore {
                    overlay: OverlayManager {
                        show_decode_info: !c.overlay.show_decode_info,
                        ..c.overlay
                    },
                    ..c
                },
            ).act(SessionAction::UpdateWindowTitle),
            SessionCommand::StepPlaybackRate(step) => self.rate_changed(
                c.playback_rate.stepped(step as int),
            ),
            SessionCommand::ResetPlaybackRate => self.rate_changed(
                PlaybackRate { hundredths: 100 },
            ),
            SessionCommand::PanBy { dx, dy } => self.act(SessionAction::PanBy { dx, dy }),
            SessionCommand::ShowHelp => match devices.viewport {
                Some(size) => self.with(SessionCore { present_needed: true, ..c }).act(
                    SessionAction::ShowHelp(size),
                ),
                None => self,
            },
            SessionCommand::HideHelp => self.with(
                SessionCore { present_needed: true, ..c },
            ).act(SessionAction::HideHelp),
        }
    }

    /// After a failure: the worker is let go, and the error stands.
    #[verifier::opaque]
    pub open spec fn failed(self, error: Seq<char>) -> Self {
        let t = self.torn_down(false);
        SessionModel {
            core: SessionCore {
                pending_seek_target: None,
                active_operation_id: None,
                active_decode_mode: None,
                state: PlaybackState::Error,
                ..t.core
            },
            last_error: Some(error),
            ..t
        }
    }

    /// Where playback starts again after a device was lost.
    pub open spec fn restart_position(self, now: Instant, buffered: u32) -> Duration {
        self.absolute(self.shown(now, buffered).position)
    }

    /// With playback started again from where it was.
    #[verifier::opaque]
    pub open spec fn restarted(self, now: Instant, buffered: u32, rebuild_sink: bool) -> Self {
        let restart = self.restart_position(now, buffered);
        let n = self.next_seek();
        let b = n.begun(
            Some(restart),
            n.core.generations.open,
            n.core.generations.seek,
            n.last_operation(),
            PlaybackState::Seeking,
            rebuild_sink,
            false,
        );
        b.with(
            SessionCore {
                overlay: OverlayManager { subtitle_clock_base: Some(restart), ..b.core.overlay },
                ..b.core
            },
        )
    }

    /// After the audio device changed or failed.
    #[verifier::opaque]
    pub open spec fn audio_recovered(self, now: Instant, buffered: u32) -> Self {
        if self.source is Some {
            self.restarted(now, buffered, true)
        } else {
            self
        }
    }

    /// After the graphics device was lost: the worker, which uses the device,
    /// has to be gone before another device is built.
    #[verifier::opaque]
    pub open spec fn device_lost(self) -> Self {
        if self.source is Some {
            self.torn_down(true).act(SessionAction::RebuildDevice)
        } else {
            self
        }
    }

    /// With the front frame of the queue dropped.
    #[verifier::opaque]
    pub open spec fn front_dropped(self, cause: VideoDropCause) -> Self
        recommends
            self.video.len() > 0,
    {
        SessionModel {
            video: self.video.drop_first(),
            ..self.frame_dropped(self.video[0], cause)
        }
    }

    /// With a frame counted as dropped and its pixels freed.
    #[verifier::opaque]
    pub open spec fn frame_dropped(self, frame: DecodedVideoFrame, cause: VideoDropCause) -> Self {
        self.with(
            SessionCore {
                drop_buckets: self.core.drop_buckets.noted(cause),
                metrics: PlaybackMetrics {
                    dropped_video_frames: counted(self.core.metrics.dropped_video_frames),
                    ..self.core.metrics
                },
                ..self.core
            },
        ).act(SessionAction::ReleaseSurface(frame.surface))
    }

    #[via_fn]
    proof fn overflow_evicted_ends(self) {
        reveal(SessionModel::front_dropped);
    }

    /// With the oldest frames dropped until the queue is within its capacity.
    pub open spec fn overflow_evicted(self) -> Self
        decreases self.video.len(),
        via Self::overflow_evicted_ends
    {
        if self.video.len() > 0 && self.video.len() > self.video_capacity {
            self.front_dropped(VideoDropCause::QueueOverflow).overflow_evicted()
        } else {
            self
        }
    }

    /// With a frame queued in its place.
    #[verifier::opaque]
    pub open spec fn frame_queued(self, frame: DecodedVideoFrame) -> Self {
        SessionModel {
            video: self.video.insert(insert_position(self.video, frame), frame),
            ..self
        }.overflow_evicted()
    }

    /// With the first time stamp noted.
    #[verifier::opaque]
    pub open spec fn origin_observed(self, pts: Duration) -> Self {
        self.with(
            SessionCore {
                media_time_origin_pts: match self.core.media_time_origin_pts {
                    Some(origin) => Some(origin),
                    None => Some(pts),
                },
                ..self.core
            },
        )
    }

    /// Whether a time stamp lies before the target of the last seek.
    pub open spec fn before_target(self, pts: Duration) -> bool {
        self.core.seek_discard_before_pts matches Some(target) && pts@ < target@
    }

    /// The first decoded data ends the opening or seeking.
    #[verifier::opaque]
    pub open spec fn primed(self) -> Self {
        if self.core.state == PlaybackState::Opening || self.core.state == PlaybackState::Seeking {
            self.with(SessionCore { state: PlaybackState::Priming, ..self.core })
        } else {
            self
        }
    }

    /// After a decoded picture of the current operation arrived.
    #[verifier::opaque]
    pub open spec fn video_arrived(self, f: PendingVideoFrame) -> Self {
        if self.before_target(f.pts) {
            self
        } else {
            let r = if self.core.needs_initial_resize {
                self.with(
                    SessionCore {
                        needs_initial_resize: false,
                        has_shown_content: true,
                        ..self.core
                    },
                ).act(
                    SessionAction::ResizeForContent {
                        width: f.display_width,
                        height: f.display_height,
                        center: !self.core.has_shown_content,
                    },
                )
            } else {
                self
            };
            r.origin_observed(f.pts).act(
                SessionAction::RegisterSurface {
                    surface: f.surface,
                    open_gen: f.open_gen,
                    seek_gen: f.seek_gen,
                },
            ).frame_queued(
                DecodedVideoFrame {
                    open_gen: f.open_gen,
                    seek_gen: f.seek_gen,
                    pts: f.pts,
                    surface: f.surface,
                },
            ).primed()
        }
    }

    /// After decoded audio of the current operation arrived.
    #[verifier::opaque]
    pub open spec fn audio_arrived(self, f: DecodedAudioFrame) -> Self {
        if self.before_target(f.pts) {
            self
        } else {
            let e = self.with(SessionCore { audio_stream_expected: true, ..self.core });
            let o = e.origin_observed(f.pts);
            if o.core.sink is None {
                o.failed(
                    match o.sink_error {
                        Some(message) => message,
                        None => "WASAPI sink was not available for decoded audio"@,
                    },
                )
            } else if o.audio.len() >= o.audio_capacity {
                o.primed()
            } else {
                SessionModel {
                    audio: o.audio.push(QueuedAudioFrame { frame: f, submitted_frames: 0 }),
                    ..o
                }.primed()
            }
        }
    }

    /// Whether an event belongs to the current operation.
    pub open spec fn concerns(self, event: SessionEvent) -> bool {
        &&& event.open_stamp() == self.core.generations.open
        &&& self.core.active_operation_id == Some(event.operation())
        &&& (event.seek_stamp() matches Some(seek_gen) ==> seek_gen == self.core.generations.seek)
    }

    /// After an event.
    #[verifier::opaque]
    pub open spec fn told(self, event: SessionEvent, now: Instant, buffered: u32) -> Self {
        let c = self.core;
        if !self.concerns(event) {
            self
        } else {
            match event {
                SessionEvent::DecodeModeSelected {
                    mode,
                    hw_fallback_count,
                    rotation_quarter_turns,
                    ..
                } => {
                    let m = self.with(
                        SessionCore {
                            active_decode_mode: Some(mode),
                            decode_preference: if mode == VideoDecodeMode::Software {
                                VideoDecodePreference::ForceSoftware
                            } else {
                                c.decode_preference
                            },
                            viewport: c.viewport.with_stream_rotation(rotation_quarter_turns),
                            metrics: PlaybackMetrics { hw_fallback_count, ..c.metrics },
                            ..c
                        },
                    );
                    if c.overlay.show_decode_info {
                        m.act(SessionAction::UpdateWindowTitle)
                    } else {
                        m
                    }
                },
                SessionEvent::MediaDurationKnown { duration, .. } => self.with(
                    SessionCore { media_duration: Some(duration), ..c },
                ),
                SessionEvent::PresentationPathSelected { path, .. } => self.act(
                    SessionAction::SelectPresentationPath(path),
                ),
                SessionEvent::HdrMetadataKnown { mastering, content_light, .. } => self.act(
                    SessionAction::ApplyHdrMetadata { mastering, content_light },
                ),
                SessionEvent::VideoFrameReady(f) => self.video_arrived(f),
                SessionEvent::AudioFrameReady(f) => self.audio_arrived(f),
                SessionEvent::VideoStreamEnded { .. } => self.with(
                    SessionCore {
                        video_stream_ended: true,
                        state: if c.state == PlaybackState::Playing || c.state
                            == PlaybackState::Priming {
                            PlaybackState::Draining
                        } else {
                            c.state
                        },
                        ..c
                    },
                ),
                SessionEvent::NoVideoStream { .. } => self.with(
                    SessionCore { video_stream_ended: true, ..c },
                ),
                SessionEvent::AudioStreamEnded { .. } => self.with(
                    SessionCore { audio_stream_expected: true, audio_stream_ended: true, ..c },
                ),
                SessionEvent::OpenFailed { error, .. } => self.failed(error@),
                SessionEvent::PlaybackFailed { error, .. } => self.failed(error@),
                SessionEvent::DeviceLost { .. } => self.device_lost(),
                SessionEvent::AudioEndpointChanged { .. } => self.audio_recovered(now, buffered),
            }
        }
    }

    /// Whether the front frame is far behind the clock and another one waits.
    pub open spec fn front_is_very_late(self, clock: Duration) -> bool {
        &&& self.video.len() > 1
        &&& clock@ - self.media_time(self.video[0].pts)@ > VERY_LATE_VIDEO_NANOS
    }

    #[via_fn]
    proof fn very_late_dropped_ends(self, clock: Duration) {
        reveal(SessionModel::front_dropped);
    }

    /// With very late frames dropped, as long as another one waits.
    pub open spec fn very_late_dropped(self, clock: Duration) -> Self
        decreases self.video.len(),
        via Self::very_late_dropped_ends
    {
        if self.front_is_very_late(clock) {
            self.front_dropped(VideoDropCause::SchedulerLate).very_late_dropped(clock)
        } else {
            self
        }
    }

    #[via_fn]
    proof fn overtaken_dropped_ends(self, clock: Duration) {
        reveal(SessionModel::front_dropped);
    }

    /// With frames dropped whose successor is due as well.
    pub open spec fn overtaken_dropped(self, clock: Duration) -> Self
        decreases self.video.len(),
        via Self::overtaken_dropped_ends
    {
        if self.video.len() > 1 && self.media_time(self.video[1].pts)@ <= clock@ {
            self.front_dropped(VideoDropCause::SchedulerLate).overtaken_dropped(clock)
        } else {
            self
        }
    }

    /// With the frames dropped that the audio clock has left behind.
    #[verifier::opaque]
    pub open spec fn caught_up(self, clock: Duration) -> Self {
        let m = self.very_late_dropped(clock);
        if m.video.len() > 0 && m.media_time(m.video[0].pts)@ <= clock@ {
            m.overtaken_dropped(clock)
        } else {
            m
        }
    }

    /// Whether playback runs, so that the out point counts.
    pub open spec fn out_point_counts(self) -> bool {
        self.core.state == PlaybackState::Playing || self.core.state == PlaybackState::Priming
            || self.core.state == PlaybackState::Draining
    }

    /// Stopped at the out point: the last picture and its position stay.
    #[verifier::opaque]
    pub open spec fn stopped_at(self, position: Duration) -> Self {
        let v = SessionModel { audio: Seq::empty(), ..self.video_cleared() }.sink_paused();
        v.with(
            SessionCore {
                video_clock: None,
                paused_clock_position: Some(position),
                state: PlaybackState::Ended,
                ..v.core
            },
        )
    }

    /// With the front frame taken out to be shown, unless it lies at or behind
    /// the out point.
    #[verifier::opaque]
    pub open spec fn front_taken(self) -> (Self, VideoStep)
        recommends
            self.video.len() > 0,
    {
        let frame = self.video[0];
        let rest = SessionModel { video: self.video.drop_first(), ..self };
        let position = self.media_time(frame.pts);
        match self.core.clip_range.out_point {
            Some(out) if self.out_point_counts() && position@ >= out@ => {
                let freed = rest.act(SessionAction::ReleaseSurface(frame.surface));
                if self.core.clip_range.loop_range {
                    (freed.replayed(), VideoStep::StoppedAtOutPoint)
                } else {
                    (freed.stopped_at(position), VideoStep::StoppedAtOutPoint)
                }
            },
            _ => (rest, VideoStep::Present(frame)),
        }
    }

    /// After a look at the video queue: which frame is to be shown now.
    #[verifier::opaque]
    pub open spec fn advanced(self, now: Instant, buffered: u32) -> (Self, VideoStep) {
        if self.core.state == PlaybackState::Paused || self.core.state == PlaybackState::Ended {
            (self, VideoStep::Wait)
        } else if self.core.audio.clock_anchor_pts is Some {
            match self.master(now, buffered) {
                Some(clock) => {
                    let m = self.caught_up(clock);
                    if m.video.len() > 0 && m.media_time(m.video[0].pts)@ <= clock@ {
                        m.front_taken()
                    } else {
                        (m, VideoStep::Wait)
                    }
                },
                None => (self, VideoStep::Wait),
            }
        } else if self.video.len() == 0 {
            (self, VideoStep::Wait)
        } else {
            match self.core.video_clock {
                Some(clock) if now@ < clock.deadline_nanos(self.media_time(self.video[0].pts)) => (
                    self,
                    VideoStep::Wait,
                ),
                _ => self.front_taken(),
            }
        }
    }

    /// After a frame was handed to the presenter.
    #[verifier::opaque]
    pub open spec fn presented(
        self,
        frame: DecodedVideoFrame,
        selection: SurfaceSelection,
        now: Instant,
    ) -> Self {
        let position = self.media_time(frame.pts);
        let c = self.core;
        let k = if c.video_clock is None && c.audio.clock_anchor_pts is None {
            self.with(
                SessionCore {
                    video_clock: Some(
                        PlaybackClock { started: now, base: position, rate: c.playback_rate },
                    ),
                    ..c
                },
            )
        } else {
            self
        };
        match selection {
            SurfaceSelection::Mismatch => k.frame_dropped(frame, VideoDropCause::SurfaceMismatch),
            SurfaceSelection::Selected(previous) => {
                let f = match previous {
                    Some(p) if p != frame.surface => k.act(SessionAction::ReleaseSurface(p)),
                    _ => k,
                };
                f.with(f.core.after_shown(position))
            },
        }
    }

    /// Whether audio may be handed to the sink.
    pub open spec fn audio_flows(self) -> bool {
        &&& self.core.state != PlaybackState::Paused
        &&& self.core.state != PlaybackState::Ended
        &&& !self.core.pause_after_seek
        &&& self.core.playback_rate.hundredths == 100
        &&& self.core.sink is Some
    }

    /// After the sink took `written` frames of the front of the audio queue.
    #[verifier::opaque]
    pub open spec fn audio_taken(self, written: u32) -> Self
        recommends
            self.audio.len() > 0,
    {
        let front = self.audio[0];
        let sum = front.submitted_frames + written;
        let submitted: u32 = if sum > u32::MAX {
            u32::MAX
        } else {
            sum as u32
        };
        SessionModel {
            core: SessionCore {
                audio: AudioController {
                    submitted_frames: submitted_after(
                        self.core.audio.submitted_frames,
                        written as u64,
                    ),
                    ..self.core.audio
                },
                ..self.core
            },
            audio: if submitted >= front.frame.frame_count {
                self.audio.drop_first()
            } else {
                self.audio.update(0, QueuedAudioFrame { submitted_frames: submitted, ..front })
            },
            ..self
        }
    }

    /// The round of submission after that.
    pub open spec fn batch_after(self, batch: AudioBatch) -> AudioBatch
        recommends
            self.audio.len() > 0,
    {
        let front = self.audio[0];
        AudioBatch {
            wrote_any: true,
            first_written_pts: match batch.first_written_pts {
                Some(pts) => Some(pts),
                None => Some(
                    Duration {
                        nanos: clamp_nanos(
                            front.frame.pts@ + frames_span(
                                front.submitted_frames as int,
                                front.frame.format.sample_rate,
                            ),
                        ) as u128,
                    },
                ),
            },
        }
    }

    pub open spec fn sink_started(self) -> bool {
        self.core.sink matches Some(s) && s.started
    }

    /// With the audio clock anchored, if audio began to play in this round.
    #[verifier::opaque]
    pub open spec fn anchored(self, batch: AudioBatch) -> Self {
        let c = self.core;
        if batch.wrote_any && c.audio.clock_anchor_pts is None && self.sink_started() {
            self.with(
                SessionCore {
                    audio: AudioController {
                        clock_anchor_pts: batch.first_written_pts,
                        ..c.audio
                    },
                    video_clock: None,
                    metrics: PlaybackMetrics {
                        pending_first_audio: c.metrics.pending_first_audio
                            || c.metrics.measure_open_audio,
                        ..c.metrics
                    },
                    ..c
                },
            )
        } else {
            self
        }
    }

    /// Whether all that was decoded has been played.
    pub open spec fn can_finish(self, buffered: u32) -> bool {
        &&& self.streams_exhausted()
        &&& (self.core.audio_stream_expected ==> buffered == 0)
        &&& self.out_point_counts()
    }

    /// Whether audio ran dry in the middle of playback.
    pub open spec fn underrun(self, buffered: u32) -> bool {
        &&& self.core.audio_stream_expected
        &&& self.core.state != PlaybackState::Paused
        &&& self.sink_started()
        &&& self.audio.len() == 0
        &&& buffered == 0
        &&& !self.can_finish(0)
    }

    /// After an underrun the video clock takes over where audio stopped.
    #[verifier::opaque]
    pub open spec fn underrun_bridged(self, now: Instant, buffered: u32) -> Self {
        if self.underrun(buffered) {
            let c = self.core;
            let position = self.master_or_start(now, buffered);
            self.with(
                SessionCore {
                    metrics: PlaybackMetrics {
                        audio_underruns: counted(c.metrics.audio_underruns),
                        ..c.metrics
                    },
                    audio: AudioController::unanchored(),
                    video_clock: match c.video_clock {
                        Some(clock) => Some(clock),
                        None => Some(
                            PlaybackClock { started: now, base: position, rate: c.playback_rate },
                        ),
                    },
                    ..c
                },
            )
        } else {
            self
        }
    }

    /// With the sink paused once all audio has been played.
    #[verifier::opaque]
    pub open spec fn drained_sink_paused(self, buffered: u32) -> Self {
        if self.core.audio_stream_expected && self.core.audio_stream_ended && self.audio.len() == 0
            && (self.core.state == PlaybackState::Draining || self.core.state
            == PlaybackState::Playing) && buffered == 0 {
            self.sink_paused()
        } else {
            self
        }
    }

    /// Audio that plays ends the priming.
    #[verifier::opaque]
    pub open spec fn playing_on_anchor(self) -> Self {
        if self.core.audio_stream_expected && self.core.audio.clock_anchor_pts is Some
            && self.core.state == PlaybackState::Priming {
            self.with(SessionCore { state: PlaybackState::Playing, ..self.core })
        } else {
            self
        }
    }

    /// After a round of audio submission.
    #[verifier::opaque]
    pub open spec fn audio_submitted(
        self,
        batch: AudioBatch,
        failed: bool,
        now: Instant,
        buffered: u32,
    ) -> Self {
        let a = self.anchored(batch);
        if !self.audio_flows() {
            self
        } else if failed {
            a.audio_recovered(now, buffered)
        } else {
            let b = a.with(SessionCore { cached_buffered_frames: Some(buffered), ..a.core });
            b.underrun_bridged(now, buffered).drained_sink_paused(buffered).playing_on_anchor()
        }
    }

    /// Whether the picture and the sound of the last seek are there.
    pub open spec fn seek_settled(self) -> bool {
        self.core.seek_frame_presented_since_request && (!self.core.audio_stream_expected
            || self.core.audio.clock_anchor_pts is Some)
    }

    /// At the end of a tick: reminders that were met are dropped, a settled
    /// seek is over, and playback that is played out ends or starts again.
    #[verifier::opaque]
    pub open spec fn tick_finished(self, devices: DeviceView) -> Self {
        let c = self.core;
        let settled = c.metrics.pending_seek_settled && self.seek_settled();
        let m = self.with(c.reminders_dropped(settled, devices.surface_selected));
        if m.can_finish(devices.buffered_frames) {
            if c.clip_range.auto_replay || c.clip_range.loop_range {
                m.replayed()
            } else {
                m.with(SessionCore { state: PlaybackState::Ended, ..m.core })
            }
        } else {
            m
        }
    }

    /// After a file was chosen.
    #[verifier::opaque]
    pub open spec fn opened(
        self,
        source: Seq<char>,
        start: Option<Duration>,
        preference: VideoDecodePreference,
        subtitle_loaded: bool,
    ) -> Self {
        let c = self.core.opening(preference, subtitle_loaded);
        SessionModel { core: c, source: Some(source), ..self }.begun(
            start,
            c.generations.open,
            c.generations.seek,
            OperationId(c.operation_clock.last),
            PlaybackState::Opening,
            true,
            true,
        )
    }

    /// The position that subtitles go by. After a seek they stay at its target
    /// until the clock has come within a second of it.
    pub open spec fn subtitle_at(self, now: Instant, buffered: u32) -> Duration {
        match self.core.pending_seek_target {
            Some(target) => target.position,
            None => {
                let master = self.master_or_start(now, buffered);
                match self.core.overlay.subtitle_clock_base {
                    Some(base) if clamp_nanos(master@ + 1_000_000_000) < base@ => base,
                    _ => master,
                }
            },
        }
    }

    /// After the shown subtitle was brought up to date, or could not be.
    #[verifier::opaque]
    pub open spec fn subtitle_shown(self, viewport: Size, cue: Option<usize>, shown: bool) -> Self {
        let step = self.core.overlay.subtitle_step(viewport, cue);
        self.with(
            SessionCore {
                overlay: self.core.overlay.subtitle_updated(viewport, cue, shown),
                present_needed: self.core.present_needed || (step.presents() && (shown
                    || !(step is Show))),
                ..self.core
            },
        )
    }

    /// After a volume display whose time is over was removed, which may have
    /// changed the picture, or could not be.
    #[verifier::opaque]
    pub open spec fn volume_checked(self, now: Instant, outcome: Result<bool, String>) -> Self {
        let changed = self.core.overlay.volume_is_over(now) && outcome == Ok::<bool, String>(true);
        self.with(
            SessionCore {
                overlay: self.core.overlay.volume_refreshed(now, outcome is Ok),
                present_needed: self.core.present_needed || changed,
                ..self.core
            },
        )
    }

    /// Whether the subtitle clock still waits at the target of a seek.
    pub open spec fn subtitle_waits(self, now: Instant, buffered: u32) -> bool {
        self.core.overlay.subtitle_clock_base matches Some(base) && clamp_nanos(
            self.master_or_start(now, buffered)@ + 1_000_000_000,
        ) < base@
    }

    /// After the subtitle position was asked for.
    #[verifier::opaque]
    pub open spec fn subtitle_clock_checked(self, now: Instant, buffered: u32) -> Self {
        if self.core.pending_seek_target is Some || self.subtitle_waits(now, buffered) {
            self
        } else {
            self.with(
                SessionCore {
                    overlay: OverlayManager { subtitle_clock_base: None, ..self.core.overlay },
                    ..self.core
                },
            )
        }
    }
}

/// Half a length, and at least one.
pub open spec fn half_at_least_one(n: u32) -> u32 {
    if n / 2 >= 1 {
        n / 2
    } else {
        1
    }
}

} // verus!
