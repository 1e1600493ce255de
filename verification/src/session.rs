//! The coordinator of playback. It owns every decision; what it decides is left
//! in a list of actions that the program around it carries out in order before
//! the next call.
use std::collections::VecDeque;
use vstd::prelude::*;
use crate::audio_controller::AudioController;
use crate::clip_range::ClipRangeState;
use crate::clock::{PlaybackClock, PlaybackRate};
use crate::commands::SessionCommand;
use crate::decode_thread::DecodeThreadHandle;
use crate::drop_stats::VideoDropBuckets;
use crate::generations::{GenerationState, OpenGeneration, OperationClock, OperationId, SeekGeneration};
use crate::media::{
    DecodedVideoFrame, PlaybackSnapshot, PositionKind, SeekTarget, VideoDecodePreference,
};
use crate::overlay::OverlayManager;
use crate::session_model::{
    frames_span, opt_text, releases, DeviceView, PlaybackMetrics, QueuedAudioFrame, SessionAction,
    SessionCore, SessionModel, SinkCall, SinkRefused, SinkState, DEFAULT_FRAME_STEP_NANOS,
    MAX_OBSERVED_FRAME_INTERVAL_NANOS, REPLAY_INDICATOR_NANOS, VOLUME_OVERLAY_NANOS,
};
use crate::state::PlaybackState;
use crate::time::{Duration, Instant, MAX_NANOS};
use crate::video_queue::VideoFrameQueue;
use crate::viewport::ViewportState;

verus! {

/// A playback session.
#[derive(Debug)]
pub struct PlaybackSession {
    pub core: SessionCore,
    pub source: Option<String>,
    pub video_queue: VideoFrameQueue,
    pub audio_queue: VecDeque<QueuedAudioFrame>,
    pub audio_capacity: usize,
    pub actions: Vec<SessionAction>,
    pub last_error: Option<String>,
    pub sink_error: Option<String>,
}

impl View for PlaybackSession {
    type V = SessionModel;

    open spec fn view(&self) -> SessionModel {
        SessionModel {
            core: self.core,
            source: opt_text(self.source),
            video: self.video_queue@,
            video_capacity: self.video_queue.capacity,
            audio: self.audio_queue@,
            audio_capacity: self.audio_capacity,
            actions: self.actions@,
            last_error: opt_text(self.last_error),
            sink_error: opt_text(self.sink_error),
        }
    }
}

/// Nanoseconds that a number of audio frames lasts.
pub(crate) fn frames_duration(frames: u64, sample_rate: u32) -> (r: Duration)
    requires
        sample_rate > 0,
    ensures
        r@ == frames_span(frames as int, sample_rate),
        r@ >= 0,
{
    let n: u128 = frames as u128 * 1_000_000_000;
    let rate: u128 = sample_rate as u128;
    let below: u128 = n / rate;
    let rest: u128 = n % rate;
    if 2 * rest > rate || (2 * rest == rate && below % 2 == 1) {
        Duration { nanos: below + 1 }
    } else {
        Duration { nanos: below }
    }
}

/// Clears clocks and counters for another operation.
fn prepare_core(c: SessionCore, rebuild_audio_sink: bool, reset_audio_expectation: bool) -> (r:
    SessionCore)
    ensures
        r == c.prepared(rebuild_audio_sink, reset_audio_expectation),
        r.playback_rate == c.playback_rate,
        r.video_clock is None,
        r.clip_range == c.clip_range,
        r.audio.wf(),
{
    proof {
        reveal(SessionCore::prepared);
    }
    SessionCore {
        video_clock: None,
        media_time_origin_pts: if reset_audio_expectation {
            None
        } else {
            c.media_time_origin_pts
        },
        seek_discard_before_pts: if reset_audio_expectation {
            None
        } else {
            c.seek_discard_before_pts
        },
        paused_clock_position: None,
        audio: AudioController::new(),
        drop_buckets: VideoDropBuckets {
            queue_overflow: 0,
            surface_mismatch: 0,
            scheduler_late: 0,
        },
        metrics: PlaybackMetrics {
            presented_video_frames: 0,
            dropped_video_frames: 0,
            audio_underruns: 0,
            ..c.metrics
        },
        video_stream_ended: false,
        audio_stream_ended: false,
        active_decode_mode: None,
        overlay: OverlayManager {
            volume_overlay_until: None,
            subtitle_clock_base: None,
            active_subtitle_cue: None,
            active_subtitle_viewport: None,
            ..c.overlay
        },
        audio_stream_expected: !reset_audio_expectation && c.audio_stream_expected,
        sink: match c.sink {
            Some(s) => if rebuild_audio_sink {
                None
            } else {
                Some(SinkState { started: false, sample_rate: s.sample_rate })
            },
            None => None,
        },
        ..c
    }
}

/// Marks a seek as pending.
fn mark_seek_pending(c: SessionCore, target: SeekTarget, absolute: Duration) -> (r: SessionCore)
    ensures
        r == c.seek_pending(target, absolute),
        r.playback_rate == c.playback_rate,
        r.video_clock == c.video_clock,
        r.clip_range == c.clip_range,
        r.audio == c.audio,
{
    proof {
        reveal(SessionCore::seek_pending);
    }
    SessionCore {
        pending_seek_target: Some(target),
        seek_discard_before_pts: Some(absolute),
        overlay: OverlayManager { subtitle_clock_base: Some(target.position()), ..c.overlay },
        metrics: PlaybackMetrics {
            pending_seek_first_frame: true,
            pending_seek_settled: true,
            ..c.metrics
        },
        seek_frame_presented_since_request: false,
        ..c
    }
}

impl PlaybackSession {
    pub open spec fn wf(self) -> bool {
        self@.wf()
    }

    /// A session that has nothing open.
    pub fn new(video_capacity: usize, audio_capacity: usize) -> (r: Self)
        ensures
            r.wf(),
            r@ == SessionModel::initial(video_capacity, audio_capacity),
    {
        let session = PlaybackSession {
            core: SessionCore {
                state: PlaybackState::Idle,
                generations: GenerationState::new(),
                operation_clock: OperationClock::new(),
                active_operation_id: None,
                decode_preference: VideoDecodePreference::Auto,
                decode_thread: DecodeThreadHandle::new(),
                sink: None,
                video_clock: None,
                media_time_origin_pts: None,
                paused_clock_position: None,
                audio: AudioController::new(),
                media_duration: None,
                pending_seek_target: None,
                seek_discard_before_pts: None,
                seek_frame_presented_since_request: false,
                audio_stream_expected: false,
                overlay: OverlayManager::new(),
                drop_buckets: VideoDropBuckets {
                    queue_overflow: 0,
                    surface_mismatch: 0,
                    scheduler_late: 0,
                },
                video_stream_ended: false,
                audio_stream_ended: false,
                active_decode_mode: None,
                present_needed: true,
                screenshot_pending: false,
                observed_frame_interval: None,
                last_presented_media_position: None,
                viewport: ViewportState::new(),
                needs_initial_resize: false,
                has_shown_content: false,
                pause_after_seek: false,
                playback_rate: PlaybackRate::normal(),
                clip_range: ClipRangeState::new(),
                idle_pace_requested: false,
                tick_active: false,
                cached_buffered_frames: None,
                metrics: PlaybackMetrics {
                    measure_open_audio: false,
                    pending_first_frame: false,
                    pending_first_audio: false,
                    pending_seek_first_frame: false,
                    pending_seek_settled: false,
                    presented_video_frames: 0,
                    dropped_video_frames: 0,
                    audio_underruns: 0,
                    hw_fallback_count: 0,
                },
            },
            source: None,
            video_queue: VideoFrameQueue::with_capacity(video_capacity),
            audio_queue: VecDeque::new(),
            audio_capacity,
            actions: Vec::new(),
            last_error: None,
            sink_error: None,
        };
        proof {
            assert(session@ =~= SessionModel::initial(video_capacity, audio_capacity));
        }
        session
    }

    /// Hands out the actions that have to be carried out.
    pub fn take_actions(&mut self) -> (r: Vec<SessionAction>)
        ensures
            r@ == old(self)@.actions,
            final(self)@ == (SessionModel { actions: Seq::empty(), ..old(self)@ }),
    {
        let mut out: Vec<SessionAction> = Vec::new();
        out.append(&mut self.actions);
        proof {
            assert(out@ =~= old(self)@.actions);
            assert(self@ =~= (SessionModel { actions: Seq::empty(), ..old(self)@ }));
        }
        out
    }

    /// Whether stamps are those of the current operation.
    pub fn is_current_frame(
        &self,
        open_gen: OpenGeneration,
        seek_gen: SeekGeneration,
        op_id: OperationId,
    ) -> (r: bool)
        ensures
            r == self@.is_current(open_gen, seek_gen, op_id),
    {
        open_gen == self.core.generations.open && seek_gen == self.core.generations.seek
            && self.is_active_operation(op_id)
    }

    fn is_active_operation(&self, op_id: OperationId) -> (r: bool)
        ensures
            r == (self@.core.active_operation_id == Some(op_id)),
    {
        match self.core.active_operation_id {
            Some(active) => active == op_id,
            None => false,
        }
    }

    /// The position of a time stamp, counted from the first one seen.
    pub fn media_time_for_pts(&self, pts: Duration) -> (r: Duration)
        ensures
            r == self@.media_time(pts),
    {
        match self.core.media_time_origin_pts {
            Some(origin) => pts.saturating_sub(origin),
            None => Duration::zero(),
        }
    }

    /// The time stamp that a position stands for.
    pub fn absolute_media_position(&self, position: Duration) -> (r: Duration)
        ensures
            r == self@.absolute(position),
    {
        match self.core.media_time_origin_pts {
            Some(origin) => origin.saturating_add(position),
            None => position,
        }
    }

    /// The position of the master clock.
    pub fn master_clock_position(&self, now: Instant, buffered: u32) -> (r: Option<Duration>)
        ensures
            r == self@.master(now, buffered),
    {
        if self.core.paused_clock_position.is_some() {
            return self.core.paused_clock_position;
        }
        if let (Some(anchor), Some(sink)) = (self.core.audio.clock_anchor_pts, self.core.sink) {
            if sink.started && sink.sample_rate > 0 {
                let played: u64 = self.core.audio.played_frames(buffered as u64);
                let span = frames_duration(played, sink.sample_rate);
                return Some(self.media_time_for_pts(anchor).saturating_add(span));
            }
        }
        match self.core.video_clock {
            Some(clock) => Some(clock.position_at(now)),
            None => None,
        }
    }

    /// The position to show.
    pub fn snapshot(&self, now: Instant, buffered: u32) -> (r: PlaybackSnapshot)
        ensures
            r == self@.shown(now, buffered),
    {
        match self.core.pending_seek_target {
            Some(target) => PlaybackSnapshot {
                position: target.position(),
                kind: PositionKind::PendingSeekTarget,
            },
            None => PlaybackSnapshot {
                position: match self.master_clock_position(now, buffered) {
                    Some(p) => p,
                    None => Duration::zero(),
                },
                kind: PositionKind::SettledPlaybackClock,
            },
        }
    }

    pub(crate) fn clear_video_queue(&mut self)
        requires
            old(self).wf(),
        ensures
            final(self)@ == old(self)@.video_cleared(),
            final(self).wf(),
    {
        proof {
            reveal(SessionModel::video_cleared);
        }
        let ghost start = self@;
        let ghost mut done: int = 0;
        proof {
            assert(start.video.take(0) =~= Seq::<DecodedVideoFrame>::empty());
            assert(start.video.skip(0) =~= start.video);
            assert(start.actions + releases(start.video.take(0)) =~= start.actions);
            assert(self@ =~= (SessionModel {
                video: start.video.skip(0),
                actions: start.actions + releases(start.video.take(0)),
                ..start
            }));
        }
        while self.video_queue.len() > 0
            invariant
                start.wf(),
                0 <= done <= start.video.len(),
                self@ == (SessionModel {
                    video: start.video.skip(done),
                    actions: start.actions + releases(start.video.take(done)),
                    ..start
                }),
            decreases start.video.len() - done,
        {
            let ghost before = self@;
            if let Some(frame) = self.video_queue.pop_front() {
                self.actions.push(SessionAction::ReleaseSurface(frame.surface));
                proof {
                    assert(before.video.drop_first() =~= start.video.skip(done + 1));
                    assert(releases(start.video.take(done + 1)) =~= releases(
                        start.video.take(done),
                    ).push(SessionAction::ReleaseSurface(frame.surface)));
                    done = done + 1;
                    assert(self@ =~= (SessionModel {
                        video: start.video.skip(done),
                        actions: start.actions + releases(start.video.take(done)),
                        ..start
                    }));
                }
            }
        }
        proof {
            assert(done == start.video.len());
            assert(start.video.take(done) =~= start.video);
            assert(self@ =~= start.video_cleared());
        }
    }

    pub(crate) fn pause_started_sink(&mut self)
        ensures
            final(self)@ == old(self)@.sink_paused(),
            old(self).wf() ==> final(self).wf(),
    {
        proof {
            reveal(SessionModel::sink_paused);
        }
        if let Some(sink) = self.core.sink {
            if sink.started {
                let c = self.core;
                self.core = SessionCore {
                    sink: Some(SinkState { started: false, sample_rate: sink.sample_rate }),
                    ..c
                };
                self.actions.push(SessionAction::PauseAudioSink);
            }
        }
    }

    fn halt_started_sink(&mut self)
        ensures
            final(self)@ == old(self)@.sink_halted(),
            old(self).wf() ==> final(self).wf(),
    {
        proof {
            reveal(SessionModel::sink_halted);
        }
        if let Some(sink) = self.core.sink {
            if sink.started {
                let c = self.core;
                self.core = SessionCore {
                    sink: Some(SinkState { started: false, sample_rate: sink.sample_rate }),
                    ..c
                };
            }
        }
    }

    fn is_sink_started(&self) -> (r: bool)
        ensures
            r == self@.sink_started(),
    {
        match self.core.sink {
            Some(sink) => sink.started,
            None => false,
        }
    }

    pub(crate) fn teardown_decoder(&mut self, wait: bool)
        ensures
            final(self)@ == old(self)@.torn_down(wait),
            old(self).wf() ==> final(self).wf(),
    {
        proof {
            reveal(SessionModel::torn_down);
        }
        let c = self.core;
        let mut handle = c.decode_thread;
        let control = handle.teardown();
        self.core = SessionCore { decode_thread: handle, ..c };
        self.actions.push(SessionAction::StopDecoder { control, wait });
    }

    /// Registers a decode worker and asks for it to be started.
    pub(crate) fn spawn_decode_thread(
        &mut self,
        start: Option<Duration>,
        open_gen: OpenGeneration,
        seek_gen: SeekGeneration,
        op_id: OperationId,
    )
        ensures
            final(self)@ == old(self)@.spawned(start, open_gen, seek_gen, op_id),
            old(self).wf() ==> final(self).wf(),
    {
        proof {
            reveal(SessionModel::spawned);
        }
        let c = self.core;
        let preference = c.decode_preference;
        let mut handle = c.decode_thread;
        let _ = handle.prepare_spawn(op_id.0, preference);
        self.core = SessionCore { decode_thread: handle, ..c };
        self.actions.push(
            SessionAction::SpawnDecoder { start, open_gen, seek_gen, op_id, preference },
        );
    }

    fn prepare_runtime_for_operation_inner(
        &mut self,
        rebuild_audio_sink: bool,
        reset_audio_expectation: bool,
        reset_surfaces: bool,
    )
        requires
            old(self).wf(),
        ensures
            final(self)@ == old(self)@.prepared(
                rebuild_audio_sink,
                reset_audio_expectation,
                reset_surfaces,
            ),
            final(self).wf(),
    {
        proof {
            reveal(SessionModel::video_cleared);
            reveal(SessionModel::prepared);
        }
        let ghost start = self@;
        self.clear_video_queue();
        self.audio_queue.clear();
        if reset_surfaces {
            self.actions.push(SessionAction::ResetSurfaces);
            self.actions.push(SessionAction::ClearTimelineOverlay);
            self.actions.push(SessionAction::ClearVolumeOverlay);
        }
        self.actions.push(SessionAction::ClearSubtitleOverlay);
        let c = self.core;
        self.core = prepare_core(c, rebuild_audio_sink, reset_audio_expectation);
        if rebuild_audio_sink {
            self.sink_error = None;
            self.actions.push(SessionAction::RebuildAudioSink);
        } else if c.sink.is_some() {
            if c.pause_after_seek {
                self.actions.push(SessionAction::PauseAudioSink);
            } else {
                self.actions.push(SessionAction::ResetAudioSink);
            }
        }
        proof {
            let want = start.prepared(rebuild_audio_sink, reset_audio_expectation, reset_surfaces);
            assert(self@.actions =~= want.actions);
            assert(self@.audio =~= want.audio);
        }
    }

    pub(crate) fn begin_operation(
        &mut self,
        start: Option<Duration>,
        open_gen: OpenGeneration,
        seek_gen: SeekGeneration,
        op_id: OperationId,
        next_state: PlaybackState,
        rebuild_audio_sink: bool,
        reset_audio_expectation: bool,
    )
        requires
            old(self).wf(),
        ensures
            final(self)@ == old(self)@.begun(
                start,
                open_gen,
                seek_gen,
                op_id,
                next_state,
                rebuild_audio_sink,
                reset_audio_expectation,
            ),
            final(self).wf(),
    {
        proof {
            reveal(SessionModel::torn_down);
            reveal(SessionModel::begun);
            reveal(SessionModel::spawned);
        }
        self.teardown_decoder(false);
        self.prepare_runtime_for_operation_inner(rebuild_audio_sink, reset_audio_expectation, true);
        let ghost p = self@;
        let c = self.core;
        self.core = SessionCore { state: next_state, active_operation_id: Some(op_id), ..c };
        self.last_error = None;
        proof {
            assert(self@ == (SessionModel {
                core: SessionCore { state: next_state, active_operation_id: Some(op_id), ..p.core },
                last_error: None,
                ..p
            }));
        }
        self.spawn_decode_thread(start, open_gen, seek_gen, op_id);
    }

    pub(crate) fn next_seek(&mut self) -> (r: (SeekGeneration, OperationId))
        ensures
            final(self)@ == old(self)@.next_seek(),
            r.0 == final(self)@.core.generations.seek,
            r.1 == final(self)@.last_operation(),
            old(self).wf() ==> final(self).wf(),
    {
        proof {
            reveal(SessionModel::next_seek);
        }
        let c = self.core;
        let mut generations = c.generations;
        let mut operation_clock = c.operation_clock;
        let seek_gen = generations.bump_seek();
        let op_id = operation_clock.next();
        self.core = SessionCore {
            generations,
            operation_clock,
            metrics: PlaybackMetrics { measure_open_audio: false, ..c.metrics },
            ..c
        };
        (seek_gen, op_id)
    }

    fn execute_seek(&mut self, target: SeekTarget)
        requires
            old(self).wf(),
        ensures
            final(self)@ == old(self)@.seek_executed(target),
            final(self).wf(),
    {
        proof {
            reveal(SessionModel::next_seek);
            reveal(SessionModel::prepared);
            reveal(SessionModel::seek_executed);
            reveal(SessionModel::torn_down);
            reveal(SessionModel::spawned);
        }
        let ghost start = self@;
        let absolute = self.absolute_media_position(target.position());
        let (seek_gen, op_id) = self.next_seek();
        self.prepare_runtime_for_operation_inner(false, false, false);
        let ghost p = self@;
        let c = self.core;
        self.core = SessionCore {
            state: PlaybackState::Seeking,
            active_operation_id: Some(op_id),
            ..c
        };
        self.last_error = None;
        let ghost q = SessionModel {
            core: p.core.entered(PlaybackState::Seeking, op_id),
            last_error: None,
            ..p
        };
        proof {
            assert(self@ == q);
        }
        let open_gen = self.core.generations.open;
        if self.core.decode_thread.serves(self.core.decode_preference) {
            if let Some(control) = self.core.decode_thread.control() {
                self.actions.push(
                    SessionAction::SeekDecoder { control, target: absolute, seek_gen, op_id },
                );
            }
        } else {
            self.teardown_decoder(false);
            self.spawn_decode_thread(Some(absolute), open_gen, seek_gen, op_id);
        }
        let c = self.core;
        self.core = mark_seek_pending(c, target, absolute);
    }

    /// Seeks, unless nothing is open or a file is just being opened. The target
    /// is no further than the end.
    pub fn seek(&mut self, target: SeekTarget)
        requires
            old(self).wf(),
        ensures
            final(self)@ == old(self)@.sought(target),
            final(self).wf(),
    {
        proof {
            reveal(SessionModel::sought);
        }
        if self.source.is_none() {
            return;
        }
        match self.core.state {
            PlaybackState::Idle | PlaybackState::Opening | PlaybackState::Error => {
                return;
            },
            _ => {},
        }
        let clamped = self.clamp_position(target.position());
        self.execute_seek(SeekTarget::new(clamped))
    }

    fn clamp_position(&self, position: Duration) -> (r: Duration)
        ensures
            r == self@.clamped(position),
    {
        match self.core.media_duration {
            Some(end) => if position.nanos > end.nanos {
                end
            } else {
                position
            },
            None => position,
        }
    }

    /// Seeks during a scrub; the picture that arrives is held if asked.
    pub fn scrub_seek(&mut self, target: SeekTarget, pause_after: bool)
        requires
            old(self).wf(),
        ensures
            final(self)@ == old(self)@.with(
                SessionCore { pause_after_seek: pause_after, ..old(self)@.core },
            ).sought(target),
            final(self).wf(),
    {
        let c = self.core;
        self.core = SessionCore { pause_after_seek: pause_after, ..c };
        self.seek(target)
    }

    pub(crate) fn replay(&mut self)
        requires
            old(self).wf(),
        ensures
            final(self)@ == old(self)@.replayed(),
            final(self).wf(),
    {
        proof {
            reveal(SessionModel::replayed);
        }
        let start = self.core.clip_range.replay_position();
        self.seek(SeekTarget::new(start))
    }

    fn toggle_pending_seek_pause(&mut self, now: Instant, buffered: u32, sink_obeyed: bool)
        requires
            old(self).wf(),
        ensures
            final(self)@ == old(self)@.pending_seek_pause_toggled(now, buffered, sink_obeyed),
            final(self).wf(),
    {
        proof {
            reveal(SessionModel::pending_seek_pause_toggled);
        }
        let c = self.core;
        if !c.pause_after_seek {
            self.core = SessionCore { pause_after_seek: true, ..c };
            if sink_obeyed {
                self.halt_started_sink();
            }
            return;
        }
        let position = self.snapshot(now, buffered).position;
        let target = match c.clip_range.resume_target(position) {
            Some(t) => t,
            None => position,
        };
        self.core = SessionCore { pause_after_seek: false, ..c };
        self.seek(SeekTarget::new(target))
    }

    pub(crate) fn are_streams_exhausted(&self) -> (r: bool)
        ensures
            r == self@.streams_exhausted(),
    {
        self.core.video_stream_ended && self.video_queue.len() == 0 && (
        !self.core.audio_stream_expected || (self.core.audio_stream_ended && self.audio_queue.len()
            == 0))
    }

    fn resume_playback(&mut self, now: Instant, surface_selected: bool, sink_obeyed: bool)
        requires
            old(self).wf(),
        ensures
            final(self)@ == old(self)@.resumed(now, surface_selected, sink_obeyed),
            final(self).wf(),
    {
        proof {
            reveal(SessionModel::resumed);
        }
        let c = self.core;
        let next = if surface_selected {
            PlaybackState::Playing
        } else {
            PlaybackState::Priming
        };
        if !c.audio.is_clock_anchored() {
            let position = match c.paused_clock_position {
                Some(p) => p,
                None => Duration::zero(),
            };
            self.core = SessionCore {
                video_clock: Some(PlaybackClock::new(now, position, c.playback_rate)),
                paused_clock_position: None,
                state: next,
                ..c
            };
        } else if let Some(sink) = c.sink {
            if sink_obeyed {
                self.core = SessionCore {
                    sink: Some(SinkState { started: true, sample_rate: sink.sample_rate }),
                    paused_clock_position: None,
                    state: next,
                    ..c
                };
            }
        } else {
            self.core = SessionCore { paused_clock_position: None, state: next, ..c };
        }
    }

    fn pause_playback(&mut self, now: Instant, buffered: u32, sink_obeyed: bool)
        requires
            old(self).wf(),
        ensures
            final(self)@ == old(self)@.paused(now, buffered, sink_obeyed),
            final(self).wf(),
    {
        proof {
            reveal(SessionModel::paused);
        }
        let position = self.master_clock_position(now, buffered);
        let c = self.core;
        self.core = SessionCore { paused_clock_position: position, ..c };
        if self.is_sink_started() && !sink_obeyed {
            return;
        }
        self.halt_started_sink();
        let c = self.core;
        self.core = SessionCore { state: PlaybackState::Paused, ..c };
    }

    fn toggle_pause(&mut self, now: Instant, devices: DeviceView)
        requires
            old(self).wf(),
        ensures
            final(self)@ == old(self)@.pause_toggled(now, devices),
            final(self).wf(),
    {
        proof {
            reveal(SessionModel::pause_toggled);
        }
        let buffered = devices.buffered_frames;
        let c = self.core;
        match c.state {
            PlaybackState::Seeking => {
                self.toggle_pending_seek_pause(now, buffered, devices.sink_obeyed);
            },
            PlaybackState::Priming => {
                if c.pending_seek_target.is_some() {
                    self.toggle_pending_seek_pause(now, buffered, devices.sink_obeyed);
                } else {
                    self.pause_playback(now, buffered, devices.sink_obeyed);
                }
            },
            PlaybackState::Playing | PlaybackState::Draining => {
                self.pause_playback(now, buffered, devices.sink_obeyed);
            },
            PlaybackState::Paused => {
                let position = self.snapshot(now, buffered).position;
                if let Some(target) = c.clip_range.resume_target(position) {
                    self.core = SessionCore { pause_after_seek: false, ..c };
                    self.seek(SeekTarget::new(target));
                } else if self.are_streams_exhausted() {
                    self.replay();
                } else {
                    self.resume_playback(now, devices.surface_selected, devices.sink_obeyed);
                }
            },
            PlaybackState::Ended => {
                self.replay();
            },
            _ => {},
        }
    }

    /// What the pause key asks of the sink.
    fn pause_call(&self, now: Instant, buffered: u32) -> (r: SinkCall)
        ensures
            r == self@.toggle_call(now, buffered),
    {
        let c = self.core;
        let pauses = match c.state {
            PlaybackState::Seeking => !c.pause_after_seek,
            PlaybackState::Priming => c.pending_seek_target.is_none() || !c.pause_after_seek,
            PlaybackState::Playing | PlaybackState::Draining => true,
            _ => false,
        };
        if pauses && self.is_sink_started() {
            return SinkCall::Pause;
        }
        match c.state {
            PlaybackState::Paused => {
                let position = self.snapshot(now, buffered).position;
                if c.clip_range.resume_target(position).is_none() && !self.are_streams_exhausted()
                    && c.audio.is_clock_anchored() && c.sink.is_some() {
                    SinkCall::Resume
                } else {
                    SinkCall::Nothing
                }
            },
            _ => SinkCall::Nothing,
        }
    }

    fn is_step_toggling(&self) -> (r: bool)
        ensures
            r == self@.step_toggles(),
    {
        if self.source.is_none() {
            return false;
        }
        match self.core.state {
            PlaybackState::Paused | PlaybackState::Ended => false,
            _ => true,
        }
    }

    /// What a command asks of the sink before it is carried out.
    pub fn sink_call(&self, command: SessionCommand, now: Instant, buffered: u32) -> (r: SinkCall)
        ensures
            r == self@.sink_call(command, now, buffered),
    {
        match command {
            SessionCommand::TogglePause => self.pause_call(now, buffered),
            SessionCommand::StepFrameForward | SessionCommand::StepFrameBackward => {
                if self.is_step_toggling() {
                    self.pause_call(now, buffered)
                } else {
                    SinkCall::Nothing
                }
            },
            _ => SinkCall::Nothing,
        }
    }

    fn frame_step_duration(&self) -> (r: Duration)
        ensures
            r == self@.frame_step(),
    {
        if let Some(interval) = self.core.observed_frame_interval {
            return interval;
        }
        let len: usize = self.video_queue.len();
        let mut at: usize = 1;
        while at < len
            invariant
                1 <= at,
                len == self@.video.len(),
                self.core.observed_frame_interval is None,
                self@.queued_interval(1) == self@.queued_interval(at as int),
            decreases len - at,
        {
            let earlier = self.media_time_for_pts(self.video_queue.frames[at - 1].pts);
            let later = self.media_time_for_pts(self.video_queue.frames[at].pts);
            let gap = later.saturating_sub(earlier);
            if !gap.is_zero() && gap.nanos <= MAX_OBSERVED_FRAME_INTERVAL_NANOS {
                return gap;
            }
            at = at + 1;
        }
        Duration { nanos: DEFAULT_FRAME_STEP_NANOS }
    }

    fn step_position(&self, forward: bool, now: Instant, buffered: u32) -> (r: Duration)
        ensures
            r == self@.step_target(forward, now, buffered),
    {
        let current = match self.core.pending_seek_target {
            Some(target) => target.position(),
            None => match self.core.last_presented_media_position {
                Some(p) => p,
                None => self.snapshot(now, buffered).position,
            },
        };
        let step = self.frame_step_duration();
        let target = if forward {
            current.saturating_add(step)
        } else {
            current.saturating_sub(step)
        };
        self.clamp_position(target)
    }

    fn step_frame(&mut self, forward: bool, now: Instant, devices: DeviceView)
        requires
            old(self).wf(),
        ensures
            final(self)@ == old(self)@.frame_stepped(forward, now, devices),
            final(self).wf(),
    {
        proof {
            reveal(SessionModel::frame_stepped);
        }
        if self.source.is_none() {
            return;
        }
        if self.is_step_toggling() {
            let call = self.pause_call(now, devices.buffered_frames);
            self.toggle_pause(now, devices);
            if !devices.sink_obeyed && call != SinkCall::Nothing {
                return;
            }
        }
        let target = self.step_position(forward, now, devices.buffered_frames);
        let c = self.core;
        self.core = SessionCore { pause_after_seek: true, ..c };
        self.seek(SeekTarget::new(target))
    }

    fn change_rate(&mut self, rate: PlaybackRate)
        requires
            old(self).wf(),
            rate.hundredths > 0,
        ensures
            final(self)@ == old(self)@.rate_changed(rate),
            final(self).wf(),
    {
        proof {
            reveal(SessionModel::rate_changed);
        }
        let c = self.core;
        if rate.hundredths == c.playback_rate.hundredths {
            return;
        }
        self.core = SessionCore {
            playback_rate: rate,
            video_clock: None,
            audio: AudioController::new(),
            ..c
        };
        self.audio_queue.clear();
        self.actions.push(SessionAction::UpdateWindowTitle);
        proof {
            assert(self@.audio =~= Seq::empty());
        }
    }

    pub(crate) fn set_core(&mut self, core: SessionCore)
        requires
            old(self).wf(),
            core.playback_rate == old(self).core.playback_rate,
            core.video_clock == old(self).core.video_clock,
            core.audio == old(self).core.audio,
            core.clip_range.wf(),
        ensures
            final(self)@ == old(self)@.with(core),
            final(self).wf(),
    {
        self.core = core;
    }

    pub(crate) fn push_action(&mut self, action: SessionAction)
        ensures
            final(self)@ == old(self)@.act(action),
            old(self).wf() ==> final(self).wf(),
    {
        self.actions.push(action);
    }

    fn apply_view_command(&mut self, command: SessionCommand, now: Instant, devices: DeviceView)
        requires
            old(self).wf(),
            now@ <= MAX_NANOS,
            is_view_command(command),
        ensures
            final(self)@ == old(self)@.commanded(command, now, devices),
            final(self).wf(),
    {
        proof {
            reveal(SessionModel::commanded);
        }
        let c = self.core;
        match command {
            SessionCommand::RotateClockwise => {
                let mut viewport = c.viewport;
                viewport.rotate(1);
                self.set_core(SessionCore { viewport, present_needed: true, ..c });
            },
            SessionCommand::RotateCounterClockwise => {
                let mut viewport = c.viewport;
                viewport.rotate(3);
                self.set_core(SessionCore { viewport, present_needed: true, ..c });
            },
            SessionCommand::ResetView => {
                let mut viewport = c.viewport;
                viewport.reset();
                self.set_core(SessionCore { viewport, present_needed: true, ..c });
                self.push_action(SessionAction::ResetZoom);
            },
            SessionCommand::ShowHelp => {
                if let Some(size) = devices.viewport {
                    self.set_core(SessionCore { present_needed: true, ..c });
                    self.push_action(SessionAction::ShowHelp(size));
                }
            },
            SessionCommand::HideHelp => {
                self.set_core(SessionCore { present_needed: true, ..c });
                self.push_action(SessionAction::HideHelp);
            },
            _ => {},
        }
    }

    fn apply_window_command(&mut self, command: SessionCommand, now: Instant, devices: DeviceView)
        requires
            old(self).wf(),
            now@ <= MAX_NANOS,
            is_window_command(command),
        ensures
            final(self)@ == old(self)@.commanded(command, now, devices),
            final(self).wf(),
    {
        proof {
            reveal(SessionModel::commanded);
        }
        let viewport = self.core.viewport;
        match command {
            SessionCommand::ToggleBorderlessFullscreen => {
                self.push_action(SessionAction::ToggleFullscreen);
            },
            SessionCommand::ZoomAtCursor { delta, cursor_x, cursor_y } => {
                self.push_action(SessionAction::ZoomAtCursor { delta, cursor_x, cursor_y });
            },
            SessionCommand::FitWindow => {
                if let Some(size) = devices.surface_size {
                    let (width, height) = viewport.orient_dimensions(size.width, size.height);
                    self.push_action(SessionAction::FitWindow { width, height });
                }
            },
            SessionCommand::HalfSizeWindow => {
                if let Some(size) = devices.surface_size {
                    let (w, h) = viewport.orient_dimensions(size.width, size.height);
                    let width: u32 = if w / 2 >= 1 {
                        w / 2
                    } else {
                        1
                    };
                    let height: u32 = if h / 2 >= 1 {
                        h / 2
                    } else {
                        1
                    };
                    self.push_action(SessionAction::SetClientSize { width, height });
                }
            },
            SessionCommand::PanBy { dx, dy } => {
                self.push_action(SessionAction::PanBy { dx, dy });
            },
            _ => {},
        }
    }

    fn apply_range_command(&mut self, command: SessionCommand, now: Instant, devices: DeviceView)
        requires
            old(self).wf(),
            now@ <= MAX_NANOS,
            is_range_command(command),
        ensures
            final(self)@ == old(self)@.commanded(command, now, devices),
            final(self).wf(),
    {
        proof {
            reveal(SessionModel::commanded);
        }
        let c = self.core;
        let mut clip_range = c.clip_range;
        match command {
            SessionCommand::ToggleAutoReplay => {
                let until = now.plus(Duration { nanos: REPLAY_INDICATOR_NANOS });
                clip_range.auto_replay = !clip_range.auto_replay;
                self.set_core(
                    SessionCore {
                        clip_range,
                        overlay: OverlayManager {
                            replay_indicator_until: Some(until),
                            ..c.overlay
                        },
                        ..c
                    },
                );
            },
            SessionCommand::SetInPoint => {
                let here = self.snapshot(now, devices.buffered_frames).position;
                clip_range.set_in_point(here);
                self.set_core(SessionCore { clip_range, ..c });
            },
            SessionCommand::ClearInPoint => {
                clip_range.clear_in_point();
                self.set_core(SessionCore { clip_range, ..c });
            },
            SessionCommand::SetOutPoint => {
                let here = self.snapshot(now, devices.buffered_frames).position;
                clip_range.set_out_point(here);
                self.set_core(SessionCore { clip_range, ..c });
            },
            SessionCommand::ClearOutPoint => {
                clip_range.clear_out_point();
                self.set_core(SessionCore { clip_range, ..c });
            },
            SessionCommand::ToggleLoopRange => {
                let until = now.plus(Duration { nanos: REPLAY_INDICATOR_NANOS });
                let preference_changed = clip_range.toggle_loop_or_replay();
                let replay_indicator_until = if preference_changed {
                    Some(until)
                } else {
                    c.overlay.replay_indicator_until
                };
                self.set_core(
                    SessionCore {
                        clip_range,
                        overlay: OverlayManager { replay_indicator_until, ..c.overlay },
                        ..c
                    },
                );
            },
            _ => {},
        }
    }

    fn apply_transport_command(&mut self, command: SessionCommand, now: Instant, devices: DeviceView)
        requires
            old(self).wf(),
            now@ <= MAX_NANOS,
            is_transport_command(command),
        ensures
            final(self)@ == old(self)@.commanded(command, now, devices),
            final(self).wf(),
    {
        proof {
            reveal(SessionModel::commanded);
        }
        let c = self.core;
        match command {
            SessionCommand::TogglePause => {
                self.toggle_pause(now, devices);
            },
            SessionCommand::Seek(target) => {
                self.set_core(SessionCore { pause_after_seek: false, ..c });
                self.seek(target);
            },
            SessionCommand::StepFrameForward => {
                self.step_frame(true, now, devices);
            },
            SessionCommand::StepFrameBackward => {
                self.step_frame(false, now, devices);
            },
            SessionCommand::StepPlaybackRate(step) => {
                let rate = c.playback_rate.step(step);
                self.change_rate(rate);
            },
            SessionCommand::ResetPlaybackRate => {
                self.change_rate(PlaybackRate::normal());
            },
            _ => {},
        }
    }

    fn apply_display_command(&mut self, command: SessionCommand, now: Instant, devices: DeviceView)
        requires
            old(self).wf(),
            now@ <= MAX_NANOS,
            is_display_command(command),
        ensures
            final(self)@ == old(self)@.commanded(command, now, devices),
            final(self).wf(),
    {
        proof {
            reveal(SessionModel::commanded);
        }
        let c = self.core;
        match command {
            SessionCommand::ToggleSubtitles => {
                let mut overlay = c.overlay;
                let hide = overlay.toggle_subtitles();
                self.set_core(SessionCore { overlay, ..c });
                if hide {
                    self.push_action(SessionAction::ClearSubtitleOverlay);
                }
            },
            SessionCommand::SaveScreenshot => {
                self.set_core(SessionCore { screenshot_pending: true, present_needed: true, ..c });
            },
            SessionCommand::AdjustVolumeSteps(steps) => {
                if c.sink.is_some() {
                    let until = now.plus(Duration { nanos: VOLUME_OVERLAY_NANOS });
                    self.set_core(
                        SessionCore {
                            overlay: OverlayManager {
                                volume_overlay_until: Some(until),
                                ..c.overlay
                            },
                            ..c
                        },
                    );
                    self.push_action(SessionAction::AdjustVolume(steps));
                }
            },
            SessionCommand::ToggleDecodeInfo => {
                let shown = c.overlay.show_decode_info;
                self.set_core(
                    SessionCore {
                        overlay: OverlayManager { show_decode_info: !shown, ..c.overlay },
                        ..c
                    },
                );
                self.push_action(SessionAction::UpdateWindowTitle);
            },
            _ => {},
        }
    }

    /// Carries out a command, once the sink was asked for what `sink_call` says.
    /// Fails where the sink did not do it.
    pub fn apply_command(&mut self, command: SessionCommand, now: Instant, devices: DeviceView) -> (r:
        Result<(), SinkRefused>)
        requires
            old(self).wf(),
            now@ <= MAX_NANOS,
        ensures
            final(self)@ == old(self)@.commanded(command, now, devices),
            r is Err <==> old(self)@.is_refused(command, now, devices),
            final(self).wf(),
    {
        let call = self.sink_call(command, now, devices.buffered_frames);
        self.carry_out(command, now, devices);
        if !devices.sink_obeyed && call != SinkCall::Nothing {
            Err(SinkRefused)
        } else {
            Ok(())
        }
    }

    fn carry_out(&mut self, command: SessionCommand, now: Instant, devices: DeviceView)
        requires
            old(self).wf(),
            now@ <= MAX_NANOS,
        ensures
            final(self)@ == old(self)@.commanded(command, now, devices),
            final(self).wf(),
    {
        match command {
            SessionCommand::Tick => {
                proof {
                    reveal(SessionModel::commanded);
                }
            },
            SessionCommand::TogglePause
            | SessionCommand::Seek(_)
            | SessionCommand::StepFrameForward
            | SessionCommand::StepFrameBackward
            | SessionCommand::StepPlaybackRate(_)
            | SessionCommand::ResetPlaybackRate => {
                self.apply_transport_command(command, now, devices);
            },
            SessionCommand::ToggleSubtitles
            | SessionCommand::SaveScreenshot
            | SessionCommand::AdjustVolumeSteps(_)
            | SessionCommand::ToggleDecodeInfo => {
                self.apply_display_command(command, now, devices);
            },
            SessionCommand::ToggleAutoReplay
            | SessionCommand::SetInPoint
            | SessionCommand::ClearInPoint
            | SessionCommand::SetOutPoint
            | SessionCommand::ClearOutPoint
            | SessionCommand::ToggleLoopRange => {
                self.apply_range_command(command, now, devices);
            },
            SessionCommand::RotateClockwise
            | SessionCommand::RotateCounterClockwise
            | SessionCommand::ResetView
            | SessionCommand::ShowHelp
            | SessionCommand::HideHelp => {
                self.apply_view_command(command, now, devices);
            },
            SessionCommand::ToggleBorderlessFullscreen
            | SessionCommand::ZoomAtCursor { .. }
            | SessionCommand::FitWindow
            | SessionCommand::HalfSizeWindow
            | SessionCommand::PanBy { .. } => {
                self.apply_window_command(command, now, devices);
            },
        }
    }
}

/// Whether a command is about playing and seeking.
spec fn is_transport_command(command: SessionCommand) -> bool {
    match command {
        SessionCommand::TogglePause => true,
        SessionCommand::Seek(_) => true,
        SessionCommand::StepFrameForward => true,
        SessionCommand::StepFrameBackward => true,
        SessionCommand::StepPlaybackRate(_) => true,
        SessionCommand::ResetPlaybackRate => true,
        _ => false,
    }
}

/// Whether a command is about what is shown beside the picture.
spec fn is_display_command(command: SessionCommand) -> bool {
    match command {
        SessionCommand::ToggleSubtitles => true,
        SessionCommand::SaveScreenshot => true,
        SessionCommand::AdjustVolumeSteps(_) => true,
        SessionCommand::ToggleDecodeInfo => true,
        _ => false,
    }
}

/// Whether a command changes what is drawn.
spec fn is_view_command(command: SessionCommand) -> bool {
    match command {
        SessionCommand::RotateClockwise => true,
        SessionCommand::RotateCounterClockwise => true,
        SessionCommand::ResetView => true,
        SessionCommand::ShowHelp => true,
        SessionCommand::HideHelp => true,
        _ => false,
    }
}

/// Whether a command goes straight to the window.
spec fn is_window_command(command: SessionCommand) -> bool {
    match command {
        SessionCommand::ToggleBorderlessFullscreen => true,
        SessionCommand::ZoomAtCursor { .. } => true,
        SessionCommand::FitWindow => true,
        SessionCommand::HalfSizeWindow => true,
        SessionCommand::PanBy { .. } => true,
        _ => false,
    }
}

/// Whether a command is about the marked range or the replay preference.
spec fn is_range_command(command: SessionCommand) -> bool {
    match command {
        SessionCommand::ToggleAutoReplay => true,
        SessionCommand::SetInPoint => true,
        SessionCommand::ClearInPoint => true,
        SessionCommand::SetOutPoint => true,
        SessionCommand::ClearOutPoint => true,
        SessionCommand::ToggleLoopRange => true,
        _ => false,
    }
}

} // verus!
