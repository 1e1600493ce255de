//! One tick of a session: which audio goes to the sink, which frame is shown,
//! and when playback is over.
use vstd::prelude::*;
use crate::audio_controller::AudioController;
use crate::clock::{PlaybackClock, PlaybackRate};
use crate::drop_stats::VideoDropCause;
use crate::media::{DecodedVideoFrame, VideoDecodePreference};
use crate::overlay::OverlayManager;
use crate::session::{frames_duration, PlaybackSession};
use crate::session_model::{
    AudioBatch, DeviceView, PlaybackMetrics, QueuedAudioFrame, SessionAction, SessionCore,
    SessionModel, SinkState, SurfaceSelection, VideoStep, MAX_OBSERVED_FRAME_INTERVAL_NANOS,
    VERY_LATE_VIDEO_NANOS,
};
use crate::state::PlaybackState;
use crate::time::{Duration, Instant};
use crate::viewport::ViewportState;

verus! {

/// Opens a file: plain values as they are before the operation begins.
fn open_core(c: SessionCore, preference: VideoDecodePreference, subtitle_loaded: bool) -> (r:
    SessionCore)
    ensures
        r == c.opening(preference, subtitle_loaded),
        r.clip_range.wf(),
        r.audio == c.audio,
        r.video_clock == c.video_clock,
        r.playback_rate.hundredths == 100,
{
    proof {
        reveal(SessionCore::opening);
    }
    let mut generations = c.generations;
    let _ = generations.bump_open();
    let mut operation_clock = c.operation_clock;
    let _ = operation_clock.next();
    let mut clip_range = c.clip_range;
    clip_range.reset_for_open();
    SessionCore {
        generations,
        operation_clock,
        decode_preference: preference,
        overlay: OverlayManager {
            subtitle_loaded,
            subtitles_enabled: subtitle_loaded,
            subtitle_clock_base: None,
            active_subtitle_cue: None,
            active_subtitle_viewport: None,
            ..c.overlay
        },
        playback_rate: PlaybackRate::normal(),
        clip_range,
        media_duration: None,
        active_decode_mode: None,
        observed_frame_interval: None,
        last_presented_media_position: None,
        viewport: ViewportState::new(),
        needs_initial_resize: true,
        metrics: PlaybackMetrics { measure_open_audio: true, ..c.metrics },
        ..c
    }
}

impl PlaybackSession {
    /// Opens a file, at `start` if a position is given. Marks, rate and
    /// rotation of the last file are forgotten; the replay preference is not.
    pub fn open_at(
        &mut self,
        source: String,
        start: Option<Duration>,
        preference: VideoDecodePreference,
        subtitle_loaded: bool,
    )
        requires
            old(self).wf(),
        ensures
            final(self)@ == old(self)@.opened(source@, start, preference, subtitle_loaded),
            final(self).wf(),
    {
        proof {
            reveal(SessionModel::opened);
            reveal(SessionCore::opening);
        }
        let ghost before = self@;
        let c = open_core(self.core, preference, subtitle_loaded);
        self.core = c;
        self.source = Some(source);
        let ghost middle = SessionModel {
            core: before.core.opening(preference, subtitle_loaded),
            source: Some(source@),
            ..before
        };
        proof {
            assert(self@ == middle);
        }
        self.begin_operation(
            start,
            c.generations.open,
            c.generations.seek,
            crate::generations::OperationId(c.operation_clock.last),
            PlaybackState::Opening,
            true,
            true,
        );
    }

    fn front_position(&self, index: usize) -> (r: Duration)
        requires
            index < self@.video.len(),
        ensures
            r == self@.media_time(self@.video[index as int].pts),
    {
        self.media_time_for_pts(self.video_queue.frames[index].pts)
    }

    fn drop_left_behind(&mut self, clock: Duration)
        requires
            old(self).wf(),
        ensures
            final(self)@ == old(self)@.caught_up(clock),
            final(self).wf(),
    {
        proof {
            reveal(SessionModel::caught_up);
            reveal(SessionModel::front_dropped);
            reveal(SessionModel::frame_dropped);
        }
        let ghost start = self@;
        while self.video_queue.len() > 1 && clock.saturating_sub(self.front_position(0)).nanos
            > VERY_LATE_VIDEO_NANOS
            invariant
                self.wf(),
                start.very_late_dropped(clock) == self@.very_late_dropped(clock),
            decreases self@.video.len(),
        {
            self.drop_front(VideoDropCause::SchedulerLate);
        }
        proof {
            assert(self@ == start.very_late_dropped(clock));
        }
        if self.video_queue.len() == 0 || self.front_position(0).nanos > clock.nanos {
            return;
        }
        let ghost middle = self@;
        while self.video_queue.len() > 1 && self.front_position(1).nanos <= clock.nanos
            invariant
                self.wf(),
                middle.overtaken_dropped(clock) == self@.overtaken_dropped(clock),
            decreases self@.video.len(),
        {
            self.drop_front(VideoDropCause::SchedulerLate);
        }
    }

    fn stop_at(&mut self, position: Duration)
        requires
            old(self).wf(),
        ensures
            final(self)@ == old(self)@.stopped_at(position),
            final(self).wf(),
    {
        proof {
            reveal(SessionModel::stopped_at);
        }
        self.clear_video_queue();
        let ghost cleared = self@;
        self.audio_queue.clear();
        proof {
            assert(self@.audio =~= Seq::empty());
            assert(self@ == (SessionModel { audio: Seq::empty(), ..cleared }));
        }
        self.pause_started_sink();
        let c = self.core;
        self.core = SessionCore {
            video_clock: None,
            paused_clock_position: Some(position),
            state: PlaybackState::Ended,
            ..c
        };
    }

    fn playback_runs(&self) -> (r: bool)
        ensures
            r == self@.out_point_counts(),
    {
        match self.core.state {
            PlaybackState::Playing | PlaybackState::Priming | PlaybackState::Draining => true,
            _ => false,
        }
    }

    fn take_front(&mut self) -> (r: VideoStep)
        requires
            old(self).wf(),
            old(self)@.video.len() > 0,
        ensures
            (final(self)@, r) == old(self)@.front_taken(),
            final(self).wf(),
    {
        proof {
            reveal(SessionModel::front_taken);
        }
        let position = self.front_position(0);
        let runs = self.playback_runs();
        let range = self.core.clip_range;
        let popped = self.video_queue.pop_front();
        let frame = popped.unwrap();
        if let Some(out) = range.out_point {
            if runs && position.nanos >= out.nanos {
                self.push_action(SessionAction::ReleaseSurface(frame.surface));
                if range.loop_range {
                    self.replay();
                } else {
                    self.stop_at(position);
                }
                return VideoStep::StoppedAtOutPoint;
            }
        }
        VideoStep::Present(frame)
    }

    /// Decides which frame is to be shown now. Frames that the audio clock has
    /// left behind are dropped; a frame at or behind the out point is not shown,
    /// but ends the range.
    pub fn advance_video_playback(&mut self, now: Instant, buffered: u32) -> (r: VideoStep)
        requires
            old(self).wf(),
        ensures
            (final(self)@, r) == old(self)@.advanced(now, buffered),
            final(self).wf(),
    {
        proof {
            reveal(SessionModel::advanced);
        }
        match self.core.state {
            PlaybackState::Paused | PlaybackState::Ended => {
                return VideoStep::Wait;
            },
            _ => {},
        }
        if self.core.audio.is_clock_anchored() {
            let clock = match self.master_clock_position(now, buffered) {
                Some(clock) => clock,
                None => {
                    return VideoStep::Wait;
                },
            };
            self.drop_left_behind(clock);
            if self.video_queue.len() > 0 && self.front_position(0).nanos <= clock.nanos {
                return self.take_front();
            }
            return VideoStep::Wait;
        }
        if self.video_queue.len() == 0 {
            return VideoStep::Wait;
        }
        if let Some(clock) = self.core.video_clock {
            if !clock.is_due(self.front_position(0), now) {
                return VideoStep::Wait;
            }
        }
        self.take_front()
    }

    /// Takes up what the presenter said about a frame.
    pub fn present_video_frame(
        &mut self,
        frame: DecodedVideoFrame,
        selection: SurfaceSelection,
        now: Instant,
    )
        requires
            old(self).wf(),
        ensures
            final(self)@ == old(self)@.presented(frame, selection, now),
            final(self).wf(),
    {
        proof {
            reveal(SessionModel::presented);
        }
        let position = self.media_time_for_pts(frame.pts);
        let start = self.core;
        if start.video_clock.is_none() && !start.audio.is_clock_anchored() {
            self.core = SessionCore {
                video_clock: Some(PlaybackClock::new(now, position, start.playback_rate)),
                ..start
            };
        }
        let previous = match selection {
            SurfaceSelection::Mismatch => {
                self.drop_video_frame(frame, VideoDropCause::SurfaceMismatch);
                return;
            },
            SurfaceSelection::Selected(previous) => previous,
        };
        if let Some(p) = previous {
            if p != frame.surface {
                self.push_action(SessionAction::ReleaseSurface(p));
            }
        }
        let c = self.core;
        self.core = shown_core(c, position);
    }

    /// Whether audio may be handed to the sink.
    pub fn audio_may_flow(&self) -> (r: bool)
        ensures
            r == self@.audio_flows(),
    {
        match self.core.state {
            PlaybackState::Paused | PlaybackState::Ended => {
                return false;
            },
            _ => {},
        }
        !self.core.pause_after_seek && self.core.playback_rate.is_normal()
            && self.core.sink.is_some()
    }

    /// The stretch of audio that the sink should take next.
    pub fn next_audio(&self) -> (r: Option<QueuedAudioFrame>)
        ensures
            r == (if self@.audio_flows() && self@.audio.len() > 0 {
                Some(self@.audio[0])
            } else {
                None
            }),
    {
        if self.audio_may_flow() && self.audio_queue.len() > 0 {
            Some(self.audio_queue[0])
        } else {
            None
        }
    }

    /// Counts what the sink took of the front of the audio queue; returns
    /// whether to go on.
    pub fn audio_written(&mut self, batch: &mut AudioBatch, written: u32) -> (r: bool)
        requires
            old(self).wf(),
            old(self)@.audio.len() > 0,
        ensures
            r == (written != 0),
            written == 0 ==> final(self)@ == old(self)@ && *final(batch) == *old(batch),
            written != 0 ==> final(self)@ == old(self)@.audio_taken(written) && *final(batch)
                == old(self)@.batch_after(*old(batch)),
            final(self).wf(),
    {
        if written == 0 {
            return false;
        }
        proof {
            reveal(SessionModel::audio_taken);
        }
        let ghost start = self@;
        let front = self.audio_queue[0];
        if batch.first_written_pts.is_none() {
            let offset = frames_duration(
                front.submitted_frames as u64,
                front.frame.format.sample_rate,
            );
            batch.first_written_pts = Some(front.frame.pts.saturating_add(offset));
        }
        batch.wrote_any = true;
        let c = self.core;
        let mut audio = c.audio;
        audio.record_submitted(written as u64);
        self.core = SessionCore { audio, ..c };
        let submitted: u32 = front.submitted_frames.saturating_add(written);
        let _ = self.audio_queue.pop_front();
        if submitted < front.frame.frame_count {
            self.audio_queue.push_front(
                QueuedAudioFrame { frame: front.frame, submitted_frames: submitted },
            );
        }
        proof {
            if submitted >= front.frame.frame_count {
                assert(self@.audio =~= start.audio.drop_first());
            } else {
                assert(self@.audio =~= start.audio.update(
                    0,
                    QueuedAudioFrame { submitted_frames: submitted, ..front },
                ));
            }
        }
        true
    }

    /// Whether the sink has to be started for what it took in this round.
    pub fn sink_needs_start(&self, batch: &AudioBatch) -> (r: bool)
        ensures
            r == (batch.wrote_any && self@.core.sink is Some && !self@.sink_started()),
    {
        batch.wrote_any && match self.core.sink {
            Some(sink) => !sink.started,
            None => false,
        }
    }

    /// Notes that the sink plays, or does not.
    pub fn sink_playing(&mut self, started: bool)
        requires
            old(self).wf(),
        ensures
            final(self)@ == old(self)@.with(
                SessionCore {
                    sink: match old(self)@.core.sink {
                        Some(sink) => Some(SinkState { started, ..sink }),
                        None => None,
                    },
                    ..old(self)@.core
                },
            ),
            final(self).wf(),
    {
        let c = self.core;
        if let Some(sink) = c.sink {
            self.set_core(
                SessionCore {
                    sink: Some(SinkState { started, sample_rate: sink.sample_rate }),
                    ..c
                },
            );
        }
    }

    fn anchor_audio(&mut self, batch: AudioBatch)
        requires
            old(self).wf(),
        ensures
            final(self)@ == old(self)@.anchored(batch),
            final(self).wf(),
    {
        proof {
            reveal(SessionModel::anchored);
        }
        let c = self.core;
        let started = match c.sink {
            Some(sink) => sink.started,
            None => false,
        };
        if batch.wrote_any && !c.audio.is_clock_anchored() && started {
            let mut audio = c.audio;
            audio.set_clock_anchor(batch.first_written_pts);
            self.core = SessionCore {
                audio,
                video_clock: None,
                metrics: PlaybackMetrics {
                    pending_first_audio: c.metrics.pending_first_audio
                        || c.metrics.measure_open_audio,
                    ..c.metrics
                },
                ..c
            };
        }
    }

    /// Whether all that was decoded has been played.
    pub fn can_finish_with_buffered(&self, buffered: u32) -> (r: bool)
        ensures
            r == self@.can_finish(buffered),
    {
        self.are_streams_exhausted() && (!self.core.audio_stream_expected || buffered == 0)
            && self.playback_runs()
    }

    fn bridge_underrun(&mut self, now: Instant, buffered: u32)
        requires
            old(self).wf(),
        ensures
            final(self)@ == old(self)@.underrun_bridged(now, buffered),
            final(self).wf(),
    {
        proof {
            reveal(SessionModel::underrun_bridged);
        }
        let c = self.core;
        let paused = match c.state {
            PlaybackState::Paused => true,
            _ => false,
        };
        let started = match c.sink {
            Some(sink) => sink.started,
            None => false,
        };
        if c.audio_stream_expected && !paused && started && self.audio_queue.len() == 0 && buffered
            == 0 && !self.can_finish_with_buffered(0) {
            let position = match self.master_clock_position(now, buffered) {
                Some(p) => p,
                None => Duration::zero(),
            };
            let video_clock = match c.video_clock {
                Some(clock) => clock,
                None => PlaybackClock::new(now, position, c.playback_rate),
            };
            self.core = SessionCore {
                metrics: PlaybackMetrics {
                    audio_underruns: c.metrics.audio_underruns.saturating_add(1),
                    ..c.metrics
                },
                audio: AudioController::new(),
                video_clock: Some(video_clock),
                ..c
            };
        }
    }

    fn pause_drained_sink(&mut self, buffered: u32)
        requires
            old(self).wf(),
        ensures
            final(self)@ == old(self)@.drained_sink_paused(buffered),
            final(self).wf(),
    {
        proof {
            reveal(SessionModel::drained_sink_paused);
        }
        let c = self.core;
        let runs = match c.state {
            PlaybackState::Draining | PlaybackState::Playing => true,
            _ => false,
        };
        if c.audio_stream_expected && c.audio_stream_ended && self.audio_queue.len() == 0 && runs
            && buffered == 0 {
            self.pause_started_sink();
        }
    }

    fn play_on_anchor(&mut self)
        requires
            old(self).wf(),
        ensures
            final(self)@ == old(self)@.playing_on_anchor(),
            final(self).wf(),
    {
        proof {
            reveal(SessionModel::playing_on_anchor);
        }
        let c = self.core;
        let priming = match c.state {
            PlaybackState::Priming => true,
            _ => false,
        };
        if c.audio_stream_expected && c.audio.is_clock_anchored() && priming {
            self.set_core(SessionCore { state: PlaybackState::Playing, ..c });
        }
    }

    /// Ends a round of audio submission; `failed` says that the sink did.
    pub fn finish_audio_submission(
        &mut self,
        batch: AudioBatch,
        failed: bool,
        now: Instant,
        buffered: u32,
    )
        requires
            old(self).wf(),
        ensures
            final(self)@ == old(self)@.audio_submitted(batch, failed, now, buffered),
            final(self).wf(),
    {
        proof {
            reveal(SessionModel::audio_submitted);
        }
        if !self.audio_may_flow() {
            return;
        }
        self.anchor_audio(batch);
        if failed {
            self.recover_audio_endpoint(now, buffered);
            return;
        }
        let c = self.core;
        self.set_core(SessionCore { cached_buffered_frames: Some(buffered), ..c });
        self.bridge_underrun(now, buffered);
        self.pause_drained_sink(buffered);
        self.play_on_anchor();
    }

    /// Whether the picture and the sound of the last seek are there.
    pub fn seek_is_settled(&self) -> (r: bool)
        ensures
            r == self@.seek_settled(),
    {
        self.core.seek_frame_presented_since_request && (!self.core.audio_stream_expected
            || self.core.audio.is_clock_anchored())
    }

    /// Ends a tick.
    pub fn finish_tick(&mut self, devices: DeviceView)
        requires
            old(self).wf(),
        ensures
            final(self)@ == old(self)@.tick_finished(devices),
            final(self).wf(),
    {
        proof {
            reveal(SessionModel::tick_finished);
        }
        let c = self.core;
        let settled = c.metrics.pending_seek_settled && self.seek_is_settled();
        self.set_core(drop_reminders(c, settled, devices.surface_selected));
        if self.can_finish_with_buffered(devices.buffered_frames) {
            if c.clip_range.should_replay_at_end() {
                self.replay();
            } else {
                let e = self.core;
                self.set_core(SessionCore { state: PlaybackState::Ended, ..e });
            }
        }
    }
}

/// Drops the reminders that were met.
fn drop_reminders(c: SessionCore, settled: bool, surface_selected: bool) -> (r: SessionCore)
    ensures
        r == c.reminders_dropped(settled, surface_selected),
        r.playback_rate == c.playback_rate,
        r.video_clock == c.video_clock,
        r.clip_range == c.clip_range,
        r.audio == c.audio,
{
    proof {
        reveal(SessionCore::reminders_dropped);
    }
    SessionCore {
        metrics: PlaybackMetrics {
            pending_first_frame: c.metrics.pending_first_frame && !surface_selected,
            pending_first_audio: false,
            measure_open_audio: c.metrics.measure_open_audio && !c.metrics.pending_first_audio,
            pending_seek_first_frame: c.metrics.pending_seek_first_frame && !surface_selected,
            pending_seek_settled: c.metrics.pending_seek_settled && !settled,
            ..c.metrics
        },
        pending_seek_target: if settled {
            None
        } else {
            c.pending_seek_target
        },
        ..c
    }
}

/// The plain values after a frame at `position` was selected for showing.
fn shown_core(c: SessionCore, position: Duration) -> (r: SessionCore)
    ensures
        r == c.after_shown(position),
        r.playback_rate == c.playback_rate,
        r.video_clock == c.video_clock,
        r.clip_range == c.clip_range,
        r.audio == c.audio,
{
    proof {
        reveal(SessionCore::after_shown);
    }
    let observed_frame_interval = match c.last_presented_media_position {
        Some(previous) => {
            let gap = position.saturating_sub(previous);
            if !gap.is_zero() && gap.nanos <= MAX_OBSERVED_FRAME_INTERVAL_NANOS {
                Some(gap)
            } else {
                c.observed_frame_interval
            }
        },
        None => c.observed_frame_interval,
    };
    let count: u64 = c.metrics.presented_video_frames.saturating_add(1);
    let held = c.pause_after_seek;
    SessionCore {
        observed_frame_interval,
        last_presented_media_position: Some(position),
        present_needed: true,
        metrics: PlaybackMetrics {
            presented_video_frames: count,
            pending_first_frame: c.metrics.pending_first_frame || count == 1,
            ..c.metrics
        },
        seek_frame_presented_since_request: c.seek_frame_presented_since_request
            || c.metrics.pending_seek_settled,
        pause_after_seek: false,
        paused_clock_position: if held {
            match c.pending_seek_target {
                Some(target) => Some(target.position()),
                None => None,
            }
        } else {
            c.paused_clock_position
        },
        state: if held {
            PlaybackState::Paused
        } else if !c.audio_stream_expected || c.audio.is_clock_anchored() {
            PlaybackState::Playing
        } else {
            c.state
        },
        ..c
    }
}

} // verus!
