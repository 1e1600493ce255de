//! How a session takes up what workers and devices report.
use vstd::prelude::*;
use crate::drop_stats::VideoDropCause;
use crate::events::{PendingVideoFrame, SessionEvent};
use crate::media::{DecodedAudioFrame, DecodedVideoFrame, VideoDecodeMode, VideoDecodePreference};
use crate::overlay::OverlayManager;
use crate::session::PlaybackSession;
use crate::session_model::{
    PlaybackMetrics, QueuedAudioFrame, SessionAction, SessionCore, SessionModel, SinkState,
};
use crate::state::PlaybackState;
use crate::time::{Duration, Instant};
use crate::video_queue::insert_position;

verus! {

impl PlaybackSession {
    fn fail(&mut self, error: String)
        requires
            old(self).wf(),
        ensures
            final(self)@ == old(self)@.failed(error@),
            final(self).wf(),
    {
        proof {
            reveal(SessionModel::failed);
        }
        self.teardown_decoder(false);
        let c = self.core;
        self.core = SessionCore {
            pending_seek_target: None,
            active_operation_id: None,
            active_decode_mode: None,
            state: PlaybackState::Error,
            ..c
        };
        self.last_error = Some(error);
    }

    fn restart(&mut self, now: Instant, buffered: u32, rebuild_audio_sink: bool)
        requires
            old(self).wf(),
        ensures
            final(self)@ == old(self)@.restarted(now, buffered, rebuild_audio_sink),
            final(self).wf(),
    {
        proof {
            reveal(SessionModel::restarted);
        }
        let position = self.snapshot(now, buffered).position;
        let restart = self.absolute_media_position(position);
        let (seek_gen, op_id) = self.next_seek();
        let open_gen = self.core.generations.open;
        self.begin_operation(
            Some(restart),
            open_gen,
            seek_gen,
            op_id,
            PlaybackState::Seeking,
            rebuild_audio_sink,
            false,
        );
        let c = self.core;
        self.set_core(
            SessionCore {
                overlay: OverlayManager { subtitle_clock_base: Some(restart), ..c.overlay },
                ..c
            },
        );
    }

    /// Starts again with another audio sink, from where playback was.
    pub fn recover_audio_endpoint(&mut self, now: Instant, buffered: u32)
        requires
            old(self).wf(),
        ensures
            final(self)@ == old(self)@.audio_recovered(now, buffered),
            final(self).wf(),
    {
        proof {
            reveal(SessionModel::audio_recovered);
        }
        if self.source.is_none() {
            return;
        }
        self.restart(now, buffered, true)
    }

    /// Lets the decode worker leave and asks for another graphics device.
    /// `device_rebuilt` takes up how that went.
    pub fn recover_device(&mut self)
        requires
            old(self).wf(),
        ensures
            final(self)@ == old(self)@.device_lost(),
            final(self).wf(),
    {
        proof {
            reveal(SessionModel::device_lost);
        }
        if self.source.is_none() {
            return;
        }
        self.teardown_decoder(true);
        self.push_action(SessionAction::RebuildDevice);
    }

    /// After the attempt to build another graphics device: playback starts
    /// again from where it was, or fails.
    pub fn device_rebuilt(&mut self, result: Result<(), String>, now: Instant, buffered: u32)
        requires
            old(self).wf(),
        ensures
            final(self)@ == (match result {
                Ok(_) => old(self)@.restarted(now, buffered, false),
                Err(error) => old(self)@.failed("device recovery failed: "@ + error@),
            }),
            final(self).wf(),
    {
        match result {
            Ok(_) => {
                self.restart(now, buffered, false);
            },
            Err(error) => {
                let mut message = String::new();
                message.append("device recovery failed: ");
                message.append(error.as_str());
                proof {
                    assert(message@ =~= "device recovery failed: "@ + error@);
                }
                self.fail(message);
            },
        }
    }

    /// After the attempt to make an audio sink: its sample rate, or the error.
    pub fn audio_sink_ready(&mut self, result: Result<u32, String>)
        requires
            old(self).wf(),
        ensures
            final(self)@ == (SessionModel {
                core: SessionCore {
                    sink: match result {
                        Ok(sample_rate) => Some(SinkState { started: false, sample_rate }),
                        Err(_) => None,
                    },
                    ..old(self)@.core
                },
                sink_error: match result {
                    Ok(_) => None,
                    Err(error) => Some(error@),
                },
                ..old(self)@
            }),
            final(self).wf(),
    {
        let c = self.core;
        match result {
            Ok(sample_rate) => {
                self.core = SessionCore { sink: Some(SinkState { started: false, sample_rate }), ..c
                };
                self.sink_error = None;
            },
            Err(error) => {
                self.core = SessionCore { sink: None, ..c };
                self.sink_error = Some(error);
            },
        }
    }

    pub(crate) fn drop_video_frame(&mut self, frame: DecodedVideoFrame, cause: VideoDropCause)
        ensures
            final(self)@ == old(self)@.frame_dropped(frame, cause),
            old(self).wf() ==> final(self).wf(),
    {
        proof {
            reveal(SessionModel::frame_dropped);
        }
        let c = self.core;
        let mut drop_buckets = c.drop_buckets;
        drop_buckets.note(cause);
        self.core = SessionCore {
            drop_buckets,
            metrics: PlaybackMetrics {
                dropped_video_frames: c.metrics.dropped_video_frames.saturating_add(1),
                ..c.metrics
            },
            ..c
        };
        self.push_action(SessionAction::ReleaseSurface(frame.surface));
    }

    pub(crate) fn drop_front(&mut self, cause: VideoDropCause)
        requires
            old(self).wf(),
            old(self)@.video.len() > 0,
        ensures
            final(self)@ == old(self)@.front_dropped(cause),
            final(self)@.video == old(self)@.video.drop_first(),
            final(self).wf(),
    {
        proof {
            reveal(SessionModel::front_dropped);
            reveal(SessionModel::frame_dropped);
        }
        if let Some(frame) = self.video_queue.pop_front() {
            self.drop_video_frame(frame, cause);
        }
    }

    fn push_video_frame(&mut self, frame: DecodedVideoFrame)
        requires
            old(self).wf(),
        ensures
            final(self)@ == old(self)@.frame_queued(frame),
            final(self).wf(),
    {
        proof {
            reveal(SessionModel::frame_queued);
        }
        let ghost start = self@;
        self.video_queue.insert_ordered(frame);
        let ghost inserted = SessionModel {
            video: start.video.insert(insert_position(start.video, frame), frame),
            ..start
        };
        proof {
            assert(self@ == inserted);
        }
        while self.video_queue.len() > self.video_queue.capacity
            invariant
                self.wf(),
                inserted.overflow_evicted() == self@.overflow_evicted(),
            decreases self@.video.len(),
        {
            self.drop_front(VideoDropCause::QueueOverflow);
        }
    }

    fn observe_media_time_origin(&mut self, pts: Duration)
        requires
            old(self).wf(),
        ensures
            final(self)@ == old(self)@.origin_observed(pts),
            final(self).wf(),
    {
        proof {
            reveal(SessionModel::origin_observed);
        }
        let c = self.core;
        if c.media_time_origin_pts.is_none() {
            self.set_core(SessionCore { media_time_origin_pts: Some(pts), ..c });
        }
    }

    fn prime(&mut self)
        requires
            old(self).wf(),
        ensures
            final(self)@ == old(self)@.primed(),
            final(self).wf(),
    {
        proof {
            reveal(SessionModel::primed);
        }
        let c = self.core;
        match c.state {
            PlaybackState::Opening | PlaybackState::Seeking => {
                self.set_core(SessionCore { state: PlaybackState::Priming, ..c });
            },
            _ => {},
        }
    }

    fn is_before_target(&self, pts: Duration) -> (r: bool)
        ensures
            r == self@.before_target(pts),
    {
        match self.core.seek_discard_before_pts {
            Some(target) => pts.nanos < target.nanos,
            None => false,
        }
    }

    fn video_frame_ready(&mut self, f: PendingVideoFrame)
        requires
            old(self).wf(),
        ensures
            final(self)@ == old(self)@.video_arrived(f),
            final(self).wf(),
    {
        proof {
            reveal(SessionModel::video_arrived);
        }
        if self.is_before_target(f.pts) {
            return;
        }
        let c = self.core;
        if c.needs_initial_resize {
            self.set_core(
                SessionCore { needs_initial_resize: false, has_shown_content: true, ..c },
            );
            self.push_action(
                SessionAction::ResizeForContent {
                    width: f.display_width,
                    height: f.display_height,
                    center: !c.has_shown_content,
                },
            );
        }
        self.observe_media_time_origin(f.pts);
        self.push_action(
            SessionAction::RegisterSurface {
                surface: f.surface,
                open_gen: f.open_gen,
                seek_gen: f.seek_gen,
            },
        );
        self.push_video_frame(
            DecodedVideoFrame {
                open_gen: f.open_gen,
                seek_gen: f.seek_gen,
                pts: f.pts,
                surface: f.surface,
            },
        );
        self.prime();
    }

    fn push_audio_frame(&mut self, frame: DecodedAudioFrame)
        requires
            old(self).wf(),
            frame.format.sample_rate > 0,
        ensures
            final(self)@ == (if old(self)@.audio.len() >= old(self)@.audio_capacity {
                old(self)@
            } else {
                SessionModel {
                    audio: old(self)@.audio.push(QueuedAudioFrame { frame, submitted_frames: 0 }),
                    ..old(self)@
                }
            }),
            final(self).wf(),
    {
        if self.audio_queue.len() >= self.audio_capacity {
            return;
        }
        self.audio_queue.push_back(QueuedAudioFrame { frame, submitted_frames: 0 });
    }

    fn audio_frame_ready(&mut self, f: DecodedAudioFrame)
        requires
            old(self).wf(),
            f.format.sample_rate > 0,
        ensures
            final(self)@ == old(self)@.audio_arrived(f),
            final(self).wf(),
    {
        proof {
            reveal(SessionModel::audio_arrived);
        }
        if self.is_before_target(f.pts) {
            return;
        }
        let c = self.core;
        self.set_core(SessionCore { audio_stream_expected: true, ..c });
        self.observe_media_time_origin(f.pts);
        if self.core.sink.is_none() {
            let message: String = match &self.sink_error {
                Some(error) => error.clone(),
                None => {
                    let mut text = String::new();
                    text.append("WASAPI sink was not available for decoded audio");
                    proof {
                        assert(text@ =~= "WASAPI sink was not available for decoded audio"@);
                    }
                    text
                },
            };
            self.fail(message);
            return;
        }
        self.push_audio_frame(f);
        self.prime();
    }

    /// Whether an event belongs to the current operation.
    pub fn is_current_event(&self, event: &SessionEvent) -> (r: bool)
        ensures
            r == self@.concerns(*event),
    {
        match event {
            SessionEvent::DecodeModeSelected { open_gen, seek_gen, op_id, .. } =>
                self.is_current_frame(*open_gen, *seek_gen, *op_id),
            SessionEvent::MediaDurationKnown { open_gen, seek_gen, op_id, .. } =>
                self.is_current_frame(*open_gen, *seek_gen, *op_id),
            SessionEvent::PresentationPathSelected { open_gen, seek_gen, op_id, .. } =>
                self.is_current_frame(*open_gen, *seek_gen, *op_id),
            SessionEvent::HdrMetadataKnown { open_gen, seek_gen, op_id, .. } =>
                self.is_current_frame(*open_gen, *seek_gen, *op_id),
            SessionEvent::VideoFrameReady(f) => self.is_current_frame(
                f.open_gen,
                f.seek_gen,
                f.op_id,
            ),
            SessionEvent::AudioFrameReady(f) => self.is_current_frame(
                f.open_gen,
                f.seek_gen,
                f.op_id,
            ),
            SessionEvent::VideoStreamEnded { open_gen, seek_gen, op_id } => self.is_current_frame(
                *open_gen,
                *seek_gen,
                *op_id,
            ),
            SessionEvent::NoVideoStream { open_gen, op_id } => self.is_current_frame(
                *open_gen,
                self.core.generations.seek,
                *op_id,
            ),
            SessionEvent::AudioStreamEnded { open_gen, seek_gen, op_id } => self.is_current_frame(
                *open_gen,
                *seek_gen,
                *op_id,
            ),
            SessionEvent::OpenFailed { open_gen, op_id, .. } => self.is_current_frame(
                *open_gen,
                self.core.generations.seek,
                *op_id,
            ),
            SessionEvent::PlaybackFailed { open_gen, seek_gen, op_id, .. } => self.is_current_frame(
                *open_gen,
                *seek_gen,
                *op_id,
            ),
            SessionEvent::DeviceLost { open_gen, seek_gen, op_id } => self.is_current_frame(
                *open_gen,
                *seek_gen,
                *op_id,
            ),
            SessionEvent::AudioEndpointChanged { open_gen, seek_gen, op_id } =>
                self.is_current_frame(*open_gen, *seek_gen, *op_id),
        }
    }

    /// Takes up an event. One of an older operation changes nothing.
    pub fn handle_event(&mut self, event: SessionEvent, now: Instant, buffered: u32)
        requires
            old(self).wf(),
            old(self)@.concerns(event) ==> (event matches SessionEvent::AudioFrameReady(f)
                ==> f.format.sample_rate > 0),
        ensures
            final(self)@ == old(self)@.told(event, now, buffered),
            final(self).wf(),
    {
        proof {
            reveal(SessionModel::told);
        }
        if !self.is_current_event(&event) {
            return;
        }
        let c = self.core;
        match event {
            SessionEvent::DecodeModeSelected {
                mode,
                hw_fallback_count,
                rotation_quarter_turns,
                ..
            } => {
                let mut viewport = c.viewport;
                viewport.apply_stream_rotation(rotation_quarter_turns);
                let decode_preference = match mode {
                    VideoDecodeMode::Software => VideoDecodePreference::ForceSoftware,
                    VideoDecodeMode::HardwareD3D11 => c.decode_preference,
                };
                self.set_core(
                    SessionCore {
                        active_decode_mode: Some(mode),
                        decode_preference,
                        viewport,
                        metrics: PlaybackMetrics { hw_fallback_count, ..c.metrics },
                        ..c
                    },
                );
                if c.overlay.show_decode_info {
                    self.push_action(SessionAction::UpdateWindowTitle);
                }
            },
            SessionEvent::MediaDurationKnown { duration, .. } => {
                self.set_core(SessionCore { media_duration: Some(duration), ..c });
            },
            SessionEvent::PresentationPathSelected { path, .. } => {
                self.push_action(SessionAction::SelectPresentationPath(path));
            },
            SessionEvent::HdrMetadataKnown { mastering, content_light, .. } => {
                self.push_action(SessionAction::ApplyHdrMetadata { mastering, content_light });
            },
            SessionEvent::VideoFrameReady(f) => {
                self.video_frame_ready(f);
            },
            SessionEvent::AudioFrameReady(f) => {
                self.audio_frame_ready(f);
            },
            SessionEvent::VideoStreamEnded { .. } => {
                let state = match c.state {
                    PlaybackState::Playing | PlaybackState::Priming => PlaybackState::Draining,
                    other => other,
                };
                self.set_core(SessionCore { video_stream_ended: true, state, ..c });
            },
            SessionEvent::NoVideoStream { .. } => {
                self.set_core(SessionCore { video_stream_ended: true, ..c });
            },
            SessionEvent::AudioStreamEnded { .. } => {
                self.set_core(
                    SessionCore { audio_stream_expected: true, audio_stream_ended: true, ..c },
                );
            },
            SessionEvent::OpenFailed { error, .. } => {
                self.fail(error);
            },
            SessionEvent::PlaybackFailed { error, .. } => {
                self.fail(error);
            },
            SessionEvent::DeviceLost { .. } => {
                self.recover_device();
            },
            SessionEvent::AudioEndpointChanged { .. } => {
                self.recover_audio_endpoint(now, buffered);
            },
        }
    }
}

} // verus!
