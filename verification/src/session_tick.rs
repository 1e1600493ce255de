//! The frame around a tick of a session, and what the program asks of it
//! between ticks.
use vstd::prelude::*;
use crate::media::VideoDecodeMode;
use crate::overlay::{title_text, OverlayManager, Size, SubtitleStep};
use crate::panels::RecentRow;
use crate::session::PlaybackSession;
use crate::session_model::{PresentResult, SessionAction, SessionCore, SessionModel};
use crate::state::PlaybackState;
use crate::time::{Duration, Instant};
use crate::winpath::{file_name, file_name_seq};

verus! {

/// The stages of a tick.
#[derive(Clone, Copy, Debug, PartialEq, Eq, Structural)]
pub enum TickStage {
    /// Show how to go on after an error; nothing is played.
    ErrorIdle,
    /// Take up a new size of the window after an error.
    ErrorResize,
    /// Take up one audio event.
    AudioEvent,
    /// Take up one of the other events.
    VideoEvent,
    /// Take up a new size of the window.
    Resize,
    /// Hand audio to the sink.
    Audio,
    /// Show the picture that is due.
    Video,
    /// Bring the subtitle up to date.
    Subtitle,
    /// Bring the volume display up to date.
    Volume,
    /// Draw the picture.
    Present,
    /// Take stock.
    Finish,
    Over,
}

/// How many stages are left at most, while no event is taken up.
pub open spec fn stages_left(stage: TickStage) -> int {
    match stage {
        TickStage::ErrorIdle => 4,
        TickStage::ErrorResize => 3,
        TickStage::AudioEvent => 9,
        TickStage::VideoEvent => 8,
        TickStage::Resize => 7,
        TickStage::Audio => 6,
        TickStage::Video => 5,
        TickStage::Subtitle => 4,
        TickStage::Volume => 3,
        TickStage::Present => 2,
        TickStage::Finish => 1,
        TickStage::Over => 0,
    }
}

/// The panel of recent files, as the presenter is asked to show it.
#[derive(Clone, Debug, PartialEq, Eq)]
pub struct RecentOverlay {
    pub rows: Vec<RecentRow>,
    pub selected: usize,
    pub viewport: Size,
}

/// Asks for the panel of recent files, for a view of ordinary size while its size
/// is not known.
pub fn plan_recent_overlay(rows: Vec<RecentRow>, selected: usize, viewport: Option<Size>) -> (r:
    RecentOverlay)
    ensures
        r.rows == rows,
        r.selected == selected,
        r.viewport == (match viewport {
            Some(size) => size,
            None => Size { width: 1280, height: 720 },
        }),
{
    let viewport = match viewport {
        Some(size) => size,
        None => Size { width: 1280, height: 720 },
    };
    RecentOverlay { rows, selected, viewport }
}

/// How a tick shows the picture.
#[derive(Clone, Copy, Debug, PartialEq, Eq, Structural)]
pub enum PresentPlan {
    /// Draw it and keep a copy for a screenshot.
    RenderWithCapture,
    /// Draw it.
    Render,
    /// There is nothing new to draw.
    Idle,
}

/// The words for a decode mode in the window title.
pub open spec fn decode_label_text(mode: VideoDecodeMode) -> Seq<char> {
    match mode {
        VideoDecodeMode::HardwareD3D11 => "HW:D3D11"@,
        VideoDecodeMode::Software => "SW"@,
    }
}

impl VideoDecodeMode {
    /// The words for the mode in the window title.
    pub fn label(self) -> (r: &'static str)
        ensures
            r@ == decode_label_text(self),
    {
        match self {
            VideoDecodeMode::HardwareD3D11 => "HW:D3D11",
            VideoDecodeMode::Software => "SW",
        }
    }
}

impl SessionModel {
    /// Whether the audio queue has room.
    pub open spec fn takes_audio(self) -> bool {
        self.audio.len() < self.audio_capacity
    }

    /// Whether the video queue has room.
    pub open spec fn takes_video(self) -> bool {
        self.video.len() < self.video_capacity
    }

    /// The stage after the audio events.
    pub open spec fn video_stage(self) -> TickStage {
        if self.takes_video() {
            TickStage::VideoEvent
        } else {
            TickStage::Resize
        }
    }

    /// The first stage of a tick.
    pub open spec fn first_stage(self) -> TickStage {
        if self.core.state == PlaybackState::Error {
            TickStage::ErrorIdle
        } else if self.takes_audio() {
            TickStage::AudioEvent
        } else {
            self.video_stage()
        }
    }

    /// The stage after another one. `goes_on` says, of the stages for events,
    /// whether there was one, and of the others whether the tick goes on.
    pub open spec fn stage_after(self, stage: TickStage, goes_on: bool) -> TickStage {
        match stage {
            TickStage::ErrorIdle => TickStage::ErrorResize,
            TickStage::ErrorResize => TickStage::Present,
            TickStage::AudioEvent => if goes_on && self.takes_audio() {
                TickStage::AudioEvent
            } else {
                self.video_stage()
            },
            TickStage::VideoEvent => if goes_on && self.takes_video() {
                TickStage::VideoEvent
            } else {
                TickStage::Resize
            },
            TickStage::Resize => TickStage::Audio,
            TickStage::Audio => TickStage::Video,
            TickStage::Video => if goes_on {
                TickStage::Subtitle
            } else {
                TickStage::Over
            },
            TickStage::Subtitle => TickStage::Volume,
            TickStage::Volume => TickStage::Present,
            TickStage::Present => if goes_on {
                TickStage::Finish
            } else {
                TickStage::Over
            },
            TickStage::Finish => TickStage::Over,
            TickStage::Over => TickStage::Over,
        }
    }

    /// At the start of a tick: what was cached is forgotten, and audio that is
    /// not played at this rate does not hold up the rest.
    #[verifier::opaque]
    pub open spec fn tick_begun(self) -> Self {
        SessionModel {
            core: SessionCore {
                idle_pace_requested: false,
                cached_buffered_frames: None,
                tick_active: true,
                ..self.core
            },
            audio: if self.core.state != PlaybackState::Error
                && self.core.playback_rate.hundredths != 100 {
                Seq::empty()
            } else {
                self.audio
            },
            ..self
        }
    }

    /// How this tick shows the picture.
    pub open spec fn present_plan(self) -> PresentPlan {
        if self.core.screenshot_pending {
            PresentPlan::RenderWithCapture
        } else if self.core.present_needed {
            PresentPlan::Render
        } else {
            PresentPlan::Idle
        }
    }

    /// After that was decided: a screenshot is taken once, and a tick with
    /// nothing to draw lets the program rest.
    #[verifier::opaque]
    pub open spec fn present_planned(self) -> Self {
        self.with(
            SessionCore {
                screenshot_pending: false,
                idle_pace_requested: self.core.idle_pace_requested || self.present_plan()
                    == PresentPlan::Idle,
                ..self.core
            },
        )
    }

    /// After the picture was shown, or could not be.
    #[verifier::opaque]
    pub open spec fn present_done(self, result: PresentResult) -> Self {
        match result {
            PresentResult::Shown => self.with(SessionCore { present_needed: false, ..self.core }),
            PresentResult::Occluded => self.with(
                SessionCore { present_needed: false, ..self.core },
            ),
            PresentResult::DeviceLost => self.device_lost(),
        }
    }

    /// Before the session goes: the worker has left, nothing is queued, and no
    /// sink is held.
    #[verifier::opaque]
    pub open spec fn shut_down(self) -> Self {
        self.torn_down(true).video_cleared().sink_released().act(SessionAction::PrepareForShutdown)
    }

    /// Without an audio sink and without queued audio.
    #[verifier::opaque]
    pub open spec fn sink_released(self) -> Self {
        SessionModel {
            core: SessionCore { sink: None, ..self.core },
            audio: Seq::empty(),
            actions: if self.core.sink is Some {
                self.actions.push(SessionAction::PauseAudioSink)
            } else {
                self.actions
            },
            ..self
        }
    }
}

impl PlaybackSession {
    /// Begins a tick.
    pub fn begin_tick(&mut self) -> (r: TickStage)
        requires
            old(self).wf(),
            !old(self)@.core.tick_active,
        ensures
            r == final(self)@.first_stage(),
            final(self)@ == old(self)@.tick_begun(),
            final(self).wf(),
    {
        proof {
            reveal(SessionModel::tick_begun);
        }
        let c = self.core;
        self.set_core(
            SessionCore {
                idle_pace_requested: false,
                cached_buffered_frames: None,
                tick_active: true,
                ..c
            },
        );
        match c.state {
            PlaybackState::Error => TickStage::ErrorIdle,
            _ => {
                if !c.playback_rate.is_normal() {
                    self.audio_queue.clear();
                    proof {
                        assert(self@.audio =~= Seq::empty());
                    }
                }
                if self.wants_audio_events() {
                    TickStage::AudioEvent
                } else {
                    self.stage_of_video()
                }
            },
        }
    }

    fn stage_of_video(&self) -> (r: TickStage)
        ensures
            r == self@.video_stage(),
    {
        if self.wants_video_events() {
            TickStage::VideoEvent
        } else {
            TickStage::Resize
        }
    }

    /// The stage after another one.
    pub fn next_stage(&self, stage: TickStage, goes_on: bool) -> (r: TickStage)
        ensures
            r == self@.stage_after(stage, goes_on),
    {
        match stage {
            TickStage::ErrorIdle => TickStage::ErrorResize,
            TickStage::ErrorResize => TickStage::Present,
            TickStage::AudioEvent => {
                if goes_on && self.wants_audio_events() {
                    TickStage::AudioEvent
                } else {
                    self.stage_of_video()
                }
            },
            TickStage::VideoEvent => {
                if goes_on && self.wants_video_events() {
                    TickStage::VideoEvent
                } else {
                    TickStage::Resize
                }
            },
            TickStage::Resize => TickStage::Audio,
            TickStage::Audio => TickStage::Video,
            TickStage::Video => {
                if goes_on {
                    TickStage::Subtitle
                } else {
                    TickStage::Over
                }
            },
            TickStage::Subtitle => TickStage::Volume,
            TickStage::Volume => TickStage::Present,
            TickStage::Present => {
                if goes_on {
                    TickStage::Finish
                } else {
                    TickStage::Over
                }
            },
            TickStage::Finish => TickStage::Over,
            TickStage::Over => TickStage::Over,
        }
    }

    /// Leaves a tick.
    pub fn end_tick(&mut self)
        requires
            old(self).wf(),
        ensures
            final(self)@ == old(self)@.with(
                SessionCore { tick_active: false, ..old(self)@.core },
            ),
            final(self).wf(),
    {
        let c = self.core;
        self.set_core(SessionCore { tick_active: false, ..c });
    }

    /// Whether audio events should be taken up: the audio queue has room.
    pub fn wants_audio_events(&self) -> (r: bool)
        ensures
            r == self@.takes_audio(),
    {
        self.audio_queue.len() < self.audio_capacity
    }

    /// Whether the other events should be taken up: the video queue has room.
    pub fn wants_video_events(&self) -> (r: bool)
        ensures
            r == self@.takes_video(),
    {
        !self.video_queue.is_full()
    }

    /// How many audio frames the sink holds. Within a tick the first answer of
    /// the device stands for all of it.
    pub fn current_buffered_frames(&mut self, queried: u32) -> (r: u32)
        requires
            old(self).wf(),
        ensures
            r == (match old(self)@.core.cached_buffered_frames {
                Some(cached) if old(self)@.core.tick_active => cached,
                _ => queried,
            }),
            final(self)@ == (if old(self)@.core.tick_active {
                old(self)@.with(SessionCore { cached_buffered_frames: Some(r), ..old(self)@.core })
            } else {
                old(self)@
            }),
            final(self).wf(),
    {
        let c = self.core;
        if !c.tick_active {
            return queried;
        }
        match c.cached_buffered_frames {
            Some(cached) => cached,
            None => {
                self.set_core(SessionCore { cached_buffered_frames: Some(queried), ..c });
                queried
            },
        }
    }

    /// Asks for the picture to be drawn again.
    pub fn request_present(&mut self)
        requires
            old(self).wf(),
        ensures
            final(self)@ == old(self)@.with(
                SessionCore { present_needed: true, ..old(self)@.core },
            ),
            final(self).wf(),
    {
        let c = self.core;
        self.set_core(SessionCore { present_needed: true, ..c });
    }

    /// Takes note of a timeline that the presenter was given, and of whether that
    /// changed what it draws.
    pub fn set_timeline_overlay(&mut self, changed: bool)
        requires
            old(self).wf(),
        ensures
            final(self)@ == old(self)@.with(
                SessionCore {
                    present_needed: old(self)@.core.present_needed || changed,
                    ..old(self)@.core
                },
            ),
            final(self).wf(),
    {
        let c = self.core;
        self.set_core(SessionCore { present_needed: c.present_needed || changed, ..c });
    }

    /// Takes up that the panel of recent files was shown, or why it could not be.
    pub fn show_recent_overlay(&mut self, outcome: Result<(), String>) -> (r: Result<(), String>)
        requires
            old(self).wf(),
        ensures
            r == outcome,
            final(self)@ == old(self)@.with(
                SessionCore {
                    present_needed: old(self)@.core.present_needed || outcome is Ok,
                    ..old(self)@.core
                },
            ),
            final(self).wf(),
    {
        let c = self.core;
        let present_needed = c.present_needed || outcome.is_ok();
        self.set_core(SessionCore { present_needed, ..c });
        outcome
    }

    /// Takes the panel of recent files down.
    pub fn clear_recent_overlay(&mut self)
        requires
            old(self).wf(),
        ensures
            final(self)@ == old(self)@.with(
                SessionCore { present_needed: true, ..old(self)@.core },
            ).act(SessionAction::ClearRecentOverlay),
            final(self).wf(),
    {
        let c = self.core;
        self.set_core(SessionCore { present_needed: true, ..c });
        self.push_action(SessionAction::ClearRecentOverlay);
    }

    /// Decides how this tick shows the picture.
    pub fn plan_present(&mut self) -> (r: PresentPlan)
        requires
            old(self).wf(),
        ensures
            r == old(self)@.present_plan(),
            final(self)@ == old(self)@.present_planned(),
            final(self).wf(),
    {
        proof {
            reveal(SessionModel::present_planned);
        }
        let c = self.core;
        let plan = if c.screenshot_pending {
            PresentPlan::RenderWithCapture
        } else if c.present_needed {
            PresentPlan::Render
        } else {
            PresentPlan::Idle
        };
        let idle = c.idle_pace_requested || (!c.screenshot_pending && !c.present_needed);
        self.set_core(
            SessionCore { screenshot_pending: false, idle_pace_requested: idle, ..c },
        );
        plan
    }

    /// Takes up how showing the picture went; returns whether the tick goes on.
    pub fn present_finished(&mut self, result: PresentResult) -> (r: bool)
        requires
            old(self).wf(),
        ensures
            r == (result != PresentResult::DeviceLost),
            final(self)@ == old(self)@.present_done(result),
            final(self).wf(),
    {
        proof {
            reveal(SessionModel::present_done);
        }
        let c = self.core;
        match result {
            PresentResult::Shown | PresentResult::Occluded => {
                self.set_core(SessionCore { present_needed: false, ..c });
                true
            },
            PresentResult::DeviceLost => {
                self.recover_device();
                false
            },
        }
    }

    /// The position that subtitles go by.
    pub fn subtitle_position(&mut self, now: Instant, buffered: u32) -> (r: Duration)
        requires
            old(self).wf(),
        ensures
            r == old(self)@.subtitle_at(now, buffered),
            final(self)@ == old(self)@.subtitle_clock_checked(now, buffered),
            final(self).wf(),
    {
        proof {
            reveal(SessionModel::subtitle_clock_checked);
        }
        let c = self.core;
        if let Some(target) = c.pending_seek_target {
            return target.position();
        }
        let master = match self.master_clock_position(now, buffered) {
            Some(p) => p,
            None => Duration::zero(),
        };
        if let Some(base) = c.overlay.subtitle_clock_base {
            if master.saturating_add(Duration::from_secs(1)).nanos < base.nanos {
                return base;
            }
        }
        self.set_core(
            SessionCore { overlay: OverlayManager { subtitle_clock_base: None, ..c.overlay }, ..c },
        );
        master
    }

    /// What the presenter has to do about the shown subtitle.
    pub fn plan_subtitle(&self, viewport: Size, cue: Option<usize>) -> (r: SubtitleStep)
        ensures
            r == self@.core.overlay.subtitle_step(viewport, cue),
    {
        self.core.overlay.plan_subtitle(viewport, cue)
    }

    /// Brings the shown subtitle up to date, once the presenter did what
    /// `plan_subtitle` asks for; a cue that it could not show is given back as the
    /// failure.
    pub fn update_subtitle_overlay(
        &mut self,
        viewport: Size,
        cue: Option<usize>,
        outcome: Result<(), String>,
    ) -> (r: Result<(), String>)
        requires
            old(self).wf(),
        ensures
            final(self)@ == old(self)@.subtitle_shown(viewport, cue, outcome is Ok),
            match (old(self)@.core.overlay.subtitle_step(viewport, cue), outcome) {
                (SubtitleStep::Show(_), Err(error)) => r == Err::<(), String>(error),
                _ => r is Ok,
            },
            final(self).wf(),
    {
        proof {
            reveal(SessionModel::subtitle_shown);
        }
        let c = self.core;
        let mut overlay = c.overlay;
        match overlay.update_subtitle(viewport, cue, outcome) {
            Ok(changed) => {
                let present_needed = c.present_needed || changed;
                self.set_core(SessionCore { overlay, present_needed, ..c });
                Ok(())
            },
            Err(error) => Err(error),
        }
    }

    /// Whether the presenter has to be asked to remove the volume display.
    pub fn volume_removal_due(&self, now: Instant) -> (r: bool)
        ensures
            r == self@.core.overlay.volume_is_over(now),
    {
        self.core.overlay.volume_removal_due(now)
    }

    /// Takes the volume display down once its time is over; `outcome` is the
    /// answer of the presenter to the removal.
    pub fn refresh_volume_overlay(&mut self, now: Instant, outcome: Result<bool, String>) -> (r:
        Result<(), String>)
        requires
            old(self).wf(),
        ensures
            final(self)@ == old(self)@.volume_checked(now, outcome),
            match outcome {
                Err(error) if old(self)@.core.overlay.volume_is_over(now) => r == Err::<(), String>(
                    error,
                ),
                _ => r is Ok,
            },
            final(self).wf(),
    {
        proof {
            reveal(SessionModel::volume_checked);
        }
        let c = self.core;
        let mut overlay = c.overlay;
        match overlay.refresh_volume(now, outcome) {
            Ok(changed) => {
                let present_needed = c.present_needed || changed;
                self.set_core(SessionCore { overlay, present_needed, ..c });
                Ok(())
            },
            Err(error) => Err(error),
        }
    }

    fn release_sink(&mut self)
        requires
            old(self).wf(),
        ensures
            final(self)@ == old(self)@.sink_released(),
            final(self).wf(),
    {
        proof {
            reveal(SessionModel::sink_released);
        }
        let c = self.core;
        if c.sink.is_some() {
            self.actions.push(SessionAction::PauseAudioSink);
        }
        self.audio_queue.clear();
        self.core = SessionCore { sink: None, ..c };
        proof {
            assert(self@.audio =~= Seq::empty());
        }
    }

    /// Prepares for the end of the session.
    pub fn shutdown(&mut self)
        requires
            old(self).wf(),
        ensures
            final(self)@ == old(self)@.shut_down(),
            final(self).wf(),
    {
        proof {
            reveal(SessionModel::shut_down);
        }
        self.teardown_decoder(true);
        self.clear_video_queue();
        self.release_sink();
        self.push_action(SessionAction::PrepareForShutdown);
    }

    /// Counts out a decode worker that has left.
    pub fn worker_exited(&mut self)
        requires
            old(self).wf(),
        ensures
            final(self)@ == old(self)@.with(
                SessionCore {
                    decode_thread: old(self)@.core.decode_thread.left(),
                    ..old(self)@.core
                },
            ),
            final(self).wf(),
    {
        let c = self.core;
        let mut decode_thread = c.decode_thread;
        decode_thread.worker_exited();
        self.set_core(SessionCore { decode_thread, ..c });
    }

    /// Whether the program may rest, and forgets it.
    pub fn take_idle_pace_request(&mut self) -> (r: bool)
        requires
            old(self).wf(),
        ensures
            r == old(self)@.core.idle_pace_requested,
            final(self)@ == old(self)@.with(
                SessionCore { idle_pace_requested: false, ..old(self)@.core },
            ),
            final(self).wf(),
    {
        let c = self.core;
        self.set_core(SessionCore { idle_pace_requested: false, ..c });
        c.idle_pace_requested
    }

    /// Whether nothing advances by itself, so that the program may wait for input.
    pub fn is_idle_for_input(&self) -> (r: bool)
        ensures
            r == (self@.core.state == PlaybackState::Idle || self@.core.state
                == PlaybackState::Paused || self@.core.state == PlaybackState::Ended
                || self@.core.state == PlaybackState::Error),
    {
        match self.core.state {
            PlaybackState::Idle
            | PlaybackState::Paused
            | PlaybackState::Ended
            | PlaybackState::Error => true,
            _ => false,
        }
    }

    pub fn is_paused(&self) -> (r: bool)
        ensures
            r == (self@.core.state == PlaybackState::Paused),
    {
        match self.core.state {
            PlaybackState::Paused => true,
            _ => false,
        }
    }

    pub fn media_duration(&self) -> (r: Option<Duration>)
        ensures
            r == self@.core.media_duration,
    {
        self.core.media_duration
    }

    pub fn auto_replay(&self) -> (r: bool)
        ensures
            r == self@.core.clip_range.auto_replay,
    {
        self.core.clip_range.auto_replay()
    }

    pub fn in_point(&self) -> (r: Option<Duration>)
        ensures
            r == self@.core.clip_range.in_point,
    {
        self.core.clip_range.in_point()
    }

    pub fn out_point(&self) -> (r: Option<Duration>)
        ensures
            r == self@.core.clip_range.out_point,
    {
        self.core.clip_range.out_point()
    }

    pub fn loop_range(&self) -> (r: bool)
        ensures
            r == self@.core.clip_range.loop_range,
    {
        self.core.clip_range.loop_range()
    }

    pub fn position_is_in_active_range(&self, position: Duration) -> (r: bool)
        ensures
            r == self@.core.clip_range.contains(position),
    {
        self.core.clip_range.position_is_in_active_range(position)
    }

    pub fn replay_indicator_until(&self) -> (r: Option<Instant>)
        ensures
            r == self@.core.overlay.replay_indicator_until,
    {
        self.core.overlay.replay_indicator_until()
    }

    /// The title of the window.
    pub fn window_title(&self) -> (r: String)
        ensures
            r@ == title_text(
                self@.core.overlay.show_decode_info,
                match self@.source {
                    Some(path) => file_name_seq(path),
                    None => None,
                },
                self@.core.playback_rate,
                match self@.core.active_decode_mode {
                    Some(mode) => Some(decode_label_text(mode)),
                    None => None,
                },
            ),
    {
        let name: Option<String> = match &self.source {
            Some(path) => file_name(path.as_str()),
            None => None,
        };
        let label: Option<&str> = match self.core.active_decode_mode {
            Some(mode) => Some(mode.label()),
            None => None,
        };
        match &name {
            Some(n) => self.core.overlay.window_title(
                Some(n.as_str()),
                self.core.playback_rate,
                label,
            ),
            None => self.core.overlay.window_title(None, self.core.playback_rate, label),
        }
    }
}

/// Releasing the sink pauses it if there is one, and drops what waits for it.
pub proof fn sink_is_released(m: SessionModel)
    ensures
        m.sink_released().core.sink is None,
        m.sink_released().core == (SessionCore { sink: None, ..m.core }),
        m.sink_released().audio.len() == 0,
        m.sink_released().video == m.video,
        m.sink_released().actions == (if m.core.sink is Some {
            m.actions.push(SessionAction::PauseAudioSink)
        } else {
            m.actions
        }),
{
    reveal(SessionModel::sink_released);
}

/// A tick comes to its end: each stage brings it nearer, but for those that take
/// up an event.
pub proof fn tick_comes_to_an_end(m: SessionModel, stage: TickStage, goes_on: bool)
    requires
        stage != TickStage::Over,
    ensures
        stages_left(m.stage_after(stage, goes_on)) < stages_left(stage) || (goes_on
            && m.stage_after(stage, goes_on) == stage && (stage == TickStage::AudioEvent || stage
            == TickStage::VideoEvent)),
{
}

/// After an error a tick takes up no event and plays nothing: it shows how to go
/// on, takes up a new size and draws.
pub proof fn tick_after_an_error_plays_nothing(m: SessionModel, goes_on: bool)
    requires
        m.core.state == PlaybackState::Error,
    ensures
        m.first_stage() == TickStage::ErrorIdle,
        m.stage_after(TickStage::ErrorIdle, goes_on) == TickStage::ErrorResize,
        m.stage_after(TickStage::ErrorResize, goes_on) == TickStage::Present,
{
}

/// A full video queue does not hold up audio events.
pub proof fn full_video_queue_lets_audio_in(m: SessionModel)
    requires
        m.core.state != PlaybackState::Error,
        m.takes_audio(),
        !m.takes_video(),
    ensures
        m.first_stage() == TickStage::AudioEvent,
        m.stage_after(TickStage::AudioEvent, true) == TickStage::AudioEvent,
{
}

} // verus!
