//! Scrubbing along the timeline with the mouse, and when the timeline shows.
use vstd::prelude::*;
use crate::commands::SessionCommand;
use crate::media::SeekTarget;
use crate::overlay::Size;
use crate::session::PlaybackSession;
use crate::session_laws::seek_core;
use crate::session_model::{DeviceView, SessionCore, SessionModel, SinkCall, SinkRefused};
use crate::state::PlaybackState;
use crate::time::{Duration, Instant, MAX_NANOS};
use crate::transport_laws::{decoder_start, has_media, seek_asks_for_its_target, shows};

verus! {

/// Nanoseconds that the timeline shows after a seek by key.
pub const SEEK_OVERLAY_NANOS: u128 = 800_000_000;

/// What the timeline shows.
#[derive(Clone, Copy, Debug, PartialEq, Eq, Structural)]
pub struct TimelineOverlay {
    pub viewport: Size,
    pub position: Duration,
    pub preview: Option<Duration>,
    pub duration: Duration,
    pub repeats: bool,
    pub in_point: Option<Duration>,
    pub out_point: Option<Duration>,
}

/// What the window reports about the mouse.
#[derive(Clone, Copy, Debug, PartialEq, Eq, Structural)]
pub struct TimelineInput {
    pub borderless: bool,
    pub left_button_down: bool,
    pub ctrl_held: bool,
    /// Whether the cursor is near the timeline.
    pub hovered: bool,
    /// Whether the cursor is on the bar of the timeline.
    pub on_bar: bool,
    /// The media position below the cursor, if there is a cursor.
    pub cursor_target: Option<Duration>,
    pub viewport: Size,
}

/// What a scrub asks of the session.
#[derive(Clone, Copy, Debug, PartialEq, Eq, Structural)]
pub enum ScrubAction {
    Nothing,
    Seek(Duration),
    /// Play on after the scrub.
    Resume,
}

/// What to do about the shown timeline.
#[derive(Clone, Copy, Debug, PartialEq, Eq, Structural)]
pub enum TimelineChange {
    Keep,
    Replace(Option<TimelineOverlay>),
}

/// The state of scrubbing.
#[derive(Clone, Copy, Debug, PartialEq, Eq, Structural)]
pub struct TimelineUiState {
    pub was_left_button_down: bool,
    pub scrubbing: bool,
    pub scrub_was_paused: bool,
    pub scrub_origin: Option<Duration>,
    pub preview_target: Option<Duration>,
    pub last_overlay: Option<TimelineOverlay>,
    pub seek_overlay_until: Option<Instant>,
}

/// The shorter of two spans.
pub open spec fn earlier(a: Duration, b: Duration) -> Duration {
    if a@ <= b@ {
        a
    } else {
        b
    }
}

impl TimelineUiState {
    /// Without a scrub.
    pub open spec fn released(self) -> Self {
        TimelineUiState { scrubbing: false, scrub_origin: None, preview_target: None, ..self }
    }

    pub fn new() -> (r: Self)
        ensures
            r == (TimelineUiState {
                was_left_button_down: false,
                scrubbing: false,
                scrub_was_paused: false,
                scrub_origin: None,
                preview_target: None,
                last_overlay: None,
                seek_overlay_until: None,
            }),
    {
        TimelineUiState {
            was_left_button_down: false,
            scrubbing: false,
            scrub_was_paused: false,
            scrub_origin: None,
            preview_target: None,
            last_overlay: None,
            seek_overlay_until: None,
        }
    }

    pub fn is_scrubbing(&self) -> (r: bool)
        ensures
            r == self.scrubbing,
    {
        self.scrubbing
    }

    /// What the mouse does to the scrub: a press on the bar begins one and
    /// seeks, a move along it seeks again, and a release ends it. Borderless
    /// windows have no timeline, and with the control key held the mouse pans.
    pub open spec fn scrub_step(
        self,
        input: TimelineInput,
        duration: Duration,
        paused: bool,
        position: Duration,
    ) -> (Self, ScrubAction) {
        if input.borderless {
            (self.released(), ScrubAction::Nothing)
        } else if !self.was_left_button_down && input.left_button_down && !input.ctrl_held {
            match input.cursor_target {
                Some(target) if input.on_bar => (
                    TimelineUiState {
                        scrubbing: true,
                        scrub_was_paused: paused,
                        scrub_origin: Some(earlier(position, duration)),
                        preview_target: Some(target),
                        ..self
                    },
                    ScrubAction::Seek(target),
                ),
                _ => (self, ScrubAction::Nothing),
            }
        } else if self.scrubbing && input.left_button_down {
            match input.cursor_target {
                Some(target) if self.preview_target != Some(target) => (
                    TimelineUiState { preview_target: Some(target), ..self },
                    ScrubAction::Seek(target),
                ),
                _ => (self, ScrubAction::Nothing),
            }
        } else if self.scrubbing && self.was_left_button_down && !input.left_button_down {
            (
                self.released(),
                if !self.scrub_was_paused && paused {
                    ScrubAction::Resume
                } else {
                    ScrubAction::Nothing
                },
            )
        } else {
            (self, ScrubAction::Nothing)
        }
    }

    fn step_scrub(
        &mut self,
        input: TimelineInput,
        duration: Duration,
        paused: bool,
        position: Duration,
    ) -> (r: ScrubAction)
        ensures
            (*final(self), r) == old(self).scrub_step(input, duration, paused, position),
    {
        if input.borderless {
            self.scrubbing = false;
            self.scrub_origin = None;
            self.preview_target = None;
            ScrubAction::Nothing
        } else if !self.was_left_button_down && input.left_button_down && !input.ctrl_held {
            match input.cursor_target {
                Some(target) => if input.on_bar {
                    self.scrubbing = true;
                    self.scrub_was_paused = paused;
                    self.scrub_origin = Some(position.shorter(duration));
                    self.preview_target = Some(target);
                    ScrubAction::Seek(target)
                } else {
                    ScrubAction::Nothing
                },
                None => ScrubAction::Nothing,
            }
        } else if self.scrubbing && input.left_button_down {
            match input.cursor_target {
                Some(target) => {
                    let same = match self.preview_target {
                        Some(p) => p.nanos == target.nanos,
                        None => false,
                    };
                    if same {
                        ScrubAction::Nothing
                    } else {
                        self.preview_target = Some(target);
                        ScrubAction::Seek(target)
                    }
                },
                None => ScrubAction::Nothing,
            }
        } else if self.scrubbing && self.was_left_button_down && !input.left_button_down {
            self.scrubbing = false;
            self.scrub_origin = None;
            self.preview_target = None;
            if !self.scrub_was_paused && paused {
                ScrubAction::Resume
            } else {
                ScrubAction::Nothing
            }
        } else {
            ScrubAction::Nothing
        }
    }

    /// Whether the timeline shows: while the cursor is near it, during a scrub,
    /// and for a while after a seek or a change of the replay preference.
    pub open spec fn is_visible(
        self,
        input: TimelineInput,
        duration: Duration,
        replay_indicator_until: Option<Instant>,
        now: Instant,
    ) -> bool {
        &&& !input.borderless
        &&& duration@ > 0
        &&& (input.hovered || self.scrubbing || (replay_indicator_until matches Some(until) && now@
            < until@) || (self.seek_overlay_until matches Some(until) && now@ < until@))
    }

    /// The timeline for a session. During a scrub the playhead stays where the
    /// scrub began.
    pub open spec fn overlay_for(
        self,
        session: SessionModel,
        input: TimelineInput,
        duration: Duration,
        now: Instant,
        buffered: u32,
    ) -> Option<TimelineOverlay> {
        if self.is_visible(input, duration, session.core.overlay.replay_indicator_until, now) {
            Some(
                TimelineOverlay {
                    viewport: input.viewport,
                    position: earlier(
                        match self.scrub_origin {
                            Some(origin) => origin,
                            None => session.shown(now, buffered).position,
                        },
                        duration,
                    ),
                    preview: self.preview_target,
                    duration,
                    repeats: session.core.clip_range.auto_replay
                        || session.core.clip_range.loop_range,
                    in_point: session.core.clip_range.in_point,
                    out_point: session.core.clip_range.out_point,
                },
            )
        } else {
            None
        }
    }

    /// The session after what the scrub asked of it.
    pub open spec fn session_after(
        self,
        session: SessionModel,
        action: ScrubAction,
        now: Instant,
        devices: DeviceView,
    ) -> SessionModel {
        match action {
            ScrubAction::Nothing => session,
            ScrubAction::Seek(target) => session.with(
                SessionCore { pause_after_seek: self.scrub_was_paused, ..session.core },
            ).sought(SeekTarget { position: target }),
            ScrubAction::Resume => session.commanded(SessionCommand::TogglePause, now, devices),
        }
    }

    fn sync_overlay(&mut self, overlay: Option<TimelineOverlay>) -> (r: TimelineChange)
        ensures
            *final(self) == (TimelineUiState { last_overlay: overlay, ..*old(self) }),
            r == (if old(self).last_overlay == overlay {
                TimelineChange::Keep
            } else {
                TimelineChange::Replace(overlay)
            }),
    {
        let same = match (self.last_overlay, overlay) {
            (Some(a), Some(b)) => a == b,
            (None, None) => true,
            _ => false,
        };
        if same {
            return TimelineChange::Keep;
        }
        self.last_overlay = overlay;
        TimelineChange::Replace(overlay)
    }

    /// Whether that fails because the sink did not do what was asked for.
    pub open spec fn is_refused(
        session: SessionModel,
        action: ScrubAction,
        now: Instant,
        devices: DeviceView,
    ) -> bool {
        action == ScrubAction::Resume && session.is_refused(
            SessionCommand::TogglePause,
            now,
            devices,
        )
    }

    fn perform(
        &self,
        session: &mut PlaybackSession,
        action: ScrubAction,
        now: Instant,
        devices: DeviceView,
    ) -> (r: Result<(), SinkRefused>)
        requires
            old(session).wf(),
            now@ <= MAX_NANOS,
        ensures
            final(session)@ == self.session_after(old(session)@, action, now, devices),
            r is Err <==> Self::is_refused(old(session)@, action, now, devices),
            final(session).wf(),
    {
        match action {
            ScrubAction::Nothing => Ok(()),
            ScrubAction::Seek(target) => {
                session.scrub_seek(SeekTarget::new(target), self.scrub_was_paused);
                Ok(())
            },
            ScrubAction::Resume => session.apply_command(
                SessionCommand::TogglePause,
                now,
                devices,
            ),
        }
    }

    /// What `update` asks of the sink before it is called.
    pub open spec fn update_call(
        self,
        session: SessionModel,
        now: Instant,
        input: TimelineInput,
        buffered: u32,
    ) -> SinkCall {
        match session.core.media_duration {
            Some(duration) => {
                let step = self.scrub_step(
                    input,
                    duration,
                    session.core.state == PlaybackState::Paused,
                    session.shown(now, buffered).position,
                );
                if step.1 == ScrubAction::Resume {
                    session.toggle_call(now, buffered)
                } else {
                    SinkCall::Nothing
                }
            },
            None => SinkCall::Nothing,
        }
    }

    /// What `update` asks of the sink before it is called.
    pub fn sink_call(
        &self,
        session: &PlaybackSession,
        now: Instant,
        input: TimelineInput,
        buffered: u32,
    ) -> (r: SinkCall)
        ensures
            r == self.update_call(session@, now, input, buffered),
    {
        match session.media_duration() {
            Some(duration) => {
                let position = session.snapshot(now, buffered).position;
                let mut copy = *self;
                match copy.step_scrub(input, duration, session.is_paused(), position) {
                    ScrubAction::Resume => session.sink_call(
                        SessionCommand::TogglePause,
                        now,
                        buffered,
                    ),
                    _ => SinkCall::Nothing,
                }
            },
            None => SinkCall::Nothing,
        }
    }

    fn build_overlay(
        &self,
        session: &PlaybackSession,
        input: TimelineInput,
        duration: Duration,
        now: Instant,
        buffered: u32,
    ) -> (r: Option<TimelineOverlay>)
        ensures
            r == self.overlay_for(session@, input, duration, now, buffered),
    {
        let replay_active = match session.replay_indicator_until() {
            Some(until) => now.nanos < until.nanos,
            None => false,
        };
        let seek_active = match self.seek_overlay_until {
            Some(until) => now.nanos < until.nanos,
            None => false,
        };
        if input.borderless || duration.is_zero() || !(input.hovered || self.scrubbing
            || replay_active || seek_active) {
            return None;
        }
        let position = match self.scrub_origin {
            Some(origin) => origin,
            None => session.snapshot(now, buffered).position,
        };
        Some(
            TimelineOverlay {
                viewport: input.viewport,
                position: position.shorter(duration),
                preview: self.preview_target,
                duration,
                repeats: session.auto_replay() || session.loop_range(),
                in_point: session.in_point(),
                out_point: session.out_point(),
            },
        )
    }

    /// Takes up the mouse, once the sink was asked for what `sink_call` says. While
    /// the length of the media is not known there is nothing to scrub, and nothing
    /// shows. Where the sink did not do it, the scrub is over and the rest is left
    /// as it was.
    pub fn update(
        &mut self,
        session: &mut PlaybackSession,
        now: Instant,
        input: TimelineInput,
        devices: DeviceView,
    ) -> (r: Result<TimelineChange, SinkRefused>)
        requires
            old(session).wf(),
            now@ <= MAX_NANOS,
        ensures
            final(session).wf(),
            match old(session)@.core.media_duration {
                None => {
                    &&& final(session)@ == old(session)@
                    &&& *final(self) == (TimelineUiState {
                        scrubbing: false,
                        preview_target: None,
                        last_overlay: None,
                        was_left_button_down: input.left_button_down,
                        ..*old(self)
                    })
                    &&& r == Ok::<TimelineChange, SinkRefused>(
                        if old(self).last_overlay is None {
                            TimelineChange::Keep
                        } else {
                            TimelineChange::Replace(None)
                        },
                    )
                },
                Some(duration) => {
                    let before = old(session)@;
                    let step = old(self).scrub_step(
                        input,
                        duration,
                        before.core.state == PlaybackState::Paused,
                        before.shown(now, devices.buffered_frames).position,
                    );
                    let after = step.0.session_after(before, step.1, now, devices);
                    let overlay = step.0.overlay_for(
                        after,
                        input,
                        duration,
                        now,
                        devices.buffered_frames,
                    );
                    &&& final(session)@ == after
                    &&& if Self::is_refused(before, step.1, now, devices) {
                        *final(self) == step.0 && r == Err::<TimelineChange, SinkRefused>(
                            SinkRefused,
                        )
                    } else {
                        &&& *final(self) == (TimelineUiState {
                            last_overlay: overlay,
                            was_left_button_down: input.left_button_down,
                            ..step.0
                        })
                        &&& r == Ok::<TimelineChange, SinkRefused>(
                            if old(self).last_overlay == overlay {
                                TimelineChange::Keep
                            } else {
                                TimelineChange::Replace(overlay)
                            },
                        )
                    }
                },
            },
    {
        let duration = match session.media_duration() {
            Some(duration) => duration,
            None => {
                self.scrubbing = false;
                self.preview_target = None;
                let change = self.sync_overlay(None);
                self.was_left_button_down = input.left_button_down;
                return Ok(change);
            },
        };
        let paused = session.is_paused();
        let position = session.snapshot(now, devices.buffered_frames).position;
        let action = self.step_scrub(input, duration, paused, position);
        match self.perform(session, action, now, devices) {
            Ok(_) => {},
            Err(_) => return Err(SinkRefused),
        }
        let overlay = self.build_overlay(session, input, duration, now, devices.buffered_frames);
        let change = self.sync_overlay(overlay);
        self.was_left_button_down = input.left_button_down;
        Ok(change)
    }

    /// After a change that the presenter could not draw: what is shown and the
    /// mouse button are as they were before the update, so that the next one asks
    /// again.
    pub open spec fn undrawn(self, before: Self) -> Self {
        TimelineUiState {
            last_overlay: before.last_overlay,
            was_left_button_down: before.was_left_button_down,
            ..self
        }
    }

    /// Takes up that the presenter could not draw the change that `update` asked
    /// for; `before` is the state before that update.
    pub fn drawing_failed(&mut self, before: &TimelineUiState)
        ensures
            *final(self) == old(self).undrawn(*before),
    {
        self.last_overlay = before.last_overlay;
        self.was_left_button_down = before.was_left_button_down;
    }

    /// The session after a scrub was given up, before it plays again: back where
    /// the scrub began.
    pub open spec fn session_back(self, session: SessionModel) -> SessionModel {
        match self.scrub_origin {
            Some(origin) => session.with(
                SessionCore { pause_after_seek: self.scrub_was_paused, ..session.core },
            ).sought(SeekTarget { position: origin }),
            None => session,
        }
    }

    /// Whether a session that went back has to be set playing again.
    pub open spec fn plays_again(self, session: SessionModel) -> bool {
        self.scrub_origin is Some && !self.scrub_was_paused && self.session_back(session).core.state
            == PlaybackState::Paused
    }

    /// What `cancel_scrub` asks of the sink before it is called.
    pub open spec fn cancel_call(
        self,
        session: SessionModel,
        now: Instant,
        buffered: u32,
    ) -> SinkCall {
        if self.plays_again(session) {
            self.session_back(session).toggle_call(now, buffered)
        } else {
            SinkCall::Nothing
        }
    }

    /// The session after a scrub was given up: back where the scrub began, and
    /// playing if it was.
    pub open spec fn session_cancelled(
        self,
        session: SessionModel,
        now: Instant,
        devices: DeviceView,
    ) -> SessionModel {
        if self.plays_again(session) {
            self.session_back(session).commanded(SessionCommand::TogglePause, now, devices)
        } else {
            self.session_back(session)
        }
    }

    /// What `cancel_scrub` asks of the sink before it is called.
    pub fn cancel_sink_call(&self, session: &PlaybackSession, now: Instant, buffered: u32) -> (r:
        SinkCall)
        ensures
            r == self.cancel_call(session@, now, buffered),
    {
        proof {
            if let Some(origin) = self.scrub_origin {
                let held = session@.with(
                    SessionCore { pause_after_seek: self.scrub_was_paused, ..session@.core },
                );
                reveal(SessionModel::sought);
                if held.accepts_seek() {
                    seek_core(held, SeekTarget { position: origin });
                } else {
                    assert(self.session_back(session@) == held);
                }
            }
        }
        if self.scrub_origin.is_some() && !self.scrub_was_paused && session.is_paused()
            && session.source.is_none() {
            session.sink_call(SessionCommand::TogglePause, now, buffered)
        } else {
            SinkCall::Nothing
        }
    }

    /// Gives a scrub up, once the sink was asked for what `cancel_sink_call` says.
    /// Where the sink did not do it, the scrub goes on.
    pub fn cancel_scrub(
        &mut self,
        session: &mut PlaybackSession,
        now: Instant,
        devices: DeviceView,
    ) -> (r: Result<(), SinkRefused>)
        requires
            old(session).wf(),
            now@ <= MAX_NANOS,
        ensures
            final(session).wf(),
            final(session)@ == old(self).session_cancelled(old(session)@, now, devices),
            r is Err <==> !devices.sink_obeyed && old(self).cancel_call(
                old(session)@,
                now,
                devices.buffered_frames,
            ) != SinkCall::Nothing,
            *final(self) == (if r is Err {
                *old(self)
            } else {
                old(self).released()
            }),
    {
        if let Some(origin) = self.scrub_origin {
            session.scrub_seek(SeekTarget::new(origin), self.scrub_was_paused);
            if !self.scrub_was_paused && session.is_paused() {
                match session.apply_command(SessionCommand::TogglePause, now, devices) {
                    Ok(_) => {},
                    Err(_) => return Err(SinkRefused),
                }
            }
        }
        self.scrubbing = false;
        self.scrub_origin = None;
        self.preview_target = None;
        Ok(())
    }
}

/// A change that could not be drawn is asked for again: what is shown then still
/// differs from the overlay that was wanted.
pub proof fn undrawn_change_is_asked_for_again(
    before: TimelineUiState,
    after: TimelineUiState,
    overlay: Option<TimelineOverlay>,
)
    requires
        before.last_overlay != overlay,
        after.last_overlay == overlay,
    ensures
        after.undrawn(before).last_overlay != overlay,
        after.undrawn(before).scrubbing == after.scrubbing,
        after.undrawn(before).preview_target == after.preview_target,
{
}

/// Holding the mouse still during a scrub seeks once.
pub proof fn still_mouse_seeks_once(
    ui: TimelineUiState,
    input: TimelineInput,
    duration: Duration,
    paused: bool,
    position: Duration,
    paused_later: bool,
    position_later: Duration,
)
    requires
        input.left_button_down,
        !input.borderless,
    ensures
        ({
            let first = ui.scrub_step(input, duration, paused, position).0;
            let held = TimelineUiState { was_left_button_down: true, ..first };
            held.scrub_step(input, duration, paused_later, position_later).1
                == ScrubAction::Nothing || input.cursor_target != first.preview_target
        }),
{
}

/// A release always ends the scrub.
pub proof fn release_ends_the_scrub(
    ui: TimelineUiState,
    input: TimelineInput,
    duration: Duration,
    paused: bool,
    position: Duration,
)
    requires
        ui.scrubbing ==> ui.was_left_button_down,
        !input.left_button_down,
    ensures
        !ui.scrub_step(input, duration, paused, position).0.scrubbing,
{
}

/// A borderless window never scrubs and never shows the timeline.
pub proof fn borderless_has_no_timeline(
    ui: TimelineUiState,
    input: TimelineInput,
    duration: Duration,
    paused: bool,
    position: Duration,
    until: Option<Instant>,
    now: Instant,
)
    requires
        input.borderless,
    ensures
        !ui.scrub_step(input, duration, paused, position).0.scrubbing,
        ui.scrub_step(input, duration, paused, position).1 == ScrubAction::Nothing,
        !ui.is_visible(input, duration, until, now),
{
}

/// A press on the bar begins a scrub and seeks the place below the cursor; where
/// playback was, and whether it was paused, are remembered. A press beside the bar, or
/// with the control key held, does not.
pub proof fn press_on_the_bar_seeks_its_place(
    ui: TimelineUiState,
    input: TimelineInput,
    target: Duration,
    duration: Duration,
    paused: bool,
    position: Duration,
)
    requires
        !input.borderless,
        !ui.was_left_button_down,
        input.left_button_down,
        input.cursor_target == Some(target),
    ensures
        ({
            let s = ui.scrub_step(input, duration, paused, position);
            let begins = input.on_bar && !input.ctrl_held;
            &&& (begins ==> s.1 == ScrubAction::Seek(target))
            &&& (begins ==> s.0.scrubbing)
            &&& (begins ==> s.0.scrub_was_paused == paused)
            &&& (begins ==> s.0.preview_target == Some(target))
            &&& (begins ==> s.0.scrub_origin is Some)
            &&& (begins && position@ <= duration@ ==> s.0.scrub_origin == Some(position))
            &&& (begins && position@ > duration@ ==> s.0.scrub_origin == Some(duration))
            &&& (!begins && !ui.scrubbing ==> s == (ui, ScrubAction::Nothing))
            &&& s.0.last_overlay == ui.last_overlay
            &&& s.0.seek_overlay_until == ui.seek_overlay_until
        }),
{
}

/// Moving along the bar with the button down seeks each new place once; where the
/// scrub began is not forgotten.
pub proof fn scrub_follows_the_cursor(
    ui: TimelineUiState,
    input: TimelineInput,
    target: Duration,
    duration: Duration,
    paused: bool,
    position: Duration,
)
    requires
        !input.borderless,
        ui.scrubbing,
        ui.was_left_button_down,
        input.left_button_down,
        input.cursor_target == Some(target),
    ensures
        ({
            let s = ui.scrub_step(input, duration, paused, position);
            &&& s.0.scrubbing
            &&& s.0.preview_target == Some(target)
            &&& s.0.scrub_origin == ui.scrub_origin
            &&& s.0.scrub_was_paused == ui.scrub_was_paused
            &&& s.1 == (if ui.preview_target == Some(target) {
                ScrubAction::Nothing
            } else {
                ScrubAction::Seek(target)
            })
        }),
{
}

/// A release sets playback going again if it ran when the scrub began and is paused
/// now; a scrub of paused playback stays paused.
pub proof fn release_goes_on_as_before(
    ui: TimelineUiState,
    input: TimelineInput,
    duration: Duration,
    paused: bool,
    position: Duration,
)
    requires
        !input.borderless,
        ui.scrubbing,
        ui.was_left_button_down,
        !input.left_button_down,
    ensures
        ({
            let s = ui.scrub_step(input, duration, paused, position);
            &&& (s.1 == ScrubAction::Resume <==> paused && !ui.scrub_was_paused)
            &&& (s.1 == ScrubAction::Resume || s.1 == ScrubAction::Nothing)
            &&& s.0.scrub_origin is None
            &&& s.0.preview_target is None
            &&& !s.0.scrubbing
        }),
{
}

/// The seek of a scrub leads to its place, no further than the end, and holds the
/// picture there if playback was paused when the scrub began.
pub proof fn scrub_seeks_in_the_session(
    ui: TimelineUiState,
    session: SessionModel,
    target: Duration,
    now: Instant,
    devices: DeviceView,
)
    requires
        has_media(session),
    ensures
        ({
            let s = ui.session_after(session, ScrubAction::Seek(target), now, devices);
            let landing = s.core.pending_seek_target;
            &&& s.core.state == PlaybackState::Seeking
            &&& landing is Some
            &&& landing.unwrap().position@ == (match session.core.media_duration {
                Some(end) if end@ < target@ => end@,
                _ => target@,
            })
            &&& s.core.pause_after_seek == ui.scrub_was_paused
            &&& decoder_start(s.actions.last()) is Some
            &&& decoder_start(s.actions.last()) == s.core.seek_discard_before_pts
        }),
        ui.session_after(session, ScrubAction::Nothing, now, devices) == session,
{
    seek_asks_for_its_target(
        session.with(SessionCore { pause_after_seek: ui.scrub_was_paused, ..session.core }),
        target,
    );
}

/// A scrub that is given up leads back to where it began, held there if playback was
/// paused then.
pub proof fn cancelled_scrub_goes_back(
    ui: TimelineUiState,
    session: SessionModel,
    origin: Duration,
    now: Instant,
    devices: DeviceView,
)
    requires
        has_media(session),
        ui.scrub_origin == Some(origin),
    ensures
        ({
            let s = ui.session_cancelled(session, now, devices);
            let landing = s.core.pending_seek_target;
            &&& s.core.state == PlaybackState::Seeking
            &&& landing is Some
            &&& landing.unwrap().position@ == (match session.core.media_duration {
                Some(end) if end@ < origin@ => end@,
                _ => origin@,
            })
            &&& s.core.pause_after_seek == ui.scrub_was_paused
        }),
{
    seek_asks_for_its_target(
        session.with(SessionCore { pause_after_seek: ui.scrub_was_paused, ..session.core }),
        origin,
    );
}

/// The timeline shows while the cursor is near, during a scrub, and for a while after
/// a seek or a change of the replay preference; never in a borderless window, and
/// never for a file without length. It shows the position, which stands still during a
/// scrub, the place below the cursor, the marks and whether playback repeats.
pub proof fn timeline_shows_the_session(
    ui: TimelineUiState,
    session: SessionModel,
    input: TimelineInput,
    duration: Duration,
    position: Duration,
    now: Instant,
    buffered: u32,
)
    requires
        shows(session, position, now, buffered),
    ensures
        ({
            let overlay = ui.overlay_for(session, input, duration, now, buffered);
            let replay = session.core.overlay.replay_indicator_until;
            let head = match ui.scrub_origin {
                Some(origin) => origin@,
                None => position@,
            };
            let wanted = input.hovered || ui.scrubbing || (replay is Some && now@
                < replay.unwrap()@) || (ui.seek_overlay_until is Some && now@
                < ui.seek_overlay_until.unwrap()@);
            &&& (overlay is Some <==> !input.borderless && duration@ > 0 && wanted)
            &&& (overlay matches Some(o) ==> {
                &&& o.viewport == input.viewport
                &&& o.duration == duration
                &&& o.position@ == (if head <= duration@ {
                    head
                } else {
                    duration@
                })
                &&& o.preview == ui.preview_target
                &&& o.in_point == session.core.clip_range.in_point
                &&& o.out_point == session.core.clip_range.out_point
                &&& o.repeats == (session.core.clip_range.auto_replay
                    || session.core.clip_range.loop_range)
            })
        }),
{
}

/// Playback that a scrub sets going again is set going as by the pause key, and the
/// sink is asked for it first; every other step of a scrub asks the sink for nothing.
pub proof fn release_is_a_press_of_the_pause_key(
    ui: TimelineUiState,
    session: SessionModel,
    input: TimelineInput,
    duration: Duration,
    now: Instant,
    devices: DeviceView,
)
    requires
        session.core.media_duration == Some(duration),
        !input.borderless,
        ui.scrubbing,
        ui.was_left_button_down,
    ensures
        ({
            let paused = session.core.state == PlaybackState::Paused;
            let again = !input.left_button_down && paused && !ui.scrub_was_paused;
            let b = devices.buffered_frames;
            &&& ui.session_after(session, ScrubAction::Resume, now, devices) == session.commanded(
                SessionCommand::TogglePause,
                now,
                devices,
            )
            &&& ui.update_call(session, now, input, b) == (if again {
                session.sink_call(SessionCommand::TogglePause, now, b)
            } else {
                SinkCall::Nothing
            })
            &&& (TimelineUiState::is_refused(session, ScrubAction::Resume, now, devices)
                <==> session.is_refused(SessionCommand::TogglePause, now, devices))
            &&& !TimelineUiState::is_refused(session, ScrubAction::Nothing, now, devices)
        }),
{
}

/// Without a file's length there is no timeline and nothing is asked of the sink, and a
/// scrub that never began is given up without a change.
pub proof fn nothing_to_scrub_changes_nothing(
    ui: TimelineUiState,
    session: SessionModel,
    input: TimelineInput,
    now: Instant,
    devices: DeviceView,
)
    ensures
        session.core.media_duration is None ==> ui.update_call(
            session,
            now,
            input,
            devices.buffered_frames,
        ) == SinkCall::Nothing,
        ui.scrub_origin is None ==> {
            &&& ui.session_cancelled(session, now, devices) == session
            &&& ui.cancel_call(session, now, devices.buffered_frames) == SinkCall::Nothing
        },
        !ui.released().scrubbing,
        ui.released().scrub_origin is None,
        ui.released().preview_target is None,
        ui.released().last_overlay == ui.last_overlay,
{
}

} // verus!
