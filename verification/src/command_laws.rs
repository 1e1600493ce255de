//! What the commands are for: pausing and going on, marking a range, changing the
//! rate, the view and what is shown beside the picture.
use vstd::prelude::*;
use crate::commands::SessionCommand;
use crate::media::SeekTarget;
use crate::overlay::Size;
use crate::session_model::{DeviceView, SessionAction, SessionCore, SessionModel, SinkCall};
use crate::state::PlaybackState;
use crate::time::{Duration, Instant, MAX_NANOS};
use crate::transport_laws::{
    has_media, runs, seek_asks_for_its_target, shows, starts_the_range_again,
};

verus! {

/// Whether sound comes out of the device.
pub open spec fn sounds(m: SessionModel) -> bool {
    m.core.sink matches Some(k) && k.started
}

/// Whether a position lies in the marked range.
pub open spec fn in_range(m: SessionModel, position: Duration) -> bool {
    &&& (m.core.clip_range.in_point matches Some(i) ==> i@ <= position@)
    &&& (m.core.clip_range.out_point matches Some(o) ==> position@ < o@)
}

/// Whether everything that was decoded has been taken out of the queues, and no more
/// comes.
pub open spec fn nothing_left(m: SessionModel) -> bool {
    &&& m.core.video_stream_ended
    &&& m.video.len() == 0
    &&& (m.core.audio_stream_expected ==> m.core.audio_stream_ended && m.audio.len() == 0)
}

/// The pause key halts playback that runs: the sound stops, the clock stands where it
/// was, and what is queued waits. A sink that plays on keeps playback running.
pub proof fn pause_key_halts_running_playback(m: SessionModel, now: Instant, devices: DeviceView)
    requires
        runs(m),
        m.core.state == PlaybackState::Priming ==> m.core.pending_seek_target is None,
    ensures
        ({
            let s = m.commanded(SessionCommand::TogglePause, now, devices);
            &&& m.sink_call(SessionCommand::TogglePause, now, devices.buffered_frames) == (
            if sounds(m) {
                SinkCall::Pause
            } else {
                SinkCall::Nothing
            })
            &&& s.core.state == (if sounds(m) && !devices.sink_obeyed {
                m.core.state
            } else {
                PlaybackState::Paused
            })
            &&& sounds(s) == (sounds(m) && !devices.sink_obeyed)
            &&& s.core.paused_clock_position == m.master(now, devices.buffered_frames)
            &&& s.video == m.video
            &&& s.audio == m.audio
            &&& s.actions == m.actions
            &&& s.core.audio == m.core.audio
            &&& s.core.video_clock == m.core.video_clock
            &&& s.core.clip_range == m.core.clip_range
            &&& s.core.generations == m.core.generations
            &&& s.core.pending_seek_target == m.core.pending_seek_target
            &&& (s.core.sink is Some <==> m.core.sink is Some)
        }),
{
    pause_key_is_the_pause(m, now, devices);
    assert(m.pause_toggled(now, devices) == m.paused(
        now,
        devices.buffered_frames,
        devices.sink_obeyed,
    )) by {
        reveal(SessionModel::pause_toggled);
    }
    reveal(SessionModel::paused);
    reveal(SessionModel::sink_halted);
}

proof fn pause_key_is_the_pause(m: SessionModel, now: Instant, devices: DeviceView)
    ensures
        m.commanded(SessionCommand::TogglePause, now, devices) == m.pause_toggled(now, devices),
{
    reveal(SessionModel::commanded);
}

/// The pause key sets paused playback going again from where it was paused: sound
/// that was heard comes back, and without sound the pictures are paced from there.
pub proof fn pause_key_goes_on_from_the_pause(
    m: SessionModel,
    position: Duration,
    now: Instant,
    devices: DeviceView,
)
    requires
        m.core.state == PlaybackState::Paused,
        m.core.pending_seek_target is None,
        m.core.paused_clock_position == Some(position),
        position@ <= MAX_NANOS,
        in_range(m, position),
        !nothing_left(m),
        devices.sink_obeyed,
    ensures
        ({
            let s = m.commanded(SessionCommand::TogglePause, now, devices);
            let heard = m.core.audio.clock_anchor_pts is Some;
            &&& s.core.state == (if devices.surface_selected {
                PlaybackState::Playing
            } else {
                PlaybackState::Priming
            })
            &&& m.sink_call(SessionCommand::TogglePause, now, devices.buffered_frames) == (if heard
                && m.core.sink is Some {
                SinkCall::Resume
            } else {
                SinkCall::Nothing
            })
            &&& (heard && m.core.sink is Some ==> sounds(s))
            &&& (!heard ==> s.core.sink == m.core.sink)
            &&& (!heard ==> s.master(now, devices.buffered_frames) == Some(position))
            &&& s.core.paused_clock_position is None
            &&& s.core.audio == m.core.audio
            &&& s.video == m.video
            &&& s.audio == m.audio
            &&& s.actions == m.actions
            &&& s.core.generations == m.core.generations
            &&& s.core.clip_range == m.core.clip_range
        }),
{
    reveal(SessionModel::commanded);
    reveal(SessionModel::pause_toggled);
    reveal(SessionModel::resumed);
    let r = m.core.playback_rate.hundredths;
    assert(0int * r / 100 == 0) by (nonlinear_arith);
}

/// The pause key plays the range again where there is nothing to go on with: after
/// the end, after a pause outside the range, and after a pause with nothing left.
pub proof fn pause_key_plays_the_range_again(
    m: SessionModel,
    position: Duration,
    now: Instant,
    devices: DeviceView,
)
    requires
        has_media(m),
        shows(m, position, now, devices.buffered_frames),
        m.core.state == PlaybackState::Ended || (m.core.state == PlaybackState::Paused && (
        !in_range(m, position) || nothing_left(m))),
    ensures
        starts_the_range_again(m, m.commanded(SessionCommand::TogglePause, now, devices)),
        m.core.state == PlaybackState::Paused && !in_range(m, position) ==> !m.commanded(
            SessionCommand::TogglePause,
            now,
            devices,
        ).core.pause_after_seek,
{
    pause_key_is_the_pause(m, now, devices);
    let going = m.with(SessionCore { pause_after_seek: false, ..m.core });
    let target = SeekTarget { position: Duration { nanos: m.core.clip_range.start() as u128 } };
    assert(m.shown(now, devices.buffered_frames).position == position);
    assert(m.pause_toggled(now, devices) == (if m.core.state == PlaybackState::Paused && !in_range(
        m,
        position,
    ) {
        going.sought(target)
    } else {
        m.sought(target)
    })) by {
        reveal(SessionModel::pause_toggled);
        reveal(SessionModel::replayed);
    }
    let start = Duration { nanos: m.core.clip_range.start() as u128 };
    seek_asks_for_its_target(m, start);
    seek_asks_for_its_target(
        m.with(SessionCore { pause_after_seek: false, ..m.core }),
        start,
    );
}

/// While nothing is open the pause key does nothing.
pub proof fn pause_key_needs_a_file(m: SessionModel, now: Instant, devices: DeviceView)
    requires
        m.core.state == PlaybackState::Idle || m.core.state == PlaybackState::Opening
            || m.core.state == PlaybackState::Error,
    ensures
        m.commanded(SessionCommand::TogglePause, now, devices) == m,
        m.sink_call(SessionCommand::TogglePause, now, devices.buffered_frames)
            == SinkCall::Nothing,
{
    reveal(SessionModel::commanded);
    reveal(SessionModel::pause_toggled);
}

/// While a seek is under way, the pause key holds the picture that it leads to, and
/// the sound stops at once; pressed again, the seek plays on.
pub proof fn pause_key_holds_a_seek(m: SessionModel, now: Instant, devices: DeviceView)
    requires
        m.core.state == PlaybackState::Seeking,
        !m.core.pause_after_seek,
        devices.sink_obeyed,
    ensures
        ({
            let s = m.commanded(SessionCommand::TogglePause, now, devices);
            &&& s.core.pause_after_seek
            &&& s.core.state == PlaybackState::Seeking
            &&& s.core.pending_seek_target == m.core.pending_seek_target
            &&& !sounds(s)
            &&& s.actions == m.actions
            &&& s.core.generations == m.core.generations
        }),
{
    reveal(SessionModel::commanded);
    reveal(SessionModel::pause_toggled);
    reveal(SessionModel::pending_seek_pause_toggled);
    reveal(SessionModel::sink_halted);
}

/// Marking the in point marks the shown position. An out point that would not lie
/// behind it goes; the loop and all else stay.
pub proof fn in_point_marks_the_shown_position(
    m: SessionModel,
    position: Duration,
    now: Instant,
    devices: DeviceView,
)
    requires
        shows(m, position, now, devices.buffered_frames),
    ensures
        ({
            let s = m.commanded(SessionCommand::SetInPoint, now, devices);
            let r = s.core.clip_range;
            &&& r.in_point == Some(position)
            &&& (m.core.clip_range.out_point is None ==> r.out_point is None)
            &&& (m.core.clip_range.out_point matches Some(o) ==> r.out_point == (if position@
                < o@ {
                Some(o)
            } else {
                None
            }))
            &&& r.loop_range == m.core.clip_range.loop_range
            &&& r.auto_replay == m.core.clip_range.auto_replay
            &&& s == m.with(SessionCore { clip_range: r, ..m.core })
        }),
{
    reveal(SessionModel::commanded);
}

/// Marking the out point marks the shown position, if that lies behind the start of
/// the range; all else stays.
pub proof fn out_point_marks_the_shown_position(
    m: SessionModel,
    position: Duration,
    now: Instant,
    devices: DeviceView,
)
    requires
        shows(m, position, now, devices.buffered_frames),
    ensures
        ({
            let s = m.commanded(SessionCommand::SetOutPoint, now, devices);
            let r = s.core.clip_range;
            let behind = match m.core.clip_range.in_point {
                Some(i) => position@ > i@,
                None => position@ > 0,
            };
            &&& r.in_point == m.core.clip_range.in_point
            &&& r.out_point == (if behind {
                Some(position)
            } else {
                m.core.clip_range.out_point
            })
            &&& r.loop_range == m.core.clip_range.loop_range
            &&& r.auto_replay == m.core.clip_range.auto_replay
            &&& s == m.with(SessionCore { clip_range: r, ..m.core })
        }),
{
    reveal(SessionModel::commanded);
}

/// Removing a mark removes that mark; with no mark left nothing loops.
pub proof fn marks_are_removed_one_by_one(m: SessionModel, now: Instant, devices: DeviceView)
    ensures
        ({
            let c = m.core.clip_range;
            let s = m.commanded(SessionCommand::ClearInPoint, now, devices);
            let r = s.core.clip_range;
            &&& r.in_point is None
            &&& r.out_point == c.out_point
            &&& r.loop_range == (c.loop_range && c.out_point is Some)
            &&& r.auto_replay == c.auto_replay
            &&& s == m.with(SessionCore { clip_range: r, ..m.core })
        }),
        ({
            let c = m.core.clip_range;
            let s = m.commanded(SessionCommand::ClearOutPoint, now, devices);
            let r = s.core.clip_range;
            &&& r.in_point == c.in_point
            &&& r.out_point is None
            &&& r.loop_range == (c.loop_range && c.in_point is Some)
            &&& r.auto_replay == c.auto_replay
            &&& s == m.with(SessionCore { clip_range: r, ..m.core })
        }),
{
    reveal(SessionModel::commanded);
}

/// The loop key switches the loop of a marked range. Without one it switches the
/// replay preference, as the replay key always does, and that is shown for one and a
/// half seconds.
pub proof fn loop_and_replay_are_switched(m: SessionModel, now: Instant, devices: DeviceView)
    requires
        now@ <= MAX_NANOS,
    ensures
        ({
            let c = m.core.clip_range;
            let marked = c.in_point is Some || c.out_point is Some;
            let s = m.commanded(SessionCommand::ToggleLoopRange, now, devices);
            let r = s.core.clip_range;
            let shown = s.core.overlay.replay_indicator_until;
            &&& r.in_point == c.in_point
            &&& r.out_point == c.out_point
            &&& r.loop_range == (c.loop_range != marked)
            &&& r.auto_replay == (c.auto_replay == marked)
            &&& (marked ==> shown == m.core.overlay.replay_indicator_until)
            &&& (!marked ==> shown is Some && shown.unwrap()@ == now@ + 1_500_000_000)
            &&& s.core.state == m.core.state
            &&& s.actions == m.actions
            &&& s.video == m.video
            &&& s.audio == m.audio
        }),
        ({
            let c = m.core.clip_range;
            let s = m.commanded(SessionCommand::ToggleAutoReplay, now, devices);
            let r = s.core.clip_range;
            let shown = s.core.overlay.replay_indicator_until;
            &&& r.in_point == c.in_point
            &&& r.out_point == c.out_point
            &&& r.loop_range == c.loop_range
            &&& r.auto_replay != c.auto_replay
            &&& shown is Some
            &&& shown.unwrap()@ == now@ + 1_500_000_000
            &&& s.core.state == m.core.state
            &&& s.actions == m.actions
            &&& s.video == m.video
            &&& s.audio == m.audio
        }),
{
    reveal(SessionModel::commanded);
}

/// Each step up the rates is a quarter faster and each step down a quarter slower,
/// between a quarter and double speed; any other rate counts as normal speed.
pub proof fn rate_steps_are_quarters(m: SessionModel, step: i8, now: Instant, devices: DeviceView)
    ensures
        ({
            let s = m.commanded(SessionCommand::StepPlaybackRate(step), now, devices);
            let h = m.core.playback_rate.hundredths;
            let listed = h == 25 || h == 50 || h == 75 || h == 100 || h == 125 || h == 150 || h
                == 175 || h == 200;
            let wanted = (if listed {
                h as int
            } else {
                100
            }) + 25 * step;
            &&& s.core.playback_rate.hundredths == (if wanted < 25 {
                25
            } else if wanted > 200 {
                200
            } else {
                wanted
            })
        }),
        m.commanded(
            SessionCommand::ResetPlaybackRate,
            now,
            devices,
        ).core.playback_rate.hundredths == 100,
{
    reveal(SessionModel::commanded);
    reveal(SessionModel::rate_changed);
    let t = crate::clock::rate_table();
    let h = m.core.playback_rate.hundredths;
    assert(t[0] == 25 && t[1] == 50 && t[2] == 75 && t[3] == 100 && t[4] == 125 && t[5] == 150
        && t[6] == 175 && t[7] == 200);
    if t.contains(h) {
        let k = choose|k: int| 0 <= k < t.len() && t[k] == h;
        assert(k == 0 || k == 1 || k == 2 || k == 3 || k == 4 || k == 5 || k == 6 || k == 7);
    }
    let at = m.core.playback_rate.index() + step;
    assert(at <= 0 || at == 1 || at == 2 || at == 3 || at == 4 || at == 5 || at == 6 || at >= 7);
}

/// A change of the rate starts the clocks anew, drops the sound that waits at the
/// old rate, and is named in the title; the pictures, the position of a seek and the
/// state stay. No change leaves all as it was.
pub proof fn rate_change_restarts_the_clocks(
    m: SessionModel,
    command: SessionCommand,
    now: Instant,
    devices: DeviceView,
)
    requires
        command is StepPlaybackRate || command is ResetPlaybackRate,
    ensures
        ({
            let s = m.commanded(command, now, devices);
            let changed = s.core.playback_rate != m.core.playback_rate;
            &&& (!changed ==> s == m)
            &&& (changed ==> s.core.video_clock is None)
            &&& (changed ==> s.core.audio.clock_anchor_pts is None)
            &&& (changed ==> s.core.audio.submitted_frames == 0)
            &&& (changed ==> s.audio.len() == 0)
            &&& (changed ==> s.actions == m.actions.push(SessionAction::UpdateWindowTitle))
            &&& s.video == m.video
            &&& s.core.state == m.core.state
            &&& s.core.sink == m.core.sink
            &&& s.core.pending_seek_target == m.core.pending_seek_target
            &&& s.core.paused_clock_position == m.core.paused_clock_position
            &&& s.core.generations == m.core.generations
            &&& s.core.clip_range == m.core.clip_range
        }),
{
    let rate = match command {
        SessionCommand::StepPlaybackRate(step) => m.core.playback_rate.stepped(step as int),
        _ => crate::clock::PlaybackRate { hundredths: 100 },
    };
    assert(m.commanded(command, now, devices) == m.rate_changed(rate)) by {
        reveal(SessionModel::commanded);
    }
    reveal(SessionModel::rate_changed);
}

/// Turning clockwise goes one quarter turn on, turning the other way one back, and
/// each undoes the other; the reset goes back to the turn of the stream.
pub proof fn turns_undo_each_other(m: SessionModel, now: Instant, devices: DeviceView)
    requires
        m.core.viewport.rotation_quarter_turns < 4,
    ensures
        ({
            let right = m.commanded(SessionCommand::RotateClockwise, now, devices);
            let left = m.commanded(SessionCommand::RotateCounterClockwise, now, devices);
            let turn = m.core.viewport.rotation_quarter_turns;
            &&& right.core.viewport.rotation_quarter_turns == (if turn == 3 {
                0
            } else {
                turn + 1
            })
            &&& left.core.viewport.rotation_quarter_turns == (if turn == 0 {
                3
            } else {
                turn - 1
            })
            &&& right.core.viewport.stream_rotation_quarter_turns
                == m.core.viewport.stream_rotation_quarter_turns
            &&& left.core.viewport.stream_rotation_quarter_turns
                == m.core.viewport.stream_rotation_quarter_turns
            &&& right.commanded(
                SessionCommand::RotateCounterClockwise,
                now,
                devices,
            ).core.viewport == m.core.viewport
            &&& right.core.present_needed
            &&& left.core.present_needed
        }),
        ({
            let s = m.commanded(SessionCommand::ResetView, now, devices);
            &&& s.core.viewport.rotation_quarter_turns
                == m.core.viewport.stream_rotation_quarter_turns
            &&& s.core.viewport.stream_rotation_quarter_turns
                == m.core.viewport.stream_rotation_quarter_turns
            &&& s.actions == m.actions.push(SessionAction::ResetZoom)
            &&& s.core.present_needed
        }),
{
    reveal(SessionModel::commanded);
}

/// The window is asked for the size of the picture as it appears, or half of it, at
/// least one pixel; a picture turned on its side has its sides swapped.
pub proof fn window_takes_the_shown_size(
    m: SessionModel,
    size: Size,
    now: Instant,
    devices: DeviceView,
)
    requires
        devices.surface_size == Some(size),
    ensures
        ({
            let turn = m.core.viewport.rotation_quarter_turns;
            let sideways = turn % 2 == 1;
            let width = if sideways {
                size.height
            } else {
                size.width
            };
            let height = if sideways {
                size.width
            } else {
                size.height
            };
            let half = |n: u32|
                if n < 2 {
                    1u32
                } else {
                    n / 2
                };
            &&& m.commanded(SessionCommand::FitWindow, now, devices) == m.act(
                SessionAction::FitWindow { width, height },
            )
            &&& m.commanded(SessionCommand::HalfSizeWindow, now, devices) == m.act(
                SessionAction::SetClientSize { width: half(width), height: half(height) },
            )
        }),
{
    reveal(SessionModel::commanded);
}

/// Whether a command is about the window, the view or what is shown beside the
/// picture, and so leaves playback alone.
pub open spec fn is_about_the_view(command: SessionCommand) -> bool {
    !(command is TogglePause || command is Seek || command is StepFrameForward || command
        is StepFrameBackward || command is StepPlaybackRate || command is ResetPlaybackRate)
}

/// Whether playback is the same in two sessions: its state, its clocks, its queues
/// and its decoder.
pub open spec fn plays_alike(m: SessionModel, s: SessionModel) -> bool {
    &&& s.core.state == m.core.state
    &&& s.core.generations == m.core.generations
    &&& s.core.active_operation_id == m.core.active_operation_id
    &&& s.core.decode_thread == m.core.decode_thread
    &&& s.core.sink == m.core.sink
    &&& s.core.video_clock == m.core.video_clock
    &&& s.core.paused_clock_position == m.core.paused_clock_position
    &&& s.core.audio == m.core.audio
    &&& s.core.pending_seek_target == m.core.pending_seek_target
    &&& s.core.seek_discard_before_pts == m.core.seek_discard_before_pts
    &&& s.core.pause_after_seek == m.core.pause_after_seek
    &&& s.core.playback_rate == m.core.playback_rate
    &&& s.core.media_duration == m.core.media_duration
    &&& s.core.media_time_origin_pts == m.core.media_time_origin_pts
    &&& s.video == m.video
    &&& s.audio == m.audio
    &&& s.source == m.source
    &&& s.last_error == m.last_error
}

proof fn display_keys_leave_playback_alone(
    m: SessionModel,
    command: SessionCommand,
    now: Instant,
    devices: DeviceView,
)
    requires
        command is Tick || command is ToggleSubtitles || command is SaveScreenshot || command is AdjustVolumeSteps || command is ToggleDecodeInfo,
    ensures
        plays_alike(m, m.commanded(command, now, devices)),
        m.core.present_needed ==> m.commanded(command, now, devices).core.present_needed,
{
    reveal(SessionModel::commanded);
}

proof fn turning_keys_leave_playback_alone(m: SessionModel, now: Instant, devices: DeviceView)
    ensures
        plays_alike(m, m.commanded(SessionCommand::RotateClockwise, now, devices)),
        plays_alike(m, m.commanded(SessionCommand::RotateCounterClockwise, now, devices)),
        plays_alike(m, m.commanded(SessionCommand::ResetView, now, devices)),
        m.commanded(SessionCommand::RotateClockwise, now, devices).core.present_needed,
        m.commanded(SessionCommand::RotateCounterClockwise, now, devices).core.present_needed,
        m.commanded(SessionCommand::ResetView, now, devices).core.present_needed,
{
    reveal(SessionModel::commanded);
}

proof fn mark_keys_leave_playback_alone(
    m: SessionModel,
    command: SessionCommand,
    now: Instant,
    devices: DeviceView,
)
    requires
        command is SetInPoint || command is ClearInPoint || command is SetOutPoint || command is ClearOutPoint,
    ensures
        plays_alike(m, m.commanded(command, now, devices)),
        m.core.present_needed ==> m.commanded(command, now, devices).core.present_needed,
{
    reveal(SessionModel::commanded);
}

proof fn repeat_keys_leave_playback_alone(
    m: SessionModel,
    command: SessionCommand,
    now: Instant,
    devices: DeviceView,
)
    requires
        command is ToggleAutoReplay || command is ToggleLoopRange,
    ensures
        plays_alike(m, m.commanded(command, now, devices)),
        m.core.present_needed ==> m.commanded(command, now, devices).core.present_needed,
{
    reveal(SessionModel::commanded);
}

proof fn window_keys_leave_playback_alone(
    m: SessionModel,
    delta: i16,
    x: i32,
    y: i32,
    now: Instant,
    devices: DeviceView,
)
    ensures
        ({
            let zoom = SessionCommand::ZoomAtCursor { delta, cursor_x: x, cursor_y: y };
            let pan = SessionCommand::PanBy { dx: x, dy: y };
            let full = SessionCommand::ToggleBorderlessFullscreen;
            let fit = SessionCommand::FitWindow;
            let half = SessionCommand::HalfSizeWindow;
            &&& m.commanded(zoom, now, devices).core == m.core
            &&& plays_alike(m, m.commanded(zoom, now, devices))
            &&& m.commanded(pan, now, devices).core == m.core
            &&& plays_alike(m, m.commanded(pan, now, devices))
            &&& m.commanded(full, now, devices).core == m.core
            &&& plays_alike(m, m.commanded(full, now, devices))
            &&& m.commanded(fit, now, devices).core == m.core
            &&& plays_alike(m, m.commanded(fit, now, devices))
            &&& m.commanded(half, now, devices).core == m.core
            &&& plays_alike(m, m.commanded(half, now, devices))
        }),
{
    reveal(SessionModel::commanded);
}

proof fn help_keys_leave_playback_alone(m: SessionModel, now: Instant, devices: DeviceView)
    ensures
        plays_alike(m, m.commanded(SessionCommand::ShowHelp, now, devices)),
        plays_alike(m, m.commanded(SessionCommand::HideHelp, now, devices)),
        m.core.present_needed ==> m.commanded(
            SessionCommand::ShowHelp,
            now,
            devices,
        ).core.present_needed,
        m.commanded(SessionCommand::HideHelp, now, devices).core.present_needed,
{
    reveal(SessionModel::commanded);
}

/// Commands about the view do not touch playback, and ask nothing of the sink.
pub proof fn view_commands_leave_playback_alone(
    m: SessionModel,
    command: SessionCommand,
    now: Instant,
    devices: DeviceView,
)
    requires
        is_about_the_view(command),
    ensures
        plays_alike(m, m.commanded(command, now, devices)),
        m.core.present_needed ==> m.commanded(command, now, devices).core.present_needed,
        m.sink_call(command, now, devices.buffered_frames) == SinkCall::Nothing,
{
    match command {
        SessionCommand::Tick
        | SessionCommand::ToggleSubtitles
        | SessionCommand::SaveScreenshot
        | SessionCommand::AdjustVolumeSteps(_)
        | SessionCommand::ToggleDecodeInfo => {
            display_keys_leave_playback_alone(m, command, now, devices);
        },
        SessionCommand::RotateClockwise
        | SessionCommand::RotateCounterClockwise
        | SessionCommand::ResetView => {
            turning_keys_leave_playback_alone(m, now, devices);
        },
        SessionCommand::SetInPoint
        | SessionCommand::ClearInPoint
        | SessionCommand::SetOutPoint
        | SessionCommand::ClearOutPoint => {
            mark_keys_leave_playback_alone(m, command, now, devices);
        },
        SessionCommand::ToggleAutoReplay
        | SessionCommand::ToggleLoopRange => {
            repeat_keys_leave_playback_alone(m, command, now, devices);
        },
        SessionCommand::ZoomAtCursor { delta, cursor_x, cursor_y } => {
            window_keys_leave_playback_alone(m, delta, cursor_x, cursor_y, now, devices);
        },
        SessionCommand::PanBy { dx, dy } => {
            window_keys_leave_playback_alone(m, 0, dx, dy, now, devices);
        },
        SessionCommand::ToggleBorderlessFullscreen
        | SessionCommand::FitWindow
        | SessionCommand::HalfSizeWindow => {
            window_keys_leave_playback_alone(m, 0, 0, 0, now, devices);
        },
        _ => {
            help_keys_leave_playback_alone(m, now, devices);
        },
    }
}

/// The volume keys ask the sink for as many steps, and the volume shows for nine
/// tenths of a second. Without a sink they do nothing.
pub proof fn volume_keys_change_and_show_the_volume(
    m: SessionModel,
    steps: i16,
    now: Instant,
    devices: DeviceView,
)
    requires
        now@ <= MAX_NANOS,
    ensures
        ({
            let s = m.commanded(SessionCommand::AdjustVolumeSteps(steps), now, devices);
            let until = s.core.overlay.volume_overlay_until;
            &&& (m.core.sink is None ==> s == m)
            &&& (m.core.sink is Some ==> s.actions == m.actions.push(
                SessionAction::AdjustVolume(steps),
            ))
            &&& (m.core.sink is Some ==> until is Some && until.unwrap()@ == now@ + 900_000_000)
            &&& s.core.overlay.replay_indicator_until == m.core.overlay.replay_indicator_until
            &&& s.core.overlay.subtitles_enabled == m.core.overlay.subtitles_enabled
        }),
{
    reveal(SessionModel::commanded);
}

/// The subtitle key switches subtitles that are there on and off, and takes a shown
/// one down when they go off.
pub proof fn subtitle_key_switches_subtitles(m: SessionModel, now: Instant, devices: DeviceView)
    ensures
        ({
            let s = m.commanded(SessionCommand::ToggleSubtitles, now, devices);
            let before = m.core.overlay;
            let after = s.core.overlay;
            &&& (!before.subtitle_loaded ==> s == m)
            &&& (before.subtitle_loaded ==> after.subtitles_enabled != before.subtitles_enabled)
            &&& (before.subtitle_loaded ==> after.active_subtitle_cue is None)
            &&& (before.subtitle_loaded ==> s.actions == (if before.subtitles_enabled {
                m.actions.push(SessionAction::ClearSubtitleOverlay)
            } else {
                m.actions
            }))
            &&& after.subtitle_loaded == before.subtitle_loaded
            &&& after.volume_overlay_until == before.volume_overlay_until
        }),
{
    reveal(SessionModel::commanded);
}

/// The other keys: a screenshot is taken of the next picture, the help is shown and
/// hidden, decode info appears in the title, and the mouse and the full screen go to
/// the window.
pub proof fn other_keys_do_what_they_say(
    m: SessionModel,
    delta: i16,
    x: i32,
    y: i32,
    now: Instant,
    devices: DeviceView,
)
    ensures
        ({
            let s = m.commanded(SessionCommand::SaveScreenshot, now, devices);
            &&& s.core.screenshot_pending
            &&& s.core.present_needed
            &&& s.actions == m.actions
        }),
        ({
            let s = m.commanded(SessionCommand::ToggleDecodeInfo, now, devices);
            &&& s.core.overlay.show_decode_info != m.core.overlay.show_decode_info
            &&& s.actions == m.actions.push(SessionAction::UpdateWindowTitle)
        }),
        ({
            let s = m.commanded(SessionCommand::HideHelp, now, devices);
            &&& s.core.present_needed
            &&& s.actions == m.actions.push(SessionAction::HideHelp)
        }),
        devices.viewport matches Some(view) ==> ({
            let s = m.commanded(SessionCommand::ShowHelp, now, devices);
            &&& s.core.present_needed
            &&& s.actions == m.actions.push(SessionAction::ShowHelp(view))
        }),
        devices.viewport is None ==> m.commanded(SessionCommand::ShowHelp, now, devices) == m,
        m.commanded(SessionCommand::ToggleBorderlessFullscreen, now, devices) == m.act(
            SessionAction::ToggleFullscreen,
        ),
        m.commanded(
            SessionCommand::ZoomAtCursor { delta, cursor_x: x, cursor_y: y },
            now,
            devices,
        ) == m.act(SessionAction::ZoomAtCursor { delta, cursor_x: x, cursor_y: y }),
        m.commanded(SessionCommand::PanBy { dx: x, dy: y }, now, devices) == m.act(
            SessionAction::PanBy { dx: x, dy: y },
        ),
        m.commanded(SessionCommand::Tick, now, devices) == m,
        devices.surface_size is None ==> m.commanded(SessionCommand::FitWindow, now, devices) == m
            && m.commanded(SessionCommand::HalfSizeWindow, now, devices) == m,
{
    reveal(SessionModel::commanded);
}

} // verus!
