//! When playback ends, pauses and goes on.
use vstd::prelude::*;
use crate::commands::SessionCommand;
use crate::drop_stats::VideoDropCause;
use crate::events::SessionEvent;
use crate::media::{DecodedVideoFrame, SeekTarget};
use crate::session_model::{
    AudioBatch, DeviceView, SessionAction, SessionCore, SessionModel, SurfaceSelection, VideoStep,
};
use crate::state::PlaybackState;
use crate::time::{Duration, Instant};
use crate::transport_laws::{
    has_media, out_point_loops_or_ends, runs, seek_asks_for_its_target, starts_the_range_again,
};

verus! {

proof fn queue_decides_alone(m: SessionModel, s: SessionModel, now: Instant, buffered: u32)
    requires
        runs(m),
        runs(s),
        s == m.with(
            SessionCore {
                state: s.core.state,
                video_stream_ended: s.core.video_stream_ended,
                ..m.core
            },
        ),
    ensures
        s.advanced(now, buffered).1 == m.advanced(now, buffered).1,
{
    reveal(SessionModel::advanced);
    reveal(SessionModel::caught_up);
    reveal(SessionModel::front_taken);
    if m.core.audio.clock_anchor_pts is Some {
        if let Some(clock) = m.master(now, buffered) {
            same_frames_are_late(m, s, clock);
            let v = m.very_late_dropped(clock);
            let w = s.very_late_dropped(clock);
            if v.video.len() > 0 && v.media_time(v.video[0].pts)@ <= clock@ {
                same_frames_are_overtaken(v, w, clock);
            }
        }
    }
}

spec fn same_queue(m: SessionModel, s: SessionModel) -> bool {
    &&& s.video == m.video
    &&& s.core.media_time_origin_pts == m.core.media_time_origin_pts
    &&& s.core.clip_range == m.core.clip_range
    &&& runs(m) == runs(s)
}

proof fn same_frames_are_late(m: SessionModel, s: SessionModel, clock: Duration)
    requires
        same_queue(m, s),
    ensures
        same_queue(m.very_late_dropped(clock), s.very_late_dropped(clock)),
    decreases m.video.len(),
{
    reveal(SessionModel::front_dropped);
    reveal(SessionModel::frame_dropped);
    if m.front_is_very_late(clock) {
        same_frames_are_late(
            m.front_dropped(VideoDropCause::SchedulerLate),
            s.front_dropped(VideoDropCause::SchedulerLate),
            clock,
        );
    }
}

proof fn same_frames_are_overtaken(m: SessionModel, s: SessionModel, clock: Duration)
    requires
        same_queue(m, s),
    ensures
        same_queue(m.overtaken_dropped(clock), s.overtaken_dropped(clock)),
    decreases m.video.len(),
{
    reveal(SessionModel::front_dropped);
    reveal(SessionModel::frame_dropped);
    if m.video.len() > 1 && m.media_time(m.video[1].pts)@ <= clock@ {
        same_frames_are_overtaken(
            m.front_dropped(VideoDropCause::SchedulerLate),
            s.front_dropped(VideoDropCause::SchedulerLate),
            clock,
        );
    }
}

/// When the last picture was decoded, playback drains: what is queued stays, and at
/// any later moment the same picture is shown next as if more were to come.
pub proof fn end_of_the_video_stream_drains_the_queue(
    m: SessionModel,
    event: SessionEvent,
    now: Instant,
    buffered: u32,
    later: Instant,
    buffered_later: u32,
)
    requires
        event is VideoStreamEnded,
        m.concerns(event),
    ensures
        ({
            let s = m.told(event, now, buffered);
            &&& s.core.video_stream_ended
            &&& s.video == m.video
            &&& s.audio == m.audio
            &&& s.actions == m.actions
            &&& (m.core.state == PlaybackState::Playing || m.core.state == PlaybackState::Priming
                ==> s.core.state == PlaybackState::Draining)
            &&& (m.core.state != PlaybackState::Playing && m.core.state != PlaybackState::Priming
                ==> s.core.state == m.core.state)
            &&& (runs(m) ==> s.advanced(later, buffered_later).1 == m.advanced(
                later,
                buffered_later,
            ).1)
            &&& s.master(later, buffered_later) == m.master(later, buffered_later)
        }),
{
    reveal(SessionModel::told);
    if runs(m) {
        queue_decides_alone(m, m.told(event, now, buffered), later, buffered_later);
    }
}

/// A file without pictures, and the end of its sound, are noted and change nothing
/// else.
pub proof fn other_stream_ends_are_noted(
    m: SessionModel,
    event: SessionEvent,
    now: Instant,
    buffered: u32,
)
    requires
        m.concerns(event),
        event is NoVideoStream || event is AudioStreamEnded,
    ensures
        ({
            let s = m.told(event, now, buffered);
            &&& s.core.state == m.core.state
            &&& s.video == m.video
            &&& s.audio == m.audio
            &&& s.actions == m.actions
            &&& s.master(now, buffered) == m.master(now, buffered)
            &&& s.core.video_stream_ended == (event is NoVideoStream || m.core.video_stream_ended)
            &&& s.core.audio_stream_ended == (event is AudioStreamEnded
                || m.core.audio_stream_ended)
            &&& s.core.audio_stream_expected == (event is AudioStreamEnded
                || m.core.audio_stream_expected)
        }),
{
    reveal(SessionModel::told);
}

proof fn seek_does_not_end(m: SessionModel, target: SeekTarget)
    ensures
        m.sought(target).core.state == PlaybackState::Ended ==> m.core.state
            == PlaybackState::Ended && m.sought(target) == m,
{
    if has_media(m) {
        seek_asks_for_its_target(m, target.position);
    } else {
        reveal(SessionModel::sought);
    }
}

proof fn held_pause_does_not_end(m: SessionModel, now: Instant, buffered: u32, obeyed: bool)
    requires
        m.core.state != PlaybackState::Ended,
    ensures
        m.pending_seek_pause_toggled(now, buffered, obeyed).core.state != PlaybackState::Ended,
{
    reveal(SessionModel::pending_seek_pause_toggled);
    if m.core.pause_after_seek {
        let go = m.with(SessionCore { pause_after_seek: false, ..m.core });
        let position = m.shown(now, buffered).position;
        let target = match m.core.clip_range.resumed(position) {
            Some(t) => t,
            None => position,
        };
        seek_does_not_end(go, SeekTarget { position: target });
    } else {
        reveal(SessionModel::sink_halted);
    }
}

proof fn plain_pause_does_not_end(
    m: SessionModel,
    now: Instant,
    buffered: u32,
    selected: bool,
    obeyed: bool,
)
    requires
        m.core.state != PlaybackState::Ended,
    ensures
        m.paused(now, buffered, obeyed).core.state != PlaybackState::Ended,
        m.resumed(now, selected, obeyed).core.state != PlaybackState::Ended,
        m.replayed().core.state != PlaybackState::Ended,
{
    reveal(SessionModel::paused);
    reveal(SessionModel::resumed);
    reveal(SessionModel::replayed);
    seek_does_not_end(
        m,
        SeekTarget { position: Duration { nanos: m.core.clip_range.start() as u128 } },
    );
}

proof fn pause_does_not_end(m: SessionModel, now: Instant, devices: DeviceView)
    requires
        m.core.state != PlaybackState::Ended,
    ensures
        m.pause_toggled(now, devices).core.state != PlaybackState::Ended,
{
    reveal(SessionModel::pause_toggled);
    let buffered = devices.buffered_frames;
    held_pause_does_not_end(m, now, buffered, devices.sink_obeyed);
    plain_pause_does_not_end(m, now, buffered, devices.surface_selected, devices.sink_obeyed);
    if let Some(target) = m.core.clip_range.resumed(m.shown(now, buffered).position) {
        let go = m.with(SessionCore { pause_after_seek: false, ..m.core });
        seek_does_not_end(go, SeekTarget { position: target });
    }
}

proof fn step_does_not_end(m: SessionModel, forward: bool, now: Instant, devices: DeviceView)
    requires
        m.core.state != PlaybackState::Ended,
    ensures
        m.frame_stepped(forward, now, devices).core.state != PlaybackState::Ended,
{
    reveal(SessionModel::frame_stepped);
    pause_does_not_end(m, now, devices);
    let p = if m.step_toggles() {
        m.pause_toggled(now, devices)
    } else {
        m
    };
    seek_does_not_end(
        p.with(SessionCore { pause_after_seek: true, ..p.core }),
        SeekTarget { position: p.step_target(forward, now, devices.buffered_frames) },
    );
}

/// No command ends playback.
pub proof fn no_command_ends_playback(
    m: SessionModel,
    command: SessionCommand,
    now: Instant,
    devices: DeviceView,
)
    requires
        m.core.state != PlaybackState::Ended,
    ensures
        m.commanded(command, now, devices).core.state != PlaybackState::Ended,
{
    reveal(SessionModel::commanded);
    match command {
        SessionCommand::TogglePause => {
            pause_does_not_end(m, now, devices);
        },
        SessionCommand::Seek(target) => {
            let go = m.with(SessionCore { pause_after_seek: false, ..m.core });
            seek_does_not_end(go, target);
        },
        SessionCommand::StepFrameForward => {
            step_does_not_end(m, true, now, devices);
        },
        SessionCommand::StepFrameBackward => {
            step_does_not_end(m, false, now, devices);
        },
        SessionCommand::StepPlaybackRate(_) => {
            reveal(SessionModel::rate_changed);
        },
        SessionCommand::ResetPlaybackRate => {
            reveal(SessionModel::rate_changed);
        },
        _ => {},
    }
}

proof fn eviction_keeps_the_state(m: SessionModel)
    ensures
        m.overflow_evicted().core.state == m.core.state,
    decreases m.video.len(),
{
    reveal(SessionModel::front_dropped);
    reveal(SessionModel::frame_dropped);
    if m.video.len() > 0 && m.video.len() > m.video_capacity {
        eviction_keeps_the_state(m.front_dropped(VideoDropCause::QueueOverflow));
    }
}

proof fn restart_seeks(m: SessionModel, now: Instant, buffered: u32)
    ensures
        m.source is Some ==> m.audio_recovered(now, buffered).core.state
            == PlaybackState::Seeking,
        m.source is None ==> m.audio_recovered(now, buffered) == m,
{
    reveal(SessionModel::audio_recovered);
    reveal(SessionModel::restarted);
    reveal(SessionModel::begun);
    reveal(SessionModel::spawned);
}

/// No report of a worker or a device ends playback.
pub proof fn no_event_ends_playback(
    m: SessionModel,
    event: SessionEvent,
    now: Instant,
    buffered: u32,
)
    requires
        m.core.state != PlaybackState::Ended,
    ensures
        m.told(event, now, buffered).core.state != PlaybackState::Ended,
{
    reveal(SessionModel::told);
    reveal(SessionModel::failed);
    reveal(SessionModel::device_lost);
    reveal(SessionModel::torn_down);
    reveal(SessionModel::audio_arrived);
    reveal(SessionModel::video_arrived);
    reveal(SessionModel::origin_observed);
    reveal(SessionModel::primed);
    reveal(SessionModel::frame_queued);
    restart_seeks(m, now, buffered);
    match event {
        SessionEvent::VideoFrameReady(f) => {
            arrival_keeps_or_primes(m, event, now, buffered);
        },
        _ => {},
    }
}

proof fn arrival_keeps_or_primes(
    m: SessionModel,
    event: SessionEvent,
    now: Instant,
    buffered: u32,
)
    requires
        event is VideoFrameReady,
    ensures
        m.told(event, now, buffered).core.state == m.core.state || m.told(
            event,
            now,
            buffered,
        ).core.state == PlaybackState::Priming,
{
    reveal(SessionModel::told);
    reveal(SessionModel::video_arrived);
    reveal(SessionModel::primed);
    reveal(SessionModel::frame_queued);
    reveal(SessionModel::origin_observed);
    let f = event->VideoFrameReady_0;
    let frame = DecodedVideoFrame {
        open_gen: f.open_gen,
        seek_gen: f.seek_gen,
        pts: f.pts,
        surface: f.surface,
    };
    let r = if m.core.needs_initial_resize {
        m.with(
            SessionCore { needs_initial_resize: false, has_shown_content: true, ..m.core },
        ).act(
            SessionAction::ResizeForContent {
                width: f.display_width,
                height: f.display_height,
                center: !m.core.has_shown_content,
            },
        )
    } else {
        m
    };
    let a = r.origin_observed(f.pts).act(
        SessionAction::RegisterSurface {
            surface: f.surface,
            open_gen: f.open_gen,
            seek_gen: f.seek_gen,
        },
    );
    eviction_keeps_the_state(
        SessionModel {
            video: a.video.insert(crate::video_queue::insert_position(a.video, frame), frame),
            ..a
        },
    );
}

/// A picture that is shown and sound that is played do not end playback.
pub proof fn showing_and_playing_do_not_end_playback(
    m: SessionModel,
    frame: DecodedVideoFrame,
    selection: SurfaceSelection,
    batch: AudioBatch,
    failed: bool,
    now: Instant,
    buffered: u32,
)
    requires
        m.core.state != PlaybackState::Ended,
    ensures
        m.presented(frame, selection, now).core.state != PlaybackState::Ended,
        m.audio_submitted(batch, failed, now, buffered).core.state != PlaybackState::Ended,
{
    reveal(SessionModel::presented);
    reveal(SessionModel::frame_dropped);
    reveal(SessionCore::after_shown);
    reveal(SessionModel::audio_submitted);
    reveal(SessionModel::anchored);
    reveal(SessionModel::underrun_bridged);
    reveal(SessionModel::drained_sink_paused);
    reveal(SessionModel::sink_paused);
    reveal(SessionModel::playing_on_anchor);
    restart_seeks(m.anchored(batch), now, buffered);
}

/// Choosing a picture ends playback only at the out point of a range that does not
/// loop.
pub proof fn choosing_a_picture_ends_only_at_the_out_point(
    m: SessionModel,
    now: Instant,
    buffered: u32,
)
    requires
        has_media(m),
        m.core.state != PlaybackState::Ended,
        m.advanced(now, buffered).0.core.state == PlaybackState::Ended,
    ensures
        m.advanced(now, buffered).1 == VideoStep::StoppedAtOutPoint,
        m.core.clip_range.out_point is Some,
        !m.core.clip_range.loop_range,
        runs(m),
{
    reveal(SessionModel::advanced);
    reveal(SessionModel::front_taken);
    if m.core.audio.clock_anchor_pts is Some {
        if let Some(clock) = m.master(now, buffered) {
            crate::transport_laws::frames_left_behind_leave(m, clock);
        }
    }
    if m.advanced(now, buffered).1 == VideoStep::StoppedAtOutPoint {
        out_point_loops_or_ends(m, now, buffered);
    }
}

/// A tick ends playback just when all that was decoded has been shown and heard,
/// and nothing is to be played again. Where it is to be, the range starts again.
pub proof fn tick_ends_playback_when_all_was_played(m: SessionModel, devices: DeviceView)
    requires
        has_media(m),
        m.core.state != PlaybackState::Ended,
    ensures
        ({
            let s = m.tick_finished(devices);
            let played = {
                &&& runs(m)
                &&& m.core.video_stream_ended
                &&& m.video.len() == 0
                &&& (m.core.audio_stream_expected ==> m.core.audio_stream_ended && m.audio.len()
                    == 0 && devices.buffered_frames == 0)
            };
            let again = m.core.clip_range.auto_replay || m.core.clip_range.loop_range;
            &&& (s.core.state == PlaybackState::Ended <==> played && !again)
            &&& (played && again ==> starts_the_range_again(m, s))
            &&& (!played ==> s.core.state == m.core.state)
            &&& (!(played && again) ==> s.video == m.video && s.audio == m.audio && s.actions
                == m.actions)
        }),
{
    reveal(SessionModel::tick_finished);
    reveal(SessionModel::replayed);
    reveal(SessionCore::reminders_dropped);
    let c = m.core;
    let settled = c.metrics.pending_seek_settled && m.seek_settled();
    let n = m.with(c.reminders_dropped(settled, devices.surface_selected));
    seek_asks_for_its_target(n, Duration { nanos: n.core.clip_range.start() as u128 });
}

} // verus!
