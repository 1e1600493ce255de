//! What holds of every session.
use vstd::prelude::*;
use crate::clip_range::ClipRangeState;
use crate::clock::PlaybackRate;
use crate::commands::SessionCommand;
use crate::drop_stats::VideoDropCause;
use crate::events::SessionEvent;
use crate::generations::next_count;
use crate::media::{DecodedVideoFrame, PositionKind, SeekTarget, VideoDecodePreference};
use crate::session_model::{
    DeviceView, SessionCore, SessionModel, SinkCall, SurfaceSelection, VideoStep,
};
use crate::state::PlaybackState;
use crate::time::{Duration, Instant, MAX_NANOS};
use crate::video_queue::{in_pts_order, insert_position};

verus! {

/// An event of another operation changes nothing.
pub proof fn stale_event_is_ignored(
    m: SessionModel,
    event: SessionEvent,
    now: Instant,
    buffered: u32,
)
    requires
        !m.concerns(event),
    ensures
        m.told(event, now, buffered) == m,
{
    reveal(SessionModel::told);
}

/// An accepted seek leaves the session seeking the target, with nothing queued.
pub proof fn seek_core(m: SessionModel, target: SeekTarget)
    requires
        m.accepts_seek(),
    ensures
        ({
            let s = m.sought(target);
            let t = SeekTarget { position: m.clamped(target.position) };
            &&& s.core.state == PlaybackState::Seeking
            &&& s.core.generations.open == m.core.generations.open
            &&& s.core.generations.seek.0 == next_count(m.core.generations.seek.0)
            &&& s.core.operation_clock.last == next_count(m.core.operation_clock.last)
            &&& s.core.active_operation_id == Some(s.last_operation())
            &&& s.core.pending_seek_target == Some(t)
            &&& s.core.seek_discard_before_pts == Some(m.absolute(t.position))
            &&& s.core.media_duration == m.core.media_duration
            &&& s.core.clip_range == m.core.clip_range
            &&& s.core.pause_after_seek == m.core.pause_after_seek
            &&& s.core.media_time_origin_pts == m.core.media_time_origin_pts
            &&& s.core.audio.clock_anchor_pts is None
            &&& s.video.len() == 0
            &&& s.audio.len() == 0
            &&& s.source == m.source
            &&& s.video_capacity == m.video_capacity
        }),
{
    reveal(SessionModel::sought);
    reveal(SessionModel::seek_executed);
    reveal(SessionModel::next_seek);
    reveal(SessionModel::prepared);
    reveal(SessionModel::torn_down);
    reveal(SessionModel::spawned);
    reveal(SessionCore::prepared);
    reveal(SessionCore::seek_pending);
}

/// Once a seek is under way, an event that counted before it counts no more,
/// unless it is about the open as a whole.
pub proof fn seek_outdates_earlier_events(
    m: SessionModel,
    target: SeekTarget,
    event: SessionEvent,
    now: Instant,
    buffered: u32,
)
    requires
        m.accepts_seek(),
        m.concerns(event),
        event.seek_stamp() is Some,
    ensures
        !m.sought(target).concerns(event),
        m.sought(target).told(event, now, buffered) == m.sought(target),
{
    seek_core(m, target);
    stale_event_is_ignored(m.sought(target), event, now, buffered);
}

/// A seek that makes no sense changes nothing.
pub proof fn refused_seek_changes_nothing(m: SessionModel, target: SeekTarget)
    requires
        !m.accepts_seek(),
    ensures
        m.sought(target) == m,
{
    reveal(SessionModel::sought);
}

/// From the moment of a seek its target is the position that is shown, and it
/// is no further than the end.
pub proof fn seek_is_shown_at_once(
    m: SessionModel,
    target: SeekTarget,
    now: Instant,
    buffered: u32,
)
    requires
        m.accepts_seek(),
    ensures
        ({
            let shown = m.sought(target).shown(now, buffered);
            &&& shown.kind == PositionKind::PendingSeekTarget
            &&& shown.position == m.clamped(target.position)
            &&& (m.core.media_duration matches Some(end) ==> shown.position@ <= end@)
        }),
{
    seek_core(m, target);
}

/// After a seek, no picture from before its target enters the queue.
pub proof fn seek_discards_what_lies_before_it(
    m: SessionModel,
    target: SeekTarget,
    event: SessionEvent,
    now: Instant,
    buffered: u32,
)
    requires
        m.accepts_seek(),
        event matches SessionEvent::VideoFrameReady(f) && f.pts@ < m.absolute(
            m.clamped(target.position),
        )@,
    ensures
        m.sought(target).told(event, now, buffered) == m.sought(target),
{
    seek_core(m, target);
    reveal(SessionModel::told);
    reveal(SessionModel::video_arrived);
}

/// While playback is paused its clock stands still.
pub proof fn paused_clock_stands_still(
    m: SessionModel,
    now: Instant,
    buffered: u32,
    later: Instant,
    buffered_later: u32,
)
    requires
        m.master(now, buffered) is Some,
    ensures
        m.paused(now, buffered, true).core.state == PlaybackState::Paused,
        m.paused(now, buffered, true).master(later, buffered_later) == m.master(now, buffered),
{
    reveal(SessionModel::paused);
    reveal(SessionModel::sink_halted);
}

/// What a sink that does not do what it is asked for leaves as it was.
pub open spec fn keeps_the_state(m: SessionModel, s: SessionModel) -> bool {
    &&& s.core.state == m.core.state
    &&& s.core.sink == m.core.sink
    &&& s.core.pending_seek_target == m.core.pending_seek_target
    &&& s.core.generations == m.core.generations
    &&& s.video == m.video
    &&& s.audio == m.audio
    &&& s.actions == m.actions
}

proof fn refused_pause(m: SessionModel, now: Instant, buffered: u32)
    requires
        m.sink_started(),
    ensures
        keeps_the_state(m, m.paused(now, buffered, false)),
{
    reveal(SessionModel::paused);
}

proof fn refused_hold(m: SessionModel, now: Instant, buffered: u32)
    requires
        !m.core.pause_after_seek,
    ensures
        keeps_the_state(m, m.pending_seek_pause_toggled(now, buffered, false)),
{
    reveal(SessionModel::pending_seek_pause_toggled);
}

proof fn refused_resume(m: SessionModel, now: Instant, surface_selected: bool)
    requires
        m.core.audio.clock_anchor_pts is Some,
        m.core.sink is Some,
    ensures
        m.resumed(now, surface_selected, false) == m,
{
    reveal(SessionModel::resumed);
}

proof fn refused_toggle(m: SessionModel, now: Instant, devices: DeviceView)
    requires
        !devices.sink_obeyed,
        m.toggle_call(now, devices.buffered_frames) != SinkCall::Nothing,
    ensures
        keeps_the_state(m, m.pause_toggled(now, devices)),
{
    reveal(SessionModel::pause_toggled);
    let buffered = devices.buffered_frames;
    if m.core.state == PlaybackState::Paused {
        refused_resume(m, now, devices.surface_selected);
    } else if m.core.state == PlaybackState::Seeking || (m.core.state == PlaybackState::Priming
        && m.core.pending_seek_target is Some) {
        refused_hold(m, now, buffered);
    } else {
        refused_pause(m, now, buffered);
    }
}

/// A sink that does not do what a command asks for leaves the state of playback
/// as it was, and nothing is sought or asked for.
pub proof fn refused_command_keeps_the_state(
    m: SessionModel,
    command: SessionCommand,
    now: Instant,
    devices: DeviceView,
)
    requires
        m.is_refused(command, now, devices),
    ensures
        keeps_the_state(m, m.commanded(command, now, devices)),
{
    refused_toggle(m, now, devices);
    match command {
        SessionCommand::TogglePause => {
            reveal(SessionModel::commanded);
        },
        SessionCommand::StepFrameForward => {
            reveal(SessionModel::frame_stepped);
            reveal(SessionModel::commanded);
        },
        SessionCommand::StepFrameBackward => {
            reveal(SessionModel::frame_stepped);
            reveal(SessionModel::commanded);
        },
        _ => {},
    }
}

/// When playback without sound goes on after a pause, it goes on from where it
/// was paused.
pub proof fn resumed_clock_continues(
    m: SessionModel,
    now: Instant,
    surface_selected: bool,
    buffered: u32,
)
    requires
        m.core.audio.clock_anchor_pts is None,
        m.core.paused_clock_position matches Some(p) && p@ <= MAX_NANOS,
    ensures
        m.resumed(now, surface_selected, true).master(now, buffered)
            == m.core.paused_clock_position,
{
    reveal(SessionModel::resumed);
    let p = m.core.paused_clock_position.unwrap();
    let r = m.core.playback_rate.hundredths;
    assert(0int * r / 100 == 0) by (nonlinear_arith);
}

/// After a failure no event counts until something else is opened.
pub proof fn failure_silences_events(
    m: SessionModel,
    error: Seq<char>,
    event: SessionEvent,
    now: Instant,
    buffered: u32,
)
    ensures
        m.failed(error).core.state == PlaybackState::Error,
        m.failed(error).last_error == Some(error),
        m.failed(error).told(event, now, buffered) == m.failed(error),
{
    reveal(SessionModel::failed);
    stale_event_is_ignored(m.failed(error), event, now, buffered);
}

/// Opening a file forgets the marks, the loop and the rate of the last one, and
/// keeps the replay preference.
pub proof fn open_resets_the_view_of_the_file(
    m: SessionModel,
    source: Seq<char>,
    start: Option<Duration>,
    preference: VideoDecodePreference,
    subtitle_loaded: bool,
)
    ensures
        ({
            let o = m.opened(source, start, preference, subtitle_loaded);
            &&& o.core.state == PlaybackState::Opening
            &&& o.source == Some(source)
            &&& o.core.clip_range == ClipRangeState::unmarked(m.core.clip_range.auto_replay)
            &&& o.core.playback_rate == PlaybackRate { hundredths: 100 }
            &&& o.core.media_duration is None
            &&& o.video.len() == 0
            &&& o.audio.len() == 0
            &&& o.core.generations.open.0 == next_count(m.core.generations.open.0)
        }),
{
    reveal(SessionModel::opened);
    reveal(SessionModel::begun);
    reveal(SessionModel::prepared);
    reveal(SessionModel::torn_down);
    reveal(SessionModel::spawned);
    reveal(SessionCore::prepared);
    reveal(SessionCore::opening);
}

/// Once another file is opened, an event of the file before it counts no more.
pub proof fn open_outdates_earlier_events(
    m: SessionModel,
    source: Seq<char>,
    start: Option<Duration>,
    preference: VideoDecodePreference,
    subtitle_loaded: bool,
    event: SessionEvent,
)
    requires
        m.concerns(event),
    ensures
        !m.opened(source, start, preference, subtitle_loaded).concerns(event),
{
    open_resets_the_view_of_the_file(m, source, start, preference, subtitle_loaded);
}

proof fn eviction_bounds(m: SessionModel)
    ensures
        m.overflow_evicted().video.len() <= m.video.len(),
        m.overflow_evicted().video.len() <= m.video_capacity,
        m.overflow_evicted().video_capacity == m.video_capacity,
        m.video.len() <= m.video_capacity ==> m.overflow_evicted() == m,
    decreases m.video.len(),
{
    reveal(SessionModel::front_dropped);
    reveal(SessionModel::frame_dropped);
    if m.video.len() > 0 && m.video.len() > m.video_capacity {
        eviction_bounds(m.front_dropped(VideoDropCause::QueueOverflow));
    }
}

/// However many frames arrive, the queue holds no more than its capacity.
pub proof fn queue_stays_within_capacity(m: SessionModel, frame: DecodedVideoFrame)
    ensures
        m.frame_queued(frame).video.len() <= m.video_capacity,
        m.frame_queued(frame).video_capacity == m.video_capacity,
{
    reveal(SessionModel::frame_queued);
    eviction_bounds(
        SessionModel {
            video: m.video.insert(insert_position(m.video, frame), frame),
            ..m
        },
    );
}

proof fn very_late_keeps(m: SessionModel, clock: Duration)
    ensures
        ({
            let r = m.very_late_dropped(clock);
            &&& r.core.clip_range == m.core.clip_range
            &&& r.core.state == m.core.state
            &&& r.core.media_time_origin_pts == m.core.media_time_origin_pts
            &&& (m.video.len() > 0 ==> r.video.len() > 0)
            &&& (in_pts_order(m.video) ==> in_pts_order(r.video))
        }),
    decreases m.video.len(),
{
    reveal(SessionModel::front_dropped);
    reveal(SessionModel::frame_dropped);
    if m.front_is_very_late(clock) {
        very_late_keeps(m.front_dropped(VideoDropCause::SchedulerLate), clock);
    }
}

proof fn overtaken_keeps(m: SessionModel, clock: Duration)
    requires
        m.video.len() > 0,
        m.media_time(m.video[0].pts)@ <= clock@,
    ensures
        ({
            let r = m.overtaken_dropped(clock);
            &&& r.core.clip_range == m.core.clip_range
            &&& r.core.state == m.core.state
            &&& r.core.media_time_origin_pts == m.core.media_time_origin_pts
            &&& r.video.len() > 0
            &&& r.media_time(r.video[0].pts)@ <= clock@
            &&& (r.video.len() > 1 ==> r.media_time(r.video[1].pts)@ > clock@)
        }),
    decreases m.video.len(),
{
    reveal(SessionModel::front_dropped);
    reveal(SessionModel::frame_dropped);
    if m.video.len() > 1 && m.media_time(m.video[1].pts)@ <= clock@ {
        overtaken_keeps(m.front_dropped(VideoDropCause::SchedulerLate), clock);
    }
}

/// With sound as the master clock, the frame that is shown is due, and the one
/// behind it is not.
pub proof fn shown_frame_is_the_latest_due(
    m: SessionModel,
    now: Instant,
    buffered: u32,
    frame: DecodedVideoFrame,
)
    requires
        m.core.audio.clock_anchor_pts is Some,
        m.advanced(now, buffered).1 == VideoStep::Present(frame),
    ensures
        m.master(now, buffered) matches Some(clock) && m.media_time(frame.pts)@ <= clock@,
        m.advanced(now, buffered).0.video.len() > 0 ==> m.media_time(
            m.advanced(now, buffered).0.video[0].pts,
        )@ > m.master(now, buffered).unwrap()@,
{
    reveal(SessionModel::advanced);
    reveal(SessionModel::caught_up);
    reveal(SessionModel::front_taken);
    let clock = m.master(now, buffered).unwrap();
    very_late_keeps(m, clock);
    let v = m.very_late_dropped(clock);
    if v.video.len() > 0 && v.media_time(v.video[0].pts)@ <= clock@ {
        overtaken_keeps(v, clock);
    }
}

/// While playback runs, no frame at or behind the out point is shown.
pub proof fn nothing_is_shown_at_the_out_point(
    m: SessionModel,
    now: Instant,
    buffered: u32,
    frame: DecodedVideoFrame,
)
    requires
        m.out_point_counts(),
        m.core.clip_range.out_point is Some,
        m.advanced(now, buffered).1 == VideoStep::Present(frame),
    ensures
        m.media_time(frame.pts)@ < m.core.clip_range.out_point.unwrap()@,
{
    reveal(SessionModel::advanced);
    reveal(SessionModel::caught_up);
    reveal(SessionModel::front_taken);
    if m.core.audio.clock_anchor_pts is Some {
        if let Some(clock) = m.master(now, buffered) {
            very_late_keeps(m, clock);
            let v = m.very_late_dropped(clock);
            if v.video.len() > 0 && v.media_time(v.video[0].pts)@ <= clock@ {
                overtaken_keeps(v, clock);
            }
        }
    }
}

/// A step by one frame holds the picture that it leads to, within the media.
pub proof fn frame_step_lands_paused(
    m: SessionModel,
    forward: bool,
    now: Instant,
    devices: DeviceView,
)
    requires
        m.accepts_seek(),
        m.core.state == PlaybackState::Paused || m.core.state == PlaybackState::Ended,
    ensures
        ({
            let s = m.frame_stepped(forward, now, devices);
            &&& s.core.pause_after_seek
            &&& s.core.state == PlaybackState::Seeking
            &&& s.core.pending_seek_target == Some(
                SeekTarget { position: m.step_target(forward, now, devices.buffered_frames) },
            )
            &&& (m.core.media_duration matches Some(end) ==>
                s.core.pending_seek_target.unwrap().position@ <= end@)
        }),
{
    reveal(SessionModel::frame_stepped);
    let p = m.with(SessionCore { pause_after_seek: true, ..m.core });
    let target = m.step_target(forward, now, devices.buffered_frames);
    seek_core(p, SeekTarget { position: target });
}

/// The picture that a held seek waited for is shown paused, at the target.
pub proof fn held_seek_ends_paused(
    m: SessionModel,
    frame: DecodedVideoFrame,
    previous: Option<u64>,
    now: Instant,
)
    requires
        m.core.pause_after_seek,
        m.core.pending_seek_target is Some,
    ensures
        ({
            let s = m.presented(frame, SurfaceSelection::Selected(previous), now);
            &&& s.core.state == PlaybackState::Paused
            &&& !s.core.pause_after_seek
            &&& s.core.paused_clock_position == Some(m.core.pending_seek_target.unwrap().position)
        }),
{
    reveal(SessionModel::presented);
    reveal(SessionCore::after_shown);
}

/// A press of the pause key while a seek is under way, and another one, end in
/// a seek that plays on, to the same target if that lies in the marked range.
pub proof fn two_presses_during_a_seek_play_on(
    m: SessionModel,
    now: Instant,
    buffered: u32,
    later: Instant,
    buffered_later: u32,
    first_obeyed: bool,
    second_obeyed: bool,
)
    requires
        m.accepts_seek(),
        m.core.state == PlaybackState::Seeking,
        !m.core.pause_after_seek,
        m.core.pending_seek_target matches Some(t) && m.core.clip_range.contains(t.position)
            && (m.core.media_duration matches Some(end) ==> t.position@ <= end@),
    ensures
        ({
            let s = m.pending_seek_pause_toggled(
                now,
                buffered,
                first_obeyed,
            ).pending_seek_pause_toggled(later, buffered_later, second_obeyed);
            &&& !s.core.pause_after_seek
            &&& s.core.state == PlaybackState::Seeking
            &&& s.core.pending_seek_target == m.core.pending_seek_target
        }),
{
    first_press(m, now, buffered, first_obeyed);
    second_press(
        m.pending_seek_pause_toggled(now, buffered, first_obeyed),
        later,
        buffered_later,
        second_obeyed,
    );
}

proof fn first_press(m: SessionModel, now: Instant, buffered: u32, obeyed: bool)
    requires
        !m.core.pause_after_seek,
    ensures
        ({
            let s = m.pending_seek_pause_toggled(now, buffered, obeyed);
            &&& s.core.pause_after_seek
            &&& s.core.state == m.core.state
            &&& s.core.pending_seek_target == m.core.pending_seek_target
            &&& s.core.clip_range == m.core.clip_range
            &&& s.core.media_duration == m.core.media_duration
            &&& s.source == m.source
        }),
{
    reveal(SessionModel::pending_seek_pause_toggled);
    reveal(SessionModel::sink_halted);
}

proof fn second_press(m: SessionModel, now: Instant, buffered: u32, obeyed: bool)
    requires
        m.accepts_seek(),
        m.core.pause_after_seek,
        m.core.pending_seek_target matches Some(t) && m.core.clip_range.contains(t.position)
            && (m.core.media_duration matches Some(end) ==> t.position@ <= end@),
    ensures
        ({
            let s = m.pending_seek_pause_toggled(now, buffered, obeyed);
            &&& !s.core.pause_after_seek
            &&& s.core.state == PlaybackState::Seeking
            &&& s.core.pending_seek_target == m.core.pending_seek_target
        }),
{
    reveal(SessionModel::pending_seek_pause_toggled);
    let again = m.with(SessionCore { pause_after_seek: false, ..m.core });
    let target = SeekTarget { position: m.core.pending_seek_target.unwrap().position };
    seek_core(again, target);
    assert(again.accepts_seek());
    assert(m.shown(now, buffered).position == target.position);
}

/// Playback that has played out ends, or starts again if it should.
pub proof fn played_out_ends_or_replays(m: SessionModel, devices: DeviceView)
    requires
        m.can_finish(devices.buffered_frames),
        m.source is Some,
    ensures
        m.tick_finished(devices).core.state == if m.core.clip_range.auto_replay
            || m.core.clip_range.loop_range {
            PlaybackState::Seeking
        } else {
            PlaybackState::Ended
        },
{
    reveal(SessionModel::tick_finished);
    reveal(SessionCore::reminders_dropped);
    reveal(SessionModel::replayed);
    let c = m.core;
    let settled = c.metrics.pending_seek_settled && m.seek_settled();
    let n = m.with(c.reminders_dropped(settled, devices.surface_selected));
    seek_core(
        n,
        SeekTarget { position: Duration { nanos: n.core.clip_range.start() as u128 } },
    );
}

} // verus!
