//! Where playback goes: what seeks, single steps, pauses, the marked range and a
//! lost device lead to, as seen in the state and in what the decoder is asked for.
use vstd::prelude::*;
use crate::commands::SessionCommand;
use crate::drop_stats::VideoDropCause;
use crate::events::SessionEvent;
use crate::media::SeekTarget;
use crate::session_model::{
    frames_span, AudioBatch, DeviceView, SessionAction, SessionCore, SessionModel, SinkState,
    VideoStep,
};
use crate::state::PlaybackState;
use crate::time::{Duration, Instant, MAX_NANOS};

verus! {

/// The time stamp that an action asks the decoder to begin at.
pub open spec fn decoder_start(action: SessionAction) -> Option<Duration> {
    match action {
        SessionAction::SpawnDecoder { start, .. } => start,
        SessionAction::SeekDecoder { target, .. } => Some(target),
        _ => None,
    }
}

/// Whether an action asks the decoder to work for the current operation of a
/// session, so that what it reports counts there.
pub open spec fn works_for(action: SessionAction, s: SessionModel) -> bool {
    match action {
        SessionAction::SpawnDecoder { open_gen, seek_gen, op_id, .. } => {
            &&& open_gen == s.core.generations.open
            &&& seek_gen == s.core.generations.seek
            &&& s.core.active_operation_id == Some(op_id)
        },
        SessionAction::SeekDecoder { control, seek_gen, op_id, .. } => {
            &&& s.core.decode_thread.control == Some(control)
            &&& seek_gen == s.core.generations.seek
            &&& s.core.active_operation_id == Some(op_id)
        },
        _ => false,
    }
}

/// Whether a file is open, so that a seek makes sense.
pub open spec fn has_media(m: SessionModel) -> bool {
    &&& m.source is Some
    &&& m.core.state != PlaybackState::Idle
    &&& m.core.state != PlaybackState::Opening
    &&& m.core.state != PlaybackState::Error
}

/// A seek to a position ends with the decoder asked for the time stamp of that
/// position, or of the end if that comes first. Nothing decoded before it is left,
/// nothing before it will be shown, and the file, its marks and its rate stay.
pub proof fn seek_asks_for_its_target(m: SessionModel, target: Duration)
    requires
        has_media(m),
    ensures
        ({
            let s = m.sought(SeekTarget { position: target });
            let start = decoder_start(s.actions.last());
            let landing = s.core.pending_seek_target;
            &&& s.core.state == PlaybackState::Seeking
            &&& landing is Some
            &&& (m.core.media_duration is None ==> landing.unwrap().position == target)
            &&& (m.core.media_duration matches Some(end) ==> landing.unwrap().position@ == (
            if target@ <= end@ {
                target@
            } else {
                end@
            }))
            &&& s.actions.len() > m.actions.len()
            &&& works_for(s.actions.last(), s)
            &&& s.core.generations.seek != m.core.generations.seek
            &&& start is Some
            &&& (m.core.media_time_origin_pts is None ==> start.unwrap()
                == landing.unwrap().position)
            &&& (m.core.media_time_origin_pts matches Some(origin) ==> origin@
                + landing.unwrap().position@ <= MAX_NANOS ==> start.unwrap()@ == origin@
                + landing.unwrap().position@)
            &&& s.core.seek_discard_before_pts == start
            &&& s.video.len() == 0
            &&& s.audio.len() == 0
            &&& !s.core.video_stream_ended
            &&& !s.core.audio_stream_ended
            &&& s.core.paused_clock_position is None
            &&& s.core.video_clock is None
            &&& s.core.audio.clock_anchor_pts is None
            &&& s.core.audio.submitted_frames == 0
            &&& s.core.media_time_origin_pts == m.core.media_time_origin_pts
            &&& s.core.media_duration == m.core.media_duration
            &&& s.core.clip_range == m.core.clip_range
            &&& s.core.playback_rate == m.core.playback_rate
            &&& s.core.viewport == m.core.viewport
            &&& s.core.audio_stream_expected == m.core.audio_stream_expected
            &&& s.core.observed_frame_interval == m.core.observed_frame_interval
            &&& s.core.last_presented_media_position == m.core.last_presented_media_position
            &&& s.core.pause_after_seek == m.core.pause_after_seek
            &&& (s.core.sink is Some <==> m.core.sink is Some)
            &&& (s.core.sink matches Some(k) ==> !k.started && k.sample_rate
                == m.core.sink.unwrap().sample_rate)
            &&& s.source == m.source
            &&& s.last_error is None
        }),
{
    reveal(SessionModel::sought);
    reveal(SessionModel::seek_executed);
    reveal(SessionModel::next_seek);
    reveal(SessionModel::prepared);
    reveal(SessionModel::torn_down);
    reveal(SessionModel::spawned);
    reveal(SessionCore::prepared);
    reveal(SessionCore::seek_pending);
}

/// A seek by command plays on from its target, and one that makes no sense leaves
/// everything but the wish to pause as it was.
pub proof fn seek_command_plays_on_from_its_target(
    m: SessionModel,
    target: Duration,
    now: Instant,
    devices: DeviceView,
)
    ensures
        ({
            let s = m.commanded(
                SessionCommand::Seek(SeekTarget { position: target }),
                now,
                devices,
            );
            let playing = m.with(SessionCore { pause_after_seek: false, ..m.core });
            &&& !s.core.pause_after_seek
            &&& (has_media(m) ==> s.core.state == PlaybackState::Seeking
                && s.core.pending_seek_target is Some && (m.core.media_duration is None
                ==> s.core.pending_seek_target.unwrap().position == target) && (
            m.core.media_duration matches Some(end) && target@ <= end@
                ==> s.core.pending_seek_target.unwrap().position == target) && decoder_start(
                s.actions.last(),
            ) is Some && decoder_start(s.actions.last()) == s.core.seek_discard_before_pts)
            &&& (!has_media(m) ==> s == playing)
        }),
{
    reveal(SessionModel::commanded);
    let playing = m.with(SessionCore { pause_after_seek: false, ..m.core });
    if has_media(m) {
        seek_asks_for_its_target(playing, target);
    } else {
        reveal(SessionModel::sought);
    }
}

/// Whether a step by one frame counts from this position: the target of a seek that
/// is under way, else the picture that was shown last, else the clock.
pub open spec fn step_counts_from(
    m: SessionModel,
    current: Duration,
    now: Instant,
    buffered: u32,
) -> bool {
    ||| m.core.pending_seek_target == Some(SeekTarget { position: current })
    ||| (m.core.pending_seek_target is None && m.core.last_presented_media_position == Some(
        current,
    ))
    ||| (m.core.pending_seek_target is None && m.core.last_presented_media_position is None
        && m.core.state != PlaybackState::Seeking && m.master(now, buffered) == Some(current))
}

/// Whether a seek that is under way is one to this position, which lies in the
/// marked range and within the file.
pub open spec fn seeks_within_the_range(m: SessionModel, current: Duration) -> bool {
    &&& m.core.pending_seek_target == Some(SeekTarget { position: current })
    &&& (m.core.clip_range.in_point matches Some(i) ==> i@ <= current@)
    &&& (m.core.clip_range.out_point matches Some(o) ==> current@ < o@)
    &&& (m.core.media_duration matches Some(end) ==> current@ <= end@)
}

/// Whether the pause that a step by one frame begins with takes hold: playback is
/// paused already, runs, or seeks within the range, and the sink does what it is
/// asked for.
pub open spec fn step_can_pause(m: SessionModel, current: Duration, devices: DeviceView) -> bool {
    &&& (devices.sink_obeyed || !(m.core.sink matches Some(k) && k.started))
    &&& ({
        ||| m.core.state == PlaybackState::Paused
        ||| m.core.state == PlaybackState::Ended
        ||| m.core.state == PlaybackState::Playing
        ||| m.core.state == PlaybackState::Draining
        ||| ((m.core.state == PlaybackState::Priming || m.core.state == PlaybackState::Seeking)
            && (!m.core.pause_after_seek || seeks_within_the_range(m, current)))
    })
}

proof fn step_after_the_pause(
    m: SessionModel,
    current: Duration,
    interval: Duration,
    now: Instant,
    devices: DeviceView,
)
    requires
        has_media(m),
        m.core.observed_frame_interval == Some(interval),
        step_counts_from(m, current, now, devices.buffered_frames),
        step_can_pause(m, current, devices),
        m.step_toggles(),
    ensures
        ({
            let p = m.pause_toggled(now, devices);
            &&& has_media(p)
            &&& p.core.observed_frame_interval == Some(interval)
            &&& p.core.media_duration == m.core.media_duration
            &&& p.core.media_time_origin_pts == m.core.media_time_origin_pts
            &&& step_counts_from(p, current, now, devices.buffered_frames)
            &&& (devices.sink_obeyed || !m.sink_started())
        }),
{
    reveal(SessionModel::pause_toggled);
    reveal(SessionModel::pending_seek_pause_toggled);
    reveal(SessionModel::paused);
    reveal(SessionModel::sink_halted);
    let again = m.with(SessionCore { pause_after_seek: false, ..m.core });
    seek_asks_for_its_target(again, current);
}

/// A step by one frame counts from the position of the shown picture. Forward it
/// leads one frame interval further, though not beyond the end; backward one frame
/// interval less far, though not before the start. The picture there is held.
pub proof fn single_step_moves_by_one_frame(
    m: SessionModel,
    forward: bool,
    current: Duration,
    interval: Duration,
    now: Instant,
    devices: DeviceView,
)
    requires
        has_media(m),
        m.core.observed_frame_interval == Some(interval),
        step_counts_from(m, current, now, devices.buffered_frames),
        step_can_pause(m, current, devices),
        current@ + interval@ <= MAX_NANOS,
    ensures
        ({
            let s = m.commanded(
                if forward {
                    SessionCommand::StepFrameForward
                } else {
                    SessionCommand::StepFrameBackward
                },
                now,
                devices,
            );
            let landing = s.core.pending_seek_target;
            &&& s.core.state == PlaybackState::Seeking
            &&& s.core.pause_after_seek
            &&& landing is Some
            &&& (forward ==> (m.core.media_duration is None || m.core.media_duration.unwrap()@
                >= current@ + interval@) ==> landing.unwrap().position@ == current@ + interval@)
            &&& (forward ==> (m.core.media_duration matches Some(end) ==> end@ < current@
                + interval@ ==> landing.unwrap().position == end))
            &&& (!forward ==> interval@ <= current@ && (m.core.media_duration is None
                || m.core.media_duration.unwrap()@ >= current@) ==> landing.unwrap().position@
                == current@ - interval@)
            &&& (!forward ==> interval@ > current@ ==> landing.unwrap().position@ == 0)
            &&& decoder_start(s.actions.last()) is Some
            &&& decoder_start(s.actions.last()) == s.core.seek_discard_before_pts
            &&& (m.core.media_time_origin_pts matches Some(origin) ==> origin@
                + landing.unwrap().position@ <= MAX_NANOS ==> decoder_start(
                s.actions.last(),
            ).unwrap()@ == origin@ + landing.unwrap().position@)
        }),
{
    reveal(SessionModel::commanded);
    reveal(SessionModel::frame_stepped);
    let buffered = devices.buffered_frames;
    let p = if m.step_toggles() {
        step_after_the_pause(m, current, interval, now, devices);
        m.pause_toggled(now, devices)
    } else {
        m
    };
    assert(step_counts_from(p, current, now, buffered));
    let target = p.step_target(forward, now, buffered);
    let held = p.with(SessionCore { pause_after_seek: true, ..p.core });
    seek_asks_for_its_target(held, target);
}

/// While no frame interval was observed, a step is as long as the gap between the
/// next two queued pictures if that is plausible, and a thirtieth of a second where
/// none are queued.
pub proof fn unobserved_interval_is_taken_from_the_queue(m: SessionModel)
    requires
        m.core.observed_frame_interval is None,
    ensures
        m.video.len() < 2 ==> m.frame_step()@ == 33_333_333,
        m.core.media_time_origin_pts matches Some(origin) ==> (m.video.len() >= 2 && origin@
            <= m.video[0].pts@ && 0 < m.video[1].pts@ - m.video[0].pts@ <= 250_000_000
            ==> m.frame_step()@ == m.video[1].pts@ - m.video[0].pts@),
        0 < m.frame_step()@ <= 250_000_000,
{
    interval_is_plausible(m, 1);
}

proof fn interval_is_plausible(m: SessionModel, at: int)
    requires
        at >= 1,
    ensures
        0 < m.queued_interval(at)@ <= 250_000_000,
    decreases m.video.len() - at,
{
    if at < m.video.len() {
        interval_is_plausible(m, at + 1);
    }
}

/// Whether a session seeks the start of the marked range, or of the file where no
/// start is marked, with the decoder asked for it.
pub open spec fn starts_the_range_again(m: SessionModel, s: SessionModel) -> bool {
    let landing = s.core.pending_seek_target;
    let start = match m.core.clip_range.in_point {
        Some(i) => i@,
        None => 0,
    };
    &&& s.core.state == PlaybackState::Seeking
    &&& landing is Some
    &&& landing.unwrap().position@ == (match m.core.media_duration {
        Some(end) if end@ < start => end@,
        _ => start,
    })
    &&& works_for(s.actions.last(), s)
    &&& decoder_start(s.actions.last()) is Some
    &&& (m.core.media_time_origin_pts matches Some(origin) ==> origin@
        + landing.unwrap().position@ <= MAX_NANOS ==> decoder_start(s.actions.last()).unwrap()@
        == origin@ + landing.unwrap().position@)
    &&& s.video.len() == 0
    &&& s.audio.len() == 0
    &&& s.core.clip_range == m.core.clip_range
}

proof fn replay_starts_the_range_again(m: SessionModel)
    requires
        has_media(m),
    ensures
        starts_the_range_again(m, m.replayed()),
{
    reveal(SessionModel::replayed);
    seek_asks_for_its_target(m, Duration { nanos: m.core.clip_range.start() as u128 });
}

/// Whether a session has come to its end at a position: nothing is queued, the
/// sound is silent, and the clock stands there.
pub open spec fn ended_at(s: SessionModel, position: Duration) -> bool {
    &&& s.core.state == PlaybackState::Ended
    &&& s.core.paused_clock_position == Some(position)
    &&& s.video.len() == 0
    &&& s.audio.len() == 0
    &&& !(s.core.sink matches Some(k) && k.started)
}

/// Whether playback runs.
pub open spec fn runs(m: SessionModel) -> bool {
    m.core.state == PlaybackState::Playing || m.core.state == PlaybackState::Priming
        || m.core.state == PlaybackState::Draining
}

proof fn stop_holds_the_clock(m: SessionModel, position: Duration)
    ensures
        ended_at(m.stopped_at(position), position),
        m.stopped_at(position).core.clip_range == m.core.clip_range,
        m.stopped_at(position).source == m.source,
{
    reveal(SessionModel::stopped_at);
    reveal(SessionModel::video_cleared);
    reveal(SessionModel::sink_paused);
}

proof fn late_frames_leave(m: SessionModel, clock: Duration, n: int)
    requires
        n == m.video.len(),
    ensures
        ({
            let r = m.very_late_dropped(clock);
            &&& r.core.clip_range == m.core.clip_range
            &&& r.core.state == m.core.state
            &&& r.core.media_time_origin_pts == m.core.media_time_origin_pts
            &&& r.core.media_duration == m.core.media_duration
            &&& r.source == m.source
            &&& r.video.len() <= n
            &&& r.video == m.video.skip(n - r.video.len())
            &&& (n > 0 ==> r.video.len() > 0)
        }),
    decreases n,
{
    reveal(SessionModel::front_dropped);
    reveal(SessionModel::frame_dropped);
    assert(m.video.skip(0) =~= m.video);
    if m.front_is_very_late(clock) {
        let d = m.front_dropped(VideoDropCause::SchedulerLate);
        late_frames_leave(d, clock, n - 1);
        let r = m.very_late_dropped(clock);
        assert(d.video.skip(n - 1 - r.video.len()) =~= m.video.skip(n - r.video.len()));
    }
}

proof fn overtaken_frames_leave(m: SessionModel, clock: Duration, n: int)
    requires
        n == m.video.len(),
    ensures
        ({
            let r = m.overtaken_dropped(clock);
            &&& r.core.clip_range == m.core.clip_range
            &&& r.core.state == m.core.state
            &&& r.core.media_time_origin_pts == m.core.media_time_origin_pts
            &&& r.core.media_duration == m.core.media_duration
            &&& r.source == m.source
            &&& r.video.len() <= n
            &&& r.video == m.video.skip(n - r.video.len())
            &&& (n > 0 ==> r.video.len() > 0)
        }),
    decreases n,
{
    reveal(SessionModel::front_dropped);
    reveal(SessionModel::frame_dropped);
    assert(m.video.skip(0) =~= m.video);
    if m.video.len() > 1 && m.media_time(m.video[1].pts)@ <= clock@ {
        let d = m.front_dropped(VideoDropCause::SchedulerLate);
        overtaken_frames_leave(d, clock, n - 1);
        let r = m.overtaken_dropped(clock);
        assert(d.video.skip(n - 1 - r.video.len()) =~= m.video.skip(n - r.video.len()));
    }
}

pub(crate) proof fn frames_left_behind_leave(m: SessionModel, clock: Duration)
    ensures
        ({
            let r = m.caught_up(clock);
            let n = m.video.len() as int;
            &&& r.core.clip_range == m.core.clip_range
            &&& r.core.state == m.core.state
            &&& r.core.media_time_origin_pts == m.core.media_time_origin_pts
            &&& r.core.media_duration == m.core.media_duration
            &&& r.source == m.source
            &&& r.video.len() <= n
            &&& r.video == m.video.skip(n - r.video.len())
            &&& (n > 0 ==> r.video.len() > 0)
        }),
{
    reveal(SessionModel::caught_up);
    let n = m.video.len() as int;
    let v = m.very_late_dropped(clock);
    late_frames_leave(m, clock, n);
    overtaken_frames_leave(v, clock, v.video.len() as int);
    let o = v.overtaken_dropped(clock);
    assert(v.video.skip(v.video.len() - o.video.len()) =~= m.video.skip(n - o.video.len()));
}

proof fn front_at_the_out_point(m: SessionModel, out: Duration)
    requires
        m.video.len() > 0,
        has_media(m),
        runs(m),
        m.core.clip_range.out_point == Some(out),
        m.media_time(m.video[0].pts)@ >= out@,
    ensures
        m.front_taken().1 == VideoStep::StoppedAtOutPoint,
        m.core.clip_range.loop_range ==> starts_the_range_again(m, m.front_taken().0),
        !m.core.clip_range.loop_range ==> ended_at(
            m.front_taken().0,
            m.media_time(m.video[0].pts),
        ),
{
    reveal(SessionModel::front_taken);
    let frame = m.video[0];
    let freed = SessionModel { video: m.video.drop_first(), ..m }.act(
        SessionAction::ReleaseSurface(frame.surface),
    );
    replay_starts_the_range_again(freed);
    stop_holds_the_clock(freed, m.media_time(frame.pts));
}

/// Where playback reaches the out point, a range that loops is played again from
/// its start, and one that does not ends there: the clock is held at the position of
/// the picture that reached it.
pub proof fn out_point_loops_or_ends(m: SessionModel, now: Instant, buffered: u32)
    requires
        has_media(m),
        m.advanced(now, buffered).1 == VideoStep::StoppedAtOutPoint,
    ensures
        runs(m),
        m.core.clip_range.out_point is Some,
        m.core.clip_range.loop_range ==> starts_the_range_again(m, m.advanced(now, buffered).0),
        !m.core.clip_range.loop_range ==> exists|i: int|
            0 <= i < m.video.len() && m.media_time(#[trigger] m.video[i].pts)@
                >= m.core.clip_range.out_point.unwrap()@ && ended_at(
                m.advanced(now, buffered).0,
                m.media_time(m.video[i].pts),
            ),
{
    reveal(SessionModel::advanced);
    if m.core.audio.clock_anchor_pts is Some {
        let clock = m.master(now, buffered).unwrap();
        let c = m.caught_up(clock);
        frames_left_behind_leave(m, clock);
        reveal(SessionModel::front_taken);
        let out = m.core.clip_range.out_point.unwrap();
        front_at_the_out_point(c, out);
        let i = m.video.len() - c.video.len();
        assert(c.video[0] == m.video[i]);
        assert(m.media_time(m.video[i].pts) == c.media_time(c.video[0].pts));
    } else {
        reveal(SessionModel::front_taken);
        front_at_the_out_point(m, m.core.clip_range.out_point.unwrap());
        assert(m.media_time(m.video[0].pts) == m.media_time(m.video[0].pts));
    }
}

/// Without sound, the next picture is due once the clock has come to it. If it lies
/// at or behind the out point while playback runs, it is not shown but ends the
/// range; any other is shown.
pub proof fn due_picture_is_shown_or_ends_the_range(m: SessionModel, now: Instant, buffered: u32)
    requires
        has_media(m),
        m.core.state != PlaybackState::Paused,
        m.core.state != PlaybackState::Ended,
        m.core.audio.clock_anchor_pts is None,
        m.video.len() > 0,
        m.core.video_clock matches Some(clock) ==> now@ >= clock.deadline_nanos(
            m.media_time(m.video[0].pts),
        ),
    ensures
        ({
            let position = m.media_time(m.video[0].pts);
            let out = m.core.clip_range.out_point;
            let s = m.advanced(now, buffered);
            let ends = runs(m) && out is Some && position@ >= out.unwrap()@;
            &&& (ends ==> s.1 == VideoStep::StoppedAtOutPoint)
            &&& (ends && m.core.clip_range.loop_range ==> starts_the_range_again(m, s.0))
            &&& (ends && !m.core.clip_range.loop_range ==> ended_at(s.0, position))
            &&& (!ends ==> s.1 == VideoStep::Present(m.video[0]))
            &&& (!ends ==> s.0 == (SessionModel { video: m.video.skip(1), ..m }))
        }),
{
    reveal(SessionModel::advanced);
    reveal(SessionModel::front_taken);
    let position = m.media_time(m.video[0].pts);
    assert(m.video.drop_first() =~= m.video.skip(1));
    if let Some(out) = m.core.clip_range.out_point {
        if runs(m) && position@ >= out@ {
            front_at_the_out_point(m, out);
        }
    }
}

/// Positions count from the first time stamp of the file: the time stamp of a
/// position lies as far behind it, and leads back to the position.
pub proof fn positions_count_from_the_first_time_stamp(
    m: SessionModel,
    origin: Duration,
    position: Duration,
)
    requires
        m.core.media_time_origin_pts == Some(origin),
        origin@ + position@ <= MAX_NANOS,
    ensures
        m.absolute(position)@ - origin@ == position@,
        m.media_time(m.absolute(position)) == position,
        m.media_time(origin)@ == 0,
{
}

/// The clock: where it was paused; else the sound that was played since it was
/// anchored; else the pace of the pictures.
pub proof fn clock_follows_pause_then_sound_then_pictures(
    m: SessionModel,
    now: Instant,
    buffered: u32,
    anchor: Duration,
    sink: SinkState,
)
    ensures
        m.core.paused_clock_position is Some ==> m.master(now, buffered)
            == m.core.paused_clock_position,
        ({
            &&& m.core.paused_clock_position is None
            &&& m.core.audio.clock_anchor_pts == Some(anchor)
            &&& m.core.sink == Some(sink)
            &&& sink.started
            &&& sink.sample_rate > 0
            &&& m.core.audio.submitted_frames >= buffered
        }) ==> ({
            let played = m.core.audio.submitted_frames - buffered;
            let heard = m.master(now, buffered);
            let from = m.media_time(anchor)@;
            &&& heard is Some
            &&& (from * sink.sample_rate + played * 1_000_000_000 <= MAX_NANOS * sink.sample_rate
                ==> -(sink.sample_rate as int) <= 2 * ((heard.unwrap()@ - from) * sink.sample_rate
                - played * 1_000_000_000) <= sink.sample_rate)
        }),
        ({
            &&& m.core.paused_clock_position is None
            &&& (m.core.audio.clock_anchor_pts is None || !(m.core.sink matches Some(k)
                && k.started))
        }) ==> (m.master(now, buffered) is Some <==> m.core.video_clock is Some),
        ({
            &&& m.core.paused_clock_position is None
            &&& m.core.audio.clock_anchor_pts is None
        }) ==> (m.core.video_clock matches Some(clock) ==> m.master(now, buffered).unwrap()@
            == clock.position_nanos(now)),
{
    if sink.sample_rate > 0 && m.core.audio.submitted_frames >= buffered {
        let rate = sink.sample_rate as int;
        let played = m.core.audio.submitted_frames - buffered;
        let span = frames_span(played, sink.sample_rate);
        let from = m.media_time(anchor)@;
        span_is_nearest(played, sink.sample_rate);
        if from * rate + played * 1_000_000_000 <= MAX_NANOS * rate {
            assert(from + span <= MAX_NANOS) by (nonlinear_arith)
                requires
                    from * rate + played * 1_000_000_000 <= MAX_NANOS * rate,
                    2 * (span * rate - played * 1_000_000_000) <= rate,
                    rate > 0,
            ;
            assert((from + span - from) * rate == span * rate);
        }
    }
}

pub(crate) proof fn span_is_nearest(frames: int, sample_rate: u32)
    requires
        sample_rate > 0,
        frames >= 0,
    ensures
        ({
            let off = frames_span(frames, sample_rate) * sample_rate - frames * 1_000_000_000;
            &&& -(sample_rate as int) <= 2 * off <= sample_rate
            &&& frames_span(frames, sample_rate) >= 0
        }),
{
    let n = frames * 1_000_000_000;
    let rate = sample_rate as int;
    vstd::arithmetic::div_mod::lemma_fundamental_div_mod(n, rate);
    let below = n / rate;
    let rest = n % rate;
    assert(below >= 0) by (nonlinear_arith)
        requires
            n >= 0,
            rate > 0,
            below == n / rate,
    ;
    assert(rate * below == below * rate) by (nonlinear_arith);
    assert((below + 1) * rate == below * rate + rate) by (nonlinear_arith);
}

/// Whether a position is the one that is shown: the target of a seek that is under
/// way, else the clock.
pub open spec fn shows(m: SessionModel, position: Duration, now: Instant, buffered: u32) -> bool {
    ||| m.core.pending_seek_target == Some(SeekTarget { position })
    ||| (m.core.pending_seek_target is None && m.master(now, buffered) == Some(position))
}

/// Whether a session starts its file again with another decoder at a position, as
/// part of an operation of its own.
pub open spec fn goes_on_from(m: SessionModel, s: SessionModel, position: Duration) -> bool {
    let start = decoder_start(s.actions.last());
    &&& s.core.state == PlaybackState::Seeking
    &&& s.actions.len() > m.actions.len()
    &&& s.actions.last() is SpawnDecoder
    &&& works_for(s.actions.last(), s)
    &&& s.core.generations.seek != m.core.generations.seek
    &&& s.core.generations.open == m.core.generations.open
    &&& start is Some
    &&& (m.core.media_time_origin_pts is None ==> start.unwrap() == position)
    &&& (m.core.media_time_origin_pts matches Some(origin) ==> origin@ + position@ <= MAX_NANOS
        ==> start.unwrap()@ == origin@ + position@)
    &&& s.core.media_time_origin_pts == m.core.media_time_origin_pts
    &&& s.core.media_duration == m.core.media_duration
    &&& s.core.clip_range == m.core.clip_range
    &&& s.core.playback_rate == m.core.playback_rate
    &&& s.core.pause_after_seek == m.core.pause_after_seek
    &&& s.source == m.source
    &&& s.video.len() == 0
    &&& s.audio.len() == 0
}

proof fn restart_goes_on(m: SessionModel, position: Duration, now: Instant, buffered: u32, rebuild: bool)
    requires
        shows(m, position, now, buffered),
    ensures
        goes_on_from(m, m.restarted(now, buffered, rebuild), position),
        rebuild ==> m.restarted(now, buffered, rebuild).core.sink is None && m.restarted(
            now,
            buffered,
            rebuild,
        ).actions.contains(SessionAction::RebuildAudioSink),
        !rebuild ==> (m.core.sink is Some <==> m.restarted(now, buffered, rebuild).core.sink
            is Some),
{
    reveal(SessionModel::restarted);
    reveal(SessionModel::next_seek);
    reveal(SessionModel::begun);
    reveal(SessionModel::prepared);
    reveal(SessionModel::torn_down);
    reveal(SessionModel::spawned);
    reveal(SessionCore::prepared);
    if rebuild {
        let s = m.restarted(now, buffered, rebuild);
        assert(s.actions[s.actions.len() - 2] == SessionAction::RebuildAudioSink);
    }
}

/// When the sound goes to another device, a new sink is made and playback goes on
/// with another decoder from the position that was shown.
pub proof fn other_audio_device_goes_on_from_the_shown_position(
    m: SessionModel,
    event: SessionEvent,
    position: Duration,
    now: Instant,
    buffered: u32,
)
    requires
        event is AudioEndpointChanged,
        m.concerns(event),
        m.source is Some,
        shows(m, position, now, buffered),
    ensures
        goes_on_from(m, m.told(event, now, buffered), position),
        m.told(event, now, buffered).core.sink is None,
        m.told(event, now, buffered).actions.contains(SessionAction::RebuildAudioSink),
{
    reveal(SessionModel::told);
    reveal(SessionModel::audio_recovered);
    restart_goes_on(m, position, now, buffered, true);
}

/// When the graphics device is lost, the decoder has to leave before another device
/// is built; once that is there, playback goes on with another decoder from the
/// position that was shown, and the sink stays.
pub proof fn rebuilt_device_goes_on_from_the_shown_position(
    m: SessionModel,
    event: SessionEvent,
    position: Duration,
    now: Instant,
    buffered: u32,
    later: Instant,
    buffered_later: u32,
)
    requires
        event is DeviceLost,
        m.concerns(event),
        m.source is Some,
        shows(m, position, later, buffered_later),
    ensures
        ({
            let lost = m.told(event, now, buffered);
            let s = lost.restarted(later, buffered_later, false);
            let n = lost.actions.len();
            &&& n == m.actions.len() + 2
            &&& lost.actions[n - 2] == (SessionAction::StopDecoder {
                control: m.core.decode_thread.control,
                wait: true,
            })
            &&& lost.actions[n - 1] == SessionAction::RebuildDevice
            &&& goes_on_from(lost, s, position)
            &&& (s.core.sink is Some <==> m.core.sink is Some)
            &&& s.core.media_time_origin_pts == m.core.media_time_origin_pts
            &&& s.core.clip_range == m.core.clip_range
        }),
{
    reveal(SessionModel::told);
    reveal(SessionModel::device_lost);
    reveal(SessionModel::torn_down);
    restart_goes_on(m.told(event, now, buffered), position, later, buffered_later, false);
}

/// A sink that fails while sound is handed to it is replaced in the same way.
pub proof fn failed_sink_goes_on_from_the_shown_position(
    m: SessionModel,
    position: Duration,
    now: Instant,
    buffered: u32,
)
    requires
        m.source is Some,
        m.core.state != PlaybackState::Paused,
        m.core.state != PlaybackState::Ended,
        !m.core.pause_after_seek,
        m.core.playback_rate.hundredths == 100,
        m.core.sink is Some,
        shows(m, position, now, buffered),
    ensures
        ({
            let nothing = AudioBatch { first_written_pts: None, wrote_any: false };
            let s = m.audio_submitted(nothing, true, now, buffered);
            &&& goes_on_from(m, s, position)
            &&& s.core.sink is None
            &&& s.actions.contains(SessionAction::RebuildAudioSink)
        }),
{
    reveal(SessionModel::audio_submitted);
    reveal(SessionModel::anchored);
    reveal(SessionModel::audio_recovered);
    restart_goes_on(m, position, now, buffered, true);
}

} // verus!
