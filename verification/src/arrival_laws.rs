//! What becomes of decoded pictures and sound: how they are queued, shown, heard and
//! dropped, and what the other reports of a worker lead to.
use vstd::prelude::*;
use crate::drop_stats::VideoDropCause;
use crate::events::SessionEvent;
use crate::media::{DecodedVideoFrame, VideoDecodeMode, VideoDecodePreference};
use crate::session_model::{
    frames_span, AudioBatch, DeviceView, PresentResult, QueuedAudioFrame, SessionAction,
    SessionCore, SessionModel, SurfaceSelection,
};
use crate::session_tick::PresentPlan;
use crate::state::PlaybackState;
use crate::time::{Duration, Instant, MAX_NANOS};
use crate::transport_laws::{decoder_start, has_media, runs, span_is_nearest, works_for};
use crate::video_queue::{in_pts_order, insert_position};

verus! {

/// The picture of a report, as it is queued.
pub open spec fn picture_of(event: SessionEvent) -> DecodedVideoFrame {
    let f = event->VideoFrameReady_0;
    DecodedVideoFrame { open_gen: f.open_gen, seek_gen: f.seek_gen, pts: f.pts, surface: f.surface }
}

/// The state once the first data of an open or a seek is there.
pub open spec fn state_with_data(m: SessionModel) -> PlaybackState {
    if m.core.state == PlaybackState::Opening || m.core.state == PlaybackState::Seeking {
        PlaybackState::Priming
    } else {
        m.core.state
    }
}

/// Whether a time stamp lies before the one that the last seek asked for.
pub open spec fn lies_before_the_seek(m: SessionModel, pts: Duration) -> bool {
    m.core.seek_discard_before_pts matches Some(first) && pts@ < first@
}

proof fn picture_goes_in(m: SessionModel, event: SessionEvent, now: Instant, buffered: u32)
    requires
        event is VideoFrameReady,
        m.concerns(event),
        !lies_before_the_seek(m, event->VideoFrameReady_0.pts),
        m.video.len() < m.video_capacity,
        in_pts_order(m.video),
    ensures
        ({
            let s = m.told(event, now, buffered);
            let frame = picture_of(event);
            &&& 0 <= insert_position(m.video, frame) <= m.video.len()
            &&& s.video == m.video.insert(insert_position(m.video, frame), frame)
            &&& s.core.state == state_with_data(m)
            &&& s.audio == m.audio
            &&& s.core.media_time_origin_pts == (match m.core.media_time_origin_pts {
                Some(origin) => Some(origin),
                None => Some(frame.pts),
            })
            &&& s.core.metrics.dropped_video_frames == m.core.metrics.dropped_video_frames
            &&& s.core.paused_clock_position == m.core.paused_clock_position
            &&& s.core.pending_seek_target == m.core.pending_seek_target
            &&& s.core.generations == m.core.generations
            &&& s.core.clip_range == m.core.clip_range
            &&& s.core.video_stream_ended == m.core.video_stream_ended
            &&& s.actions.last() == (SessionAction::RegisterSurface {
                surface: frame.surface,
                open_gen: frame.open_gen,
                seek_gen: frame.seek_gen,
            })
            &&& (!m.core.needs_initial_resize ==> s.actions.len() == m.actions.len() + 1)
            &&& (m.core.needs_initial_resize ==> s.actions.len() == m.actions.len() + 2
                && s.actions[m.actions.len() as int] == (SessionAction::ResizeForContent {
                width: event->VideoFrameReady_0.display_width,
                height: event->VideoFrameReady_0.display_height,
                center: !m.core.has_shown_content,
            }))
            &&& !s.core.needs_initial_resize
            &&& s.core.has_shown_content == (m.core.has_shown_content
                || m.core.needs_initial_resize)
        }),
{
    reveal(SessionModel::told);
    reveal(SessionModel::video_arrived);
    reveal(SessionModel::frame_queued);
    reveal(SessionModel::origin_observed);
    reveal(SessionModel::primed);
    insert_position_is_inside(m.video, picture_of(event).pts@);
}

proof fn insert_position_is_inside(s: Seq<DecodedVideoFrame>, pts: int)
    ensures
        0 <= crate::video_queue::first_not_before(s, pts) <= s.len(),
    decreases s.len(),
{
    if s.len() > 0 {
        insert_position_is_inside(s.drop_first(), pts);
    }
}

proof fn frames_before_are_earlier(s: Seq<DecodedVideoFrame>, pts: int, i: int)
    requires
        0 <= i < s.len(),
        in_pts_order(s),
    ensures
        ({
            let at = crate::video_queue::first_not_before(s, pts);
            &&& (i < at ==> s[i].pts@ < pts)
            &&& (i >= at ==> s[i].pts@ >= pts)
        }),
    decreases s.len(),
{
    let rest = s.drop_first();
    insert_position_is_inside(rest, pts);
    assert(s[0].pts@ <= s[i].pts@);
    if s[0].pts@ < pts && i > 0 {
        assert forall|a: int, b: int| 0 <= a <= b < rest.len() implies rest[a].pts@
            <= rest[b].pts@ by {
            assert(rest[a] == s[a + 1] && rest[b] == s[b + 1]);
        }
        frames_before_are_earlier(rest, pts, i - 1);
    }
}

/// A decoded picture joins the queue in the order of time, none is lost, and its
/// pixels are kept. The first one says where time starts, begins playback, and gives
/// a new file its window, in the middle of the screen if it is the first of all.
pub proof fn picture_joins_the_queue(
    m: SessionModel,
    event: SessionEvent,
    now: Instant,
    buffered: u32,
)
    requires
        event is VideoFrameReady,
        m.concerns(event),
        !lies_before_the_seek(m, event->VideoFrameReady_0.pts),
        m.video.len() < m.video_capacity,
        in_pts_order(m.video),
    ensures
        ({
            let s = m.told(event, now, buffered);
            let frame = picture_of(event);
            &&& in_pts_order(s.video)
            &&& s.video.len() == m.video.len() + 1
            &&& s.video.to_multiset() == m.video.to_multiset().insert(frame)
            &&& s.audio == m.audio
            &&& s.core.state == state_with_data(m)
            &&& (m.core.media_time_origin_pts is None ==> s.core.media_time_origin_pts == Some(
                frame.pts,
            ))
            &&& (m.core.media_time_origin_pts is Some ==> s.core.media_time_origin_pts
                == m.core.media_time_origin_pts)
            &&& s.core.metrics.dropped_video_frames == m.core.metrics.dropped_video_frames
            &&& s.actions.last() == (SessionAction::RegisterSurface {
                surface: frame.surface,
                open_gen: frame.open_gen,
                seek_gen: frame.seek_gen,
            })
            &&& (!m.core.needs_initial_resize ==> s.actions.len() == m.actions.len() + 1)
            &&& (m.core.needs_initial_resize ==> s.actions[m.actions.len() as int] == (
            SessionAction::ResizeForContent {
                width: event->VideoFrameReady_0.display_width,
                height: event->VideoFrameReady_0.display_height,
                center: !m.core.has_shown_content,
            }))
            &&& !s.core.needs_initial_resize
        }),
{
    picture_goes_in(m, event, now, buffered);
    let frame = picture_of(event);
    let at = insert_position(m.video, frame);
    let s = m.told(event, now, buffered);
    crate::video_queue::insert_keeps_all(m.video, frame);
    assert forall|i: int, j: int| 0 <= i <= j < s.video.len() implies s.video[i].pts@
        <= s.video[j].pts@ by {
        let a = if i < at { i } else { i - 1 };
        let b = if j < at { j } else { j - 1 };
        if i != at {
            frames_before_are_earlier(m.video, frame.pts@, a);
        }
        if j != at {
            frames_before_are_earlier(m.video, frame.pts@, b);
        }
        if i != at && j != at {
            assert(m.video[a].pts@ <= m.video[b].pts@);
        } else if i != at {
            assert(m.video[a].pts@ <= m.video.last().pts@);
        }
    }
}

/// A picture from before the target of a seek leaves everything as it was, and so
/// does sound from before it.
pub proof fn data_from_before_the_seek_is_ignored(
    m: SessionModel,
    event: SessionEvent,
    now: Instant,
    buffered: u32,
)
    requires
        event matches SessionEvent::VideoFrameReady(f) ==> lies_before_the_seek(m, f.pts),
        event matches SessionEvent::AudioFrameReady(f) ==> lies_before_the_seek(m, f.pts),
        event is VideoFrameReady || event is AudioFrameReady,
    ensures
        m.told(event, now, buffered) == m,
{
    reveal(SessionModel::told);
    reveal(SessionModel::video_arrived);
    reveal(SessionModel::audio_arrived);
}

/// A picture that arrives in order at a full queue pushes the oldest one out, which
/// is counted and whose pixels are freed.
pub proof fn full_queue_drops_the_oldest(m: SessionModel, frame: DecodedVideoFrame)
    requires
        m.video.len() == m.video_capacity,
        m.video_capacity > 0,
        m.video.last().pts@ <= frame.pts@,
        m.core.metrics.dropped_video_frames < u64::MAX,
        m.core.drop_buckets.queue_overflow < u64::MAX,
    ensures
        ({
            let s = m.frame_queued(frame);
            &&& s.video == m.video.skip(1).push(frame)
            &&& s.actions == m.actions.push(SessionAction::ReleaseSurface(m.video[0].surface))
            &&& s.core.metrics.dropped_video_frames == m.core.metrics.dropped_video_frames + 1
            &&& s.core.drop_buckets.queue_overflow == m.core.drop_buckets.queue_overflow + 1
            &&& s.core.drop_buckets.scheduler_late == m.core.drop_buckets.scheduler_late
            &&& s.core.drop_buckets.surface_mismatch == m.core.drop_buckets.surface_mismatch
        }),
{
    reveal(SessionModel::frame_queued);
    reveal(SessionModel::front_dropped);
    reveal(SessionModel::frame_dropped);
    let wide = SessionModel { video: m.video.insert(m.video.len() as int, frame), ..m };
    let s = wide.front_dropped(VideoDropCause::QueueOverflow);
    assert(wide.video.drop_first() =~= m.video.skip(1).push(frame));
    assert(wide.overflow_evicted() == s.overflow_evicted());
    assert(s.overflow_evicted() == s);
}

/// Decoded sound joins the end of its queue while there is room. Without a sink the
/// playback fails, with the reason why there is none.
pub proof fn sound_joins_the_queue(
    m: SessionModel,
    event: SessionEvent,
    now: Instant,
    buffered: u32,
)
    requires
        event is AudioFrameReady,
        m.concerns(event),
        !lies_before_the_seek(m, event->AudioFrameReady_0.pts),
    ensures
        ({
            let f = event->AudioFrameReady_0;
            let s = m.told(event, now, buffered);
            &&& s.core.audio_stream_expected
            &&& s.video == m.video
            &&& (m.core.media_time_origin_pts is None ==> s.core.media_time_origin_pts == Some(
                f.pts,
            ))
            &&& (m.core.media_time_origin_pts is Some ==> s.core.media_time_origin_pts
                == m.core.media_time_origin_pts)
            &&& (m.core.sink is Some ==> s.core.state == state_with_data(m))
            &&& (m.core.sink is Some ==> s.actions == m.actions)
            &&& (m.core.sink is Some && m.audio.len() < m.audio_capacity ==> s.audio
                == m.audio.push(QueuedAudioFrame { frame: f, submitted_frames: 0 }))
            &&& (m.audio.len() >= m.audio_capacity ==> s.audio == m.audio)
            &&& (m.core.sink is None ==> s.core.state == PlaybackState::Error)
            &&& (m.core.sink is None ==> s.last_error is Some)
            &&& (m.core.sink is None && m.sink_error is Some ==> s.last_error == m.sink_error)
        }),
{
    reveal(SessionModel::told);
    reveal(SessionModel::audio_arrived);
    reveal(SessionModel::origin_observed);
    reveal(SessionModel::failed);
    reveal(SessionModel::torn_down);
    reveal(SessionModel::primed);
}

/// A worker that had to decode in software is asked to do so from then on; the turn
/// of the stream replaces that of the view where it is news.
pub proof fn decode_mode_is_taken_up(
    m: SessionModel,
    event: SessionEvent,
    now: Instant,
    buffered: u32,
)
    requires
        event is DecodeModeSelected,
        m.concerns(event),
    ensures
        ({
            let s = m.told(event, now, buffered);
            let mode = event->DecodeModeSelected_mode;
            let turns = event->DecodeModeSelected_rotation_quarter_turns;
            &&& s.core.active_decode_mode == Some(mode)
            &&& s.core.decode_preference == (if mode == VideoDecodeMode::Software {
                VideoDecodePreference::ForceSoftware
            } else {
                m.core.decode_preference
            })
            &&& s.core.viewport.stream_rotation_quarter_turns == turns
            &&& s.core.viewport.rotation_quarter_turns == (
            if m.core.viewport.stream_rotation_quarter_turns == turns {
                m.core.viewport.rotation_quarter_turns
            } else {
                turns
            })
            &&& s.core.metrics.hw_fallback_count == event->DecodeModeSelected_hw_fallback_count
            &&& s.actions == (if m.core.overlay.show_decode_info {
                m.actions.push(SessionAction::UpdateWindowTitle)
            } else {
                m.actions
            })
            &&& s.core.state == m.core.state
            &&& s.video == m.video
            &&& s.audio == m.audio
        }),
{
    reveal(SessionModel::told);
}

/// The length of the file is kept; the path of the picture and its brightness go to
/// the presenter; nothing else changes.
pub proof fn facts_about_the_file_are_passed_on(
    m: SessionModel,
    event: SessionEvent,
    now: Instant,
    buffered: u32,
)
    requires
        m.concerns(event),
    ensures
        event matches SessionEvent::MediaDurationKnown { duration, .. } ==> m.told(
            event,
            now,
            buffered,
        ) == m.with(SessionCore { media_duration: Some(duration), ..m.core }),
        event matches SessionEvent::PresentationPathSelected { path, .. } ==> m.told(
            event,
            now,
            buffered,
        ) == m.act(SessionAction::SelectPresentationPath(path)),
        event matches SessionEvent::HdrMetadataKnown { mastering, content_light, .. } ==> m.told(
            event,
            now,
            buffered,
        ) == m.act(SessionAction::ApplyHdrMetadata { mastering, content_light }),
{
    reveal(SessionModel::told);
}

/// A report of failure lets the worker go, keeps its reason, and belongs to no
/// operation any more.
pub proof fn failure_is_kept_and_ends_the_operation(
    m: SessionModel,
    event: SessionEvent,
    now: Instant,
    buffered: u32,
)
    requires
        m.concerns(event),
        event is OpenFailed || event is PlaybackFailed,
    ensures
        ({
            let s = m.told(event, now, buffered);
            &&& s.core.state == PlaybackState::Error
            &&& (event matches SessionEvent::OpenFailed { error, .. } ==> s.last_error == Some(
                error@,
            ))
            &&& (event matches SessionEvent::PlaybackFailed { error, .. } ==> s.last_error
                == Some(error@))
            &&& s.core.active_operation_id is None
            &&& s.core.pending_seek_target is None
            &&& s.core.decode_thread.control is None
            &&& s.actions == m.actions.push(
                SessionAction::StopDecoder { control: m.core.decode_thread.control, wait: false },
            )
            &&& s.source == m.source
        }),
{
    reveal(SessionModel::told);
    reveal(SessionModel::failed);
    reveal(SessionModel::torn_down);
}

/// Opening a file asks a new decoder for it, from the start that was chosen, and
/// forgets the last one: its queues, its time, its length and its error.
pub proof fn open_asks_for_the_file(
    m: SessionModel,
    source: Seq<char>,
    start: Option<Duration>,
    preference: VideoDecodePreference,
    subtitle_loaded: bool,
)
    ensures
        ({
            let s = m.opened(source, start, preference, subtitle_loaded);
            &&& s.actions.last() is SpawnDecoder
            &&& decoder_start(s.actions.last()) == start
            &&& works_for(s.actions.last(), s)
            &&& (s.actions.last() matches SessionAction::SpawnDecoder { preference: p, .. } && p
                == preference)
            &&& s.core.decode_preference == preference
            &&& s.actions.contains(
                SessionAction::StopDecoder { control: m.core.decode_thread.control, wait: false },
            )
            &&& s.actions.contains(SessionAction::RebuildAudioSink)
            &&& s.actions.contains(SessionAction::ResetSurfaces)
            &&& s.core.state == PlaybackState::Opening
            &&& s.source == Some(source)
            &&& s.core.generations.open != m.core.generations.open
            &&& s.core.sink is None
            &&& s.core.media_time_origin_pts is None
            &&& s.core.media_duration is None
            &&& s.core.seek_discard_before_pts is None
            &&& s.core.paused_clock_position is None
            &&& s.core.video_clock is None
            &&& s.core.audio.clock_anchor_pts is None
            &&& !s.core.audio_stream_expected
            &&& !s.core.video_stream_ended
            &&& !s.core.audio_stream_ended
            &&& s.core.last_presented_media_position is None
            &&& s.core.observed_frame_interval is None
            &&& s.core.needs_initial_resize
            &&& s.core.has_shown_content == m.core.has_shown_content
            &&& s.core.overlay.subtitle_loaded == subtitle_loaded
            &&& s.core.overlay.subtitles_enabled == subtitle_loaded
            &&& s.core.viewport.rotation_quarter_turns == 0
            &&& s.core.playback_rate.hundredths == 100
            &&& s.core.clip_range.in_point is None
            &&& s.core.clip_range.out_point is None
            &&& !s.core.clip_range.loop_range
            &&& s.core.clip_range.auto_replay == m.core.clip_range.auto_replay
            &&& s.video.len() == 0
            &&& s.audio.len() == 0
            &&& s.last_error is None
        }),
{
    reveal(SessionModel::opened);
    reveal(SessionModel::begun);
    reveal(SessionModel::prepared);
    reveal(SessionModel::torn_down);
    reveal(SessionModel::spawned);
    reveal(SessionCore::prepared);
    reveal(SessionCore::opening);
    let s = m.opened(source, start, preference, subtitle_loaded);
    let n = s.actions.len();
    let k = m.actions.len() as int;
    assert(s.actions[k] == (SessionAction::StopDecoder {
        control: m.core.decode_thread.control,
        wait: false,
    }));
    assert(s.actions[n - 2] == SessionAction::RebuildAudioSink);
    assert(s.actions[n - 6] == SessionAction::ResetSurfaces);
}

/// Sound is handed to the sink while playback goes on at normal speed: not in a
/// pause, not after the end, and not for a picture that is to be held.
pub proof fn sound_flows_at_normal_speed_only(m: SessionModel)
    ensures
        m.audio_flows() <==> (m.core.state != PlaybackState::Paused && m.core.state
            != PlaybackState::Ended && !m.core.pause_after_seek && m.core.playback_rate.hundredths
            == 100 && m.core.sink is Some),
{
}

/// What the sink took is counted, and leaves the queue once all of it was taken; the
/// rest waits at the front.
pub proof fn taken_sound_is_counted(m: SessionModel, written: u32)
    requires
        m.audio.len() > 0,
        m.audio[0].submitted_frames + written <= m.audio[0].frame.frame_count,
        m.core.audio.submitted_frames + written <= u64::MAX,
    ensures
        ({
            let s = m.audio_taken(written);
            let front = m.audio[0];
            let whole = front.submitted_frames + written == front.frame.frame_count;
            &&& s.core.audio.submitted_frames == m.core.audio.submitted_frames + written
            &&& s.core.audio.clock_anchor_pts == m.core.audio.clock_anchor_pts
            &&& (whole ==> s.audio == m.audio.skip(1))
            &&& (!whole ==> s.audio.len() == m.audio.len() && s.audio[0].frame == front.frame
                && s.audio[0].submitted_frames == front.submitted_frames + written && s.audio.skip(
                1,
            ) == m.audio.skip(1))
            &&& s.video == m.video
            &&& s.core.state == m.core.state
        }),
{
    reveal(SessionModel::audio_taken);
    assert(m.audio.drop_first() =~= m.audio.skip(1));
    let s = m.audio_taken(written);
    if m.audio[0].submitted_frames + written != m.audio[0].frame.frame_count {
        assert(s.audio.skip(1) =~= m.audio.skip(1));
    }
}

/// A round of sound is dated by its first sample: the time stamp of the stretch and
/// what was taken of it before. Later stretches do not change the date.
pub proof fn round_is_dated_by_its_first_sample(m: SessionModel, batch: AudioBatch)
    requires
        m.audio.len() > 0,
        m.audio[0].frame.format.sample_rate > 0,
    ensures
        ({
            let after = m.batch_after(batch);
            let front = m.audio[0];
            let rate = front.frame.format.sample_rate;
            &&& after.wrote_any
            &&& (batch.first_written_pts is Some ==> after.first_written_pts
                == batch.first_written_pts)
            &&& (batch.first_written_pts is None ==> after.first_written_pts is Some)
            &&& (batch.first_written_pts is None && front.submitted_frames == 0
                && front.frame.pts@ <= MAX_NANOS ==> after.first_written_pts == Some(
                front.frame.pts,
            ))
            &&& (batch.first_written_pts is None && front.frame.pts@ + 4_294_967_296_000_000_000
                <= MAX_NANOS ==> ({
                let off = (after.first_written_pts.unwrap()@ - front.frame.pts@) * rate
                    - front.submitted_frames * 1_000_000_000;
                -(rate as int) <= 2 * off <= rate
            }))
        }),
{
    let front = m.audio[0];
    let rate = front.frame.format.sample_rate as int;
    let frames = front.submitted_frames as int;
    let span = frames_span(frames, front.frame.format.sample_rate);
    span_is_nearest(frames, front.frame.format.sample_rate);
    assert(span <= 4_294_967_296_000_000_000) by (nonlinear_arith)
        requires
            2 * (span * rate - frames * 1_000_000_000) <= rate,
            rate >= 1,
            0 <= frames <= 4_294_967_295,
    ;
    if frames == 0 {
        assert(span == 0) by (nonlinear_arith)
            requires
                -rate <= 2 * (span * rate - frames * 1_000_000_000) <= rate,
                frames == 0,
                rate >= 1,
                span >= 0,
        ;
    }
}

/// The clock follows the sound from the moment that the sink plays it: it is anchored
/// at the first sample of the round, and the pace of the pictures is given up.
pub proof fn clock_is_anchored_when_sound_plays(m: SessionModel, batch: AudioBatch)
    ensures
        ({
            let s = m.anchored(batch);
            let begins = batch.wrote_any && m.core.audio.clock_anchor_pts is None && (
            m.core.sink matches Some(k) && k.started);
            &&& (begins ==> s.core.audio.clock_anchor_pts == batch.first_written_pts)
            &&& (begins ==> s.core.video_clock is None)
            &&& (!begins ==> s == m)
            &&& s.core.audio.submitted_frames == m.core.audio.submitted_frames
            &&& s.core.state == m.core.state
            &&& s.video == m.video
            &&& s.audio == m.audio
        }),
{
    reveal(SessionModel::anchored);
}

/// When sound runs dry in the middle of playback, the clock goes on from where it
/// was, now at the pace of the pictures, and the gap is counted.
pub proof fn clock_goes_on_through_a_gap_in_the_sound(m: SessionModel, now: Instant, buffered: u32)
    requires
        m.core.audio_stream_expected,
        m.core.state != PlaybackState::Paused,
        m.core.sink matches Some(k) && k.started,
        m.audio.len() == 0,
        buffered == 0,
        !(runs(m) && m.core.video_stream_ended && m.video.len() == 0
            && m.core.audio_stream_ended),
        m.core.video_clock is None,
        m.core.paused_clock_position is None,
        m.core.metrics.audio_underruns < u64::MAX,
    ensures
        ({
            let s = m.underrun_bridged(now, buffered);
            &&& s.core.audio.clock_anchor_pts is None
            &&& s.core.audio.submitted_frames == 0
            &&& s.core.metrics.audio_underruns == m.core.metrics.audio_underruns + 1
            &&& (m.master(now, buffered) matches Some(p) ==> p@ <= MAX_NANOS ==> s.master(
                now,
                buffered,
            ) == Some(p))
            &&& s.core.state == m.core.state
            &&& s.video == m.video
        }),
{
    reveal(SessionModel::underrun_bridged);
    let r = m.core.playback_rate.hundredths;
    assert(0int * r / 100 == 0) by (nonlinear_arith);
}

/// While sound is queued or still in the device, there is no gap.
pub proof fn sound_that_waits_is_no_gap(m: SessionModel, now: Instant, buffered: u32)
    requires
        m.audio.len() > 0 || buffered > 0 || !m.core.audio_stream_expected || m.core.state
            == PlaybackState::Paused || !(m.core.sink matches Some(k) && k.started),
    ensures
        m.underrun_bridged(now, buffered) == m,
{
    reveal(SessionModel::underrun_bridged);
}

/// The sink is paused once the last sound was heard, and not before.
pub proof fn sink_rests_after_the_last_sound(m: SessionModel, buffered: u32)
    ensures
        ({
            let s = m.drained_sink_paused(buffered);
            let heard = m.core.audio_stream_expected && m.core.audio_stream_ended && m.audio.len()
                == 0 && buffered == 0 && (m.core.state == PlaybackState::Playing || m.core.state
                == PlaybackState::Draining);
            let plays = m.core.sink matches Some(k) && k.started;
            &&& (heard && plays ==> s.actions == m.actions.push(SessionAction::PauseAudioSink))
            &&& (heard ==> !(s.core.sink matches Some(k) && k.started))
            &&& (!(heard && plays) ==> s == m)
            &&& s.core.state == m.core.state
        }),
{
    reveal(SessionModel::drained_sink_paused);
    reveal(SessionModel::sink_paused);
}

/// Sound that plays begins playback; while none plays, it stays as it is.
pub proof fn playing_sound_begins_playback(m: SessionModel)
    ensures
        m.playing_on_anchor().core.state == (if m.core.state == PlaybackState::Priming
            && m.core.audio_stream_expected && m.core.audio.clock_anchor_pts is Some {
            PlaybackState::Playing
        } else {
            m.core.state
        }),
        m.playing_on_anchor().video == m.video,
        m.playing_on_anchor().actions == m.actions,
{
    reveal(SessionModel::playing_on_anchor);
}

/// A picture that is shown is remembered with its position and counted; the gap to
/// the one before it, if plausible, is the frame interval. It frees the picture that
/// was shown before it. Playback runs from then on unless sound is awaited, or the
/// picture was to be held: then it is paused at the target of its seek.
pub proof fn shown_picture_is_remembered(
    m: SessionModel,
    frame: DecodedVideoFrame,
    previous: Option<u64>,
    now: Instant,
)
    requires
        m.core.metrics.presented_video_frames < u64::MAX,
    ensures
        ({
            let s = m.presented(frame, SurfaceSelection::Selected(previous), now);
            let position = m.media_time(frame.pts);
            let last = m.core.last_presented_media_position;
            let paced = m.core.video_clock is None && m.core.audio.clock_anchor_pts is None;
            &&& s.core.last_presented_media_position == Some(position)
            &&& s.core.metrics.presented_video_frames == m.core.metrics.presented_video_frames + 1
            &&& s.core.present_needed
            &&& !s.core.pause_after_seek
            &&& (last matches Some(p) ==> 0 < position@ - p@ <= 250_000_000
                ==> (s.core.observed_frame_interval matches Some(gap) && gap@ == position@ - p@))
            &&& (last matches Some(p) ==> !(0 < position@ - p@ <= 250_000_000)
                ==> s.core.observed_frame_interval == m.core.observed_frame_interval)
            &&& (last is None ==> s.core.observed_frame_interval
                == m.core.observed_frame_interval)
            &&& s.actions == (if previous is Some && previous != Some(frame.surface) {
                m.actions.push(SessionAction::ReleaseSurface(previous.unwrap()))
            } else {
                m.actions
            })
            &&& (paced ==> (s.core.video_clock matches Some(clock) && clock.base == position
                && clock.started == now && clock.rate == m.core.playback_rate))
            &&& (!paced ==> s.core.video_clock == m.core.video_clock)
            &&& (m.core.pause_after_seek ==> s.core.state == PlaybackState::Paused)
            &&& (m.core.pause_after_seek ==> (m.core.pending_seek_target matches Some(t)
                ==> s.core.paused_clock_position == Some(t.position)))
            &&& (!m.core.pause_after_seek ==> s.core.paused_clock_position
                == m.core.paused_clock_position)
            &&& (!m.core.pause_after_seek && (!m.core.audio_stream_expected
                || m.core.audio.clock_anchor_pts is Some) ==> s.core.state
                == PlaybackState::Playing)
            &&& (!m.core.pause_after_seek && m.core.audio_stream_expected
                && m.core.audio.clock_anchor_pts is None ==> s.core.state == m.core.state)
            &&& (m.core.metrics.pending_seek_settled
                ==> s.core.seek_frame_presented_since_request)
            &&& s.core.pending_seek_target == m.core.pending_seek_target
            &&& s.video == m.video
            &&& s.audio == m.audio
        }),
{
    reveal(SessionModel::presented);
    reveal(SessionCore::after_shown);
}

/// A picture whose pixels are not its own is not shown: it is counted as dropped, and
/// its pixels are freed.
pub proof fn foreign_pixels_are_not_shown(m: SessionModel, frame: DecodedVideoFrame, now: Instant)
    requires
        m.core.metrics.dropped_video_frames < u64::MAX,
        m.core.drop_buckets.surface_mismatch < u64::MAX,
    ensures
        ({
            let s = m.presented(frame, SurfaceSelection::Mismatch, now);
            &&& s.actions == m.actions.push(SessionAction::ReleaseSurface(frame.surface))
            &&& s.core.metrics.dropped_video_frames == m.core.metrics.dropped_video_frames + 1
            &&& s.core.drop_buckets.surface_mismatch == m.core.drop_buckets.surface_mismatch + 1
            &&& s.core.drop_buckets.scheduler_late == m.core.drop_buckets.scheduler_late
            &&& s.core.drop_buckets.queue_overflow == m.core.drop_buckets.queue_overflow
            &&& s.core.last_presented_media_position == m.core.last_presented_media_position
            &&& s.core.metrics.presented_video_frames == m.core.metrics.presented_video_frames
            &&& s.core.state == m.core.state
            &&& s.core.present_needed == m.core.present_needed
            &&& s.core.pause_after_seek == m.core.pause_after_seek
        }),
{
    reveal(SessionModel::presented);
    reveal(SessionModel::frame_dropped);
}

/// A seek is over once its picture was shown and, where sound is expected, its sound
/// plays; until then its target is kept.
pub proof fn seek_is_over_when_seen_and_heard(m: SessionModel, devices: DeviceView)
    requires
        has_media(m),
        !runs(m) || m.video.len() > 0,
    ensures
        ({
            let s = m.tick_finished(devices);
            let there = m.core.metrics.pending_seek_settled
                && m.core.seek_frame_presented_since_request && (!m.core.audio_stream_expected
                || m.core.audio.clock_anchor_pts is Some);
            &&& s.core.pending_seek_target == (if there {
                None
            } else {
                m.core.pending_seek_target
            })
            &&& s.core.metrics.pending_seek_settled == (m.core.metrics.pending_seek_settled
                && !there)
            &&& s.core.state == m.core.state
        }),
{
    reveal(SessionModel::tick_finished);
    reveal(SessionCore::reminders_dropped);
}

/// The picture is drawn when something changed, and captured when a screenshot is
/// wanted, which is taken once. A tick with nothing to draw lets the program rest.
pub proof fn picture_is_drawn_when_something_changed(m: SessionModel)
    ensures
        (m.present_plan() == PresentPlan::RenderWithCapture) <==> m.core.screenshot_pending,
        (m.present_plan() == PresentPlan::Render) <==> m.core.present_needed
            && !m.core.screenshot_pending,
        !m.present_planned().core.screenshot_pending,
        m.present_planned().core.present_needed == m.core.present_needed,
        m.present_planned().core.idle_pace_requested == (m.core.idle_pace_requested || (
        !m.core.screenshot_pending && !m.core.present_needed)),
{
    reveal(SessionModel::present_planned);
}

/// A picture that was drawn, or that nobody can see, need not be drawn again; a lost
/// device is built anew.
pub proof fn drawn_picture_is_settled(m: SessionModel)
    ensures
        !m.present_done(PresentResult::Shown).core.present_needed,
        !m.present_done(PresentResult::Occluded).core.present_needed,
        m.present_done(PresentResult::Shown).core.state == m.core.state,
        m.source is Some ==> m.present_done(PresentResult::DeviceLost).actions.last()
            == SessionAction::RebuildDevice,
        m.present_done(PresentResult::DeviceLost).core.present_needed == m.core.present_needed,
{
    reveal(SessionModel::present_done);
    reveal(SessionModel::device_lost);
    reveal(SessionModel::torn_down);
}

/// Subtitles go by the target of a seek that is under way; after it they wait there
/// until the clock is within a second of it, and then follow the clock.
pub proof fn subtitles_wait_at_the_target(
    m: SessionModel,
    clock: Duration,
    now: Instant,
    buffered: u32,
)
    requires
        m.master(now, buffered) == Some(clock),
        clock@ + 1_000_000_000 <= MAX_NANOS,
    ensures
        ({
            let at = m.subtitle_at(now, buffered);
            let s = m.subtitle_clock_checked(now, buffered);
            let base = m.core.overlay.subtitle_clock_base;
            let waits = base is Some && base.unwrap()@ > clock@ + 1_000_000_000;
            &&& (m.core.pending_seek_target matches Some(t) ==> at == t.position && s == m)
            &&& (m.core.pending_seek_target is None && waits ==> at == base.unwrap() && s == m)
            &&& (m.core.pending_seek_target is None && !waits ==> at == clock
                && s.core.overlay.subtitle_clock_base is None)
        }),
{
    reveal(SessionModel::subtitle_clock_checked);
}

/// Before the session goes, its worker has left, nothing is queued, all pixels are
/// freed and the sink is silent.
pub proof fn shutdown_lets_everything_go(m: SessionModel)
    ensures
        ({
            let s = m.shut_down();
            let k = m.actions.len() as int;
            &&& s.video.len() == 0
            &&& s.audio.len() == 0
            &&& s.core.sink is None
            &&& s.core.decode_thread.control is None
            &&& s.actions[k] == (SessionAction::StopDecoder {
                control: m.core.decode_thread.control,
                wait: true,
            })
            &&& (forall|i: int|
                0 <= i < m.video.len() ==> #[trigger] s.actions[k + 1 + i]
                    == SessionAction::ReleaseSurface(m.video[i].surface))
            &&& (m.core.sink is Some ==> s.actions[s.actions.len() - 2]
                == SessionAction::PauseAudioSink)
            &&& s.actions.last() == SessionAction::PrepareForShutdown
        }),
{
    reveal(SessionModel::shut_down);
    reveal(SessionModel::torn_down);
    reveal(SessionModel::video_cleared);
    crate::session_tick::sink_is_released(m.torn_down(true).video_cleared());
}

/// Sound that is over because all was played is no gap, and a clock of the pictures
/// that runs already goes on through one.
pub proof fn played_out_sound_is_no_gap(m: SessionModel, now: Instant, buffered: u32)
    ensures
        runs(m) && m.core.video_stream_ended && m.video.len() == 0 && m.core.audio_stream_ended
            ==> m.underrun_bridged(now, buffered) == m,
        m.core.video_clock is Some ==> m.underrun_bridged(now, buffered).core.video_clock
            == m.core.video_clock,
        m.underrun_bridged(now, buffered).actions == m.actions,
        m.underrun_bridged(now, buffered).core.sink == m.core.sink,
        m.underrun_bridged(now, buffered).core.playback_rate == m.core.playback_rate,
{
    reveal(SessionModel::underrun_bridged);
}

/// Stopping at the out point frees every picture that is still queued, and forgets
/// the queued sound.
pub proof fn stop_frees_the_queued_pictures(m: SessionModel, position: Duration, k: int)
    requires
        0 <= k < m.video.len(),
    ensures
        m.stopped_at(position).actions.contains(SessionAction::ReleaseSurface(m.video[k].surface)),
        m.stopped_at(position).video.len() == 0,
        m.stopped_at(position).audio.len() == 0,
{
    reveal(SessionModel::stopped_at);
    reveal(SessionModel::video_cleared);
    reveal(SessionModel::sink_paused);
    let s = m.stopped_at(position);
    assert(s.actions[m.actions.len() + k] == SessionAction::ReleaseSurface(m.video[k].surface));
}

/// A sink that is built anew has not failed yet, while one that stays keeps its
/// failure; a new beginning forgets the error before it.
pub proof fn new_beginning_forgets_old_failures(
    m: SessionModel,
    reset_expectation: bool,
    reset_surfaces: bool,
    now: Instant,
    buffered: u32,
    rebuild_sink: bool,
)
    ensures
        m.prepared(true, reset_expectation, reset_surfaces).sink_error is None,
        m.prepared(false, reset_expectation, reset_surfaces).sink_error == m.sink_error,
        m.restarted(now, buffered, rebuild_sink).last_error is None,
        m.restarted(now, buffered, true).sink_error is None,
        m.restarted(now, buffered, false).sink_error == m.sink_error,
{
    reveal(SessionModel::prepared);
    reveal(SessionModel::restarted);
    reveal(SessionModel::begun);
    reveal(SessionModel::next_seek);
    reveal(SessionModel::torn_down);
    reveal(SessionModel::spawned);
}

/// A volume display that could not be removed stays until it can be; one that was
/// removed is presented again where that changed the picture.
pub proof fn volume_stays_until_it_is_removed(
    m: SessionModel,
    until: Instant,
    now: Instant,
    changed: bool,
    error: String,
)
    requires
        m.core.overlay.volume_overlay_until == Some(until),
    ensures
        m.volume_checked(now, Err(error)) == m,
        now@ <= until@ ==> m.volume_checked(now, Ok(changed)) == m,
        now@ > until@ ==> {
            let s = m.volume_checked(now, Ok(changed));
            &&& s.core.overlay.volume_overlay_until is None
            &&& s.core.present_needed == (m.core.present_needed || changed)
        },
{
    reveal(SessionModel::volume_checked);
}

/// The first picture starts the clock at its own position, at the chosen rate; a
/// clock that runs already, be it that of the sound, is left alone.
pub proof fn first_picture_starts_the_clock(
    m: SessionModel,
    frame: DecodedVideoFrame,
    previous: Option<u64>,
    now: Instant,
)
    ensures
        ({
            let s = m.presented(frame, SurfaceSelection::Selected(previous), now);
            &&& (m.core.video_clock is None && m.core.audio.clock_anchor_pts is None ==> (
            s.core.video_clock matches Some(c) && c.started == now && c.base == m.media_time(
                frame.pts,
            ) && c.rate == m.core.playback_rate))
            &&& (m.core.video_clock is Some || m.core.audio.clock_anchor_pts is Some
                ==> s.core.video_clock == m.core.video_clock)
            &&& s.core.audio == m.core.audio
        }),
{
    reveal(SessionModel::presented);
    reveal(SessionCore::after_shown);
}

} // verus!
