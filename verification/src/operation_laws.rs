//! Which reports count, what an operation asks of the devices, and how a tick goes
//! through its stages.
use vstd::prelude::*;
use crate::clip_range::range_reaches_from_in_to_out;
use crate::commands::SessionCommand;
use crate::decode_thread::DecodeThreadHandle;
use crate::drop_stats::VideoDropCause;
use crate::events::SessionEvent;
use crate::generations::{OpenGeneration, OperationId, SeekGeneration};
use crate::media::{PositionKind, SeekTarget, VideoDecodePreference};
use crate::overlay::Size;
use crate::session_model::{
    DeviceView, SessionAction, SessionCore, SessionModel, SinkCall, VideoStep,
};
use crate::session_tick::TickStage;
use crate::state::PlaybackState;
use crate::time::{Duration, Instant};
use crate::transport_laws::{has_media, runs, seek_asks_for_its_target, shows, works_for};

verus! {

/// The stamps that a report carries: of the open, of the seek where it has one, and of
/// the operation.
pub open spec fn stamps_of(event: SessionEvent) -> (
    OpenGeneration,
    Option<SeekGeneration>,
    OperationId,
) {
    match event {
        SessionEvent::DecodeModeSelected { open_gen, seek_gen, op_id, .. } => (
            open_gen,
            Some(seek_gen),
            op_id,
        ),
        SessionEvent::MediaDurationKnown { open_gen, seek_gen, op_id, .. } => (
            open_gen,
            Some(seek_gen),
            op_id,
        ),
        SessionEvent::PresentationPathSelected { open_gen, seek_gen, op_id, .. } => (
            open_gen,
            Some(seek_gen),
            op_id,
        ),
        SessionEvent::HdrMetadataKnown { open_gen, seek_gen, op_id, .. } => (
            open_gen,
            Some(seek_gen),
            op_id,
        ),
        SessionEvent::VideoFrameReady(f) => (f.open_gen, Some(f.seek_gen), f.op_id),
        SessionEvent::AudioFrameReady(f) => (f.open_gen, Some(f.seek_gen), f.op_id),
        SessionEvent::VideoStreamEnded { open_gen, seek_gen, op_id } => (
            open_gen,
            Some(seek_gen),
            op_id,
        ),
        SessionEvent::NoVideoStream { open_gen, op_id } => (open_gen, None, op_id),
        SessionEvent::AudioStreamEnded { open_gen, seek_gen, op_id } => (
            open_gen,
            Some(seek_gen),
            op_id,
        ),
        SessionEvent::OpenFailed { open_gen, op_id, .. } => (open_gen, None, op_id),
        SessionEvent::PlaybackFailed { open_gen, seek_gen, op_id, .. } => (
            open_gen,
            Some(seek_gen),
            op_id,
        ),
        SessionEvent::DeviceLost { open_gen, seek_gen, op_id } => (
            open_gen,
            Some(seek_gen),
            op_id,
        ),
        SessionEvent::AudioEndpointChanged { open_gen, seek_gen, op_id } => (
            open_gen,
            Some(seek_gen),
            op_id,
        ),
    }
}

/// A report counts just when it carries the stamps of the current open and operation,
/// and of the current seek unless it is about the open as a whole.
pub proof fn report_counts_by_its_stamps(m: SessionModel, event: SessionEvent)
    ensures
        ({
            let (open_gen, seek_gen, op_id) = stamps_of(event);
            m.concerns(event) <==> open_gen == m.core.generations.open
                && m.core.active_operation_id == Some(op_id) && (seek_gen is None || seek_gen
                == Some(m.core.generations.seek))
        }),
        m.is_current(
            m.core.generations.open,
            m.core.generations.seek,
            m.core.active_operation_id.unwrap(),
        ) <==> m.core.active_operation_id is Some,
{
}

/// What a decoder reports for the work that it was asked for last counts.
pub proof fn reports_of_the_asked_decoder_count(m: SessionModel, event: SessionEvent)
    requires
        m.actions.len() > 0,
        works_for(m.actions.last(), m),
        m.actions.last() matches SessionAction::SpawnDecoder { open_gen, seek_gen, op_id, .. }
            && stamps_of(event) == (open_gen, Some(seek_gen), op_id),
    ensures
        m.concerns(event),
{
    report_counts_by_its_stamps(m, event);
}

/// A seek frees every picture that waits, takes a shown subtitle down, and silences the
/// sink: paused where the picture is to be held, emptied otherwise. The running decoder
/// serves it if it can; otherwise that is let go and another one is started.
pub proof fn seek_prepares_the_devices(m: SessionModel, target: Duration)
    requires
        has_media(m),
    ensures
        ({
            let s = m.sought(SeekTarget { position: target });
            let k = m.actions.len() as int;
            let n = m.video.len() as int;
            let serves = m.core.decode_thread.control is Some && m.core.decode_thread.preference
                == Some(m.core.decode_preference) && m.core.decode_thread.active_worker_count > 0;
            &&& (forall|i: int|
                0 <= i < n ==> #[trigger] s.actions[k + i] == SessionAction::ReleaseSurface(
                    m.video[i].surface,
                ))
            &&& s.actions[k + n] == SessionAction::ClearSubtitleOverlay
            &&& (m.core.sink is Some && m.core.pause_after_seek ==> s.actions[k + n + 1]
                == SessionAction::PauseAudioSink)
            &&& (m.core.sink is Some && !m.core.pause_after_seek ==> s.actions[k + n + 1]
                == SessionAction::ResetAudioSink)
            &&& (s.actions.last() is SeekDecoder <==> serves)
            &&& (serves ==> s.core.decode_thread == m.core.decode_thread)
            &&& (!serves ==> s.actions.last() is SpawnDecoder && s.actions[s.actions.len() - 2]
                == (SessionAction::StopDecoder {
                control: m.core.decode_thread.control,
                wait: false,
            }))
            &&& s.core.overlay.subtitle_clock_base == Some(
                s.core.pending_seek_target.unwrap().position,
            )
            &&& s.core.overlay.active_subtitle_cue is None
        }),
{
    reveal(SessionModel::sought);
    reveal(SessionModel::seek_executed);
    reveal(SessionModel::next_seek);
    reveal(SessionModel::prepared);
    reveal(SessionModel::torn_down);
    reveal(SessionModel::spawned);
    reveal(SessionCore::prepared);
    reveal(SessionCore::seek_pending);
}

/// A worker that is started takes commands under its own name and preference and is
/// counted; one that left is counted out; one that was let go takes none.
pub proof fn workers_are_counted(
    h: DecodeThreadHandle,
    control: u64,
    preference: VideoDecodePreference,
)
    requires
        h.active_worker_count < u32::MAX,
    ensures
        h.spawned(control, preference).control == Some(control),
        h.spawned(control, preference).preference == Some(preference),
        h.spawned(control, preference).active_worker_count == h.active_worker_count + 1,
        h.spawned(control, preference).left().active_worker_count == h.active_worker_count,
        h.spawned(control, preference).left().control == Some(control),
        h.serving(preference) <==> h.control is Some && h.preference == Some(preference)
            && h.active_worker_count > 0,
        DecodeThreadHandle::idle(h.active_worker_count).control is None,
        DecodeThreadHandle::idle(h.active_worker_count).active_worker_count
            == h.active_worker_count,
{
}

/// A session begins with nothing open, nothing queued and nothing asked for, at normal
/// speed.
pub proof fn session_begins_empty(video_capacity: usize, audio_capacity: usize)
    ensures
        ({
            let m = SessionModel::initial(video_capacity, audio_capacity);
            &&& m.core.state == PlaybackState::Idle
            &&& m.source is None
            &&& m.core.active_operation_id is None
            &&& m.video.len() == 0
            &&& m.audio.len() == 0
            &&& m.actions.len() == 0
            &&& m.video_capacity == video_capacity
            &&& m.audio_capacity == audio_capacity
            &&& m.core.sink is None
            &&& m.core.pending_seek_target is None
            &&& m.core.playback_rate.hundredths == 100
            &&& m.core.clip_range.in_point is None
            &&& m.core.clip_range.out_point is None
            &&& !m.core.clip_range.loop_range
            &&& !m.core.clip_range.auto_replay
            &&& m.core.present_needed
            &&& !m.core.has_shown_content
            &&& m.last_error is None
        }),
{
}

/// A command that needs the sink asks it first, and fails where the sink does not obey:
/// the pause key and, while playback runs, a single step.
pub proof fn commands_ask_the_sink_first(
    m: SessionModel,
    now: Instant,
    devices: DeviceView,
)
    requires
        m.source is Some,
        runs(m),
        m.core.state == PlaybackState::Priming ==> m.core.pending_seek_target is None,
    ensures
        ({
            let sounds = m.core.sink matches Some(k) && k.started;
            let b = devices.buffered_frames;
            let call = if sounds {
                SinkCall::Pause
            } else {
                SinkCall::Nothing
            };
            &&& m.sink_call(SessionCommand::TogglePause, now, b) == call
            &&& m.sink_call(SessionCommand::StepFrameForward, now, b) == call
            &&& m.sink_call(SessionCommand::StepFrameBackward, now, b) == call
            &&& (m.is_refused(SessionCommand::TogglePause, now, devices) <==> sounds
                && !devices.sink_obeyed)
            &&& (m.is_refused(SessionCommand::StepFrameForward, now, devices) <==> sounds
                && !devices.sink_obeyed)
        }),
{
}

/// With playback paused or ended a single step asks nothing of the sink.
pub proof fn step_in_a_pause_asks_nothing(m: SessionModel, now: Instant, buffered: u32)
    requires
        m.core.state == PlaybackState::Paused || m.core.state == PlaybackState::Ended,
    ensures
        m.sink_call(SessionCommand::StepFrameForward, now, buffered) == SinkCall::Nothing,
        m.sink_call(SessionCommand::StepFrameBackward, now, buffered) == SinkCall::Nothing,
{
}

/// With sound as the master, a picture that the clock has come to, by no more than four
/// tenths of a second, is not kept waiting.
pub proof fn due_picture_is_taken_with_sound(
    m: SessionModel,
    clock: Duration,
    now: Instant,
    buffered: u32,
)
    requires
        m.core.state != PlaybackState::Paused,
        m.core.state != PlaybackState::Ended,
        m.core.audio.clock_anchor_pts is Some,
        m.master(now, buffered) == Some(clock),
        m.video.len() > 0,
        0 <= clock@ - m.media_time(m.video[0].pts)@ <= 400_000_000,
    ensures
        m.advanced(now, buffered).1 != VideoStep::Wait,
        m.video.len() == 1 && m.core.clip_range.out_point is None ==> m.advanced(now, buffered).1
            == VideoStep::Present(m.video[0]),
{
    reveal(SessionModel::advanced);
    reveal(SessionModel::caught_up);
    reveal(SessionModel::front_taken);
    overtaken_front_is_due(m, clock);
}

proof fn overtaken_front_is_due(m: SessionModel, clock: Duration)
    requires
        m.video.len() > 0,
        m.media_time(m.video[0].pts)@ <= clock@,
    ensures
        ({
            let r = m.overtaken_dropped(clock);
            &&& r.video.len() > 0
            &&& r.core.media_time_origin_pts == m.core.media_time_origin_pts
            &&& r.media_time(r.video[0].pts)@ <= clock@
        }),
    decreases m.video.len(),
{
    reveal(SessionModel::front_dropped);
    reveal(SessionModel::frame_dropped);
    if m.video.len() > 1 && m.media_time(m.video[1].pts)@ <= clock@ {
        overtaken_front_is_due(m.front_dropped(VideoDropCause::SchedulerLate), clock);
    }
}

/// A picture that the clock has not come to waits, with sound and without.
pub proof fn early_picture_waits(m: SessionModel, now: Instant, buffered: u32)
    requires
        m.video.len() == 1,
        m.core.audio.clock_anchor_pts is Some ==> (m.master(now, buffered) matches Some(clock)
            ==> clock@ < m.media_time(m.video[0].pts)@),
        m.core.audio.clock_anchor_pts is None ==> (m.core.video_clock matches Some(clock) && now@
            < clock.deadline_nanos(m.media_time(m.video[0].pts))),
    ensures
        m.advanced(now, buffered) == (m, VideoStep::Wait),
{
    reveal(SessionModel::advanced);
    reveal(SessionModel::caught_up);
}

/// No picture is shown in a pause or after the end, and nothing is dropped then.
pub proof fn paused_playback_shows_no_new_picture(m: SessionModel, now: Instant, buffered: u32)
    requires
        m.core.state == PlaybackState::Paused || m.core.state == PlaybackState::Ended,
    ensures
        m.advanced(now, buffered) == (m, VideoStep::Wait),
{
    reveal(SessionModel::advanced);
}

/// A tick takes up events while there is room for what they bring, then a new size, then
/// sound, pictures, subtitles and the volume; then it draws and takes stock. It ends
/// early where the range starts again or the device is lost.
pub proof fn tick_goes_through_its_stages(m: SessionModel)
    requires
        m.core.state != PlaybackState::Error,
    ensures
        ({
            let audio_room = m.audio.len() < m.audio_capacity;
            let video_room = m.video.len() < m.video_capacity;
            let after_audio = if video_room {
                TickStage::VideoEvent
            } else {
                TickStage::Resize
            };
            &&& m.first_stage() == (if audio_room {
                TickStage::AudioEvent
            } else {
                after_audio
            })
            &&& m.stage_after(TickStage::AudioEvent, true) == (if audio_room {
                TickStage::AudioEvent
            } else {
                after_audio
            })
            &&& m.stage_after(TickStage::AudioEvent, false) == after_audio
            &&& m.stage_after(TickStage::VideoEvent, true) == after_audio
            &&& m.stage_after(TickStage::VideoEvent, false) == TickStage::Resize
            &&& m.stage_after(TickStage::Resize, true) == TickStage::Audio
            &&& m.stage_after(TickStage::Audio, true) == TickStage::Video
            &&& m.stage_after(TickStage::Video, true) == TickStage::Subtitle
            &&& m.stage_after(TickStage::Video, false) == TickStage::Over
            &&& m.stage_after(TickStage::Subtitle, true) == TickStage::Volume
            &&& m.stage_after(TickStage::Volume, true) == TickStage::Present
            &&& m.stage_after(TickStage::Present, true) == TickStage::Finish
            &&& m.stage_after(TickStage::Present, false) == TickStage::Over
            &&& m.stage_after(TickStage::Finish, true) == TickStage::Over
        }),
{
}

/// A tick begins with nothing cached; sound that waits is dropped where the rate is not
/// the normal one, and kept otherwise.
pub proof fn tick_begins_afresh(m: SessionModel)
    requires
        m.core.state != PlaybackState::Error,
    ensures
        ({
            let s = m.tick_begun();
            &&& s.core.tick_active
            &&& s.core.cached_buffered_frames is None
            &&& !s.core.idle_pace_requested
            &&& (m.core.playback_rate.hundredths == 100 ==> s.audio == m.audio)
            &&& (m.core.playback_rate.hundredths != 100 ==> s.audio.len() == 0)
            &&& s.video == m.video
            &&& s.core.state == m.core.state
            &&& s.actions == m.actions
        }),
{
    reveal(SessionModel::tick_begun);
}

/// Subtitles: a new cue is shown and the picture drawn again; a cue that is over is taken
/// down; nothing happens while neither the cue nor the view changed.
pub proof fn subtitle_follows_its_cue(m: SessionModel, view: Size, cue: Option<usize>)
    requires
        view.width > 0,
        view.height > 0,
        m.core.overlay.subtitle_loaded,
        m.core.overlay.subtitles_enabled,
    ensures
        ({
            let s = m.subtitle_shown(view, cue, true);
            let same = m.core.overlay.active_subtitle_cue == cue
                && m.core.overlay.active_subtitle_viewport == Some(view);
            &&& s.core.overlay.active_subtitle_cue == cue
            &&& s.core.overlay.active_subtitle_viewport == Some(view)
            &&& (!same ==> s.core.present_needed)
            &&& (same ==> s == m)
            &&& s.core.state == m.core.state
            &&& s.actions == m.actions
        }),
        cue matches Some(_) ==> ({
            let failed = m.subtitle_shown(view, cue, false);
            failed.core.overlay == m.core.overlay
        }),
{
    reveal(SessionModel::subtitle_shown);
}

/// With subtitles off no cue stays: one that is shown goes, and the picture is drawn
/// again for that.
pub proof fn no_cue_stays_with_subtitles_off(m: SessionModel, view: Size, cue: Option<usize>)
    requires
        !m.core.overlay.subtitle_loaded || !m.core.overlay.subtitles_enabled,
    ensures
        ({
            let s = m.subtitle_shown(view, cue, true);
            &&& s.core.overlay.active_subtitle_cue is None
            &&& (m.core.overlay.active_subtitle_cue is Some ==> s.core.present_needed)
            &&& (m.core.overlay.active_subtitle_cue is None ==> s.core.present_needed
                == m.core.present_needed)
        }),
{
    reveal(SessionModel::subtitle_shown);
}

/// The volume is taken down once its time is over, and not before.
pub proof fn volume_goes_when_its_time_is_over(m: SessionModel, now: Instant, changed: bool)
    ensures
        ({
            let s = m.volume_checked(now, Ok::<bool, String>(changed));
            let until = m.core.overlay.volume_overlay_until;
            let over = until is Some && now@ > until.unwrap()@;
            &&& (over ==> s.core.overlay.volume_overlay_until is None)
            &&& (over && changed ==> s.core.present_needed)
            &&& (!over ==> s == m)
            &&& s.core.state == m.core.state
        }),
{
    reveal(SessionModel::volume_checked);
}

/// Pressed again while a seek is under way, the pause key seeks once more and plays
/// on: from the target, or from the start of the marked range where the target lies
/// outside it.
pub proof fn second_press_plays_the_seek_on(
    m: SessionModel,
    position: Duration,
    now: Instant,
    devices: DeviceView,
)
    requires
        has_media(m),
        m.core.state == PlaybackState::Seeking || m.core.state == PlaybackState::Priming,
        m.core.pause_after_seek,
        m.core.pending_seek_target == Some(SeekTarget { position }),
    ensures
        ({
            let s = m.commanded(SessionCommand::TogglePause, now, devices);
            let landing = s.core.pending_seek_target;
            let range = m.core.clip_range;
            let inside = !(range.in_point matches Some(i) && position@ < i@) && !(
            range.out_point matches Some(o) && position@ >= o@);
            let target = if inside {
                position@
            } else {
                match range.in_point {
                    Some(i) => i@,
                    None => 0,
                }
            };
            &&& !s.core.pause_after_seek
            &&& s.core.state == PlaybackState::Seeking
            &&& landing is Some
            &&& landing.unwrap().position@ == (match m.core.media_duration {
                Some(end) if target > end@ => end@,
                _ => target,
            })
            &&& works_for(s.actions.last(), s)
        }),
{
    let again = m.with(SessionCore { pause_after_seek: false, ..m.core });
    let to = match m.core.clip_range.resumed(position) {
        Some(t) => t,
        None => position,
    };
    assert(m.commanded(SessionCommand::TogglePause, now, devices) == again.sought(
        SeekTarget { position: to },
    )) by {
        reveal(SessionModel::commanded);
        reveal(SessionModel::pause_toggled);
        reveal(SessionModel::pending_seek_pause_toggled);
        assert(m.shown(now, devices.buffered_frames).position == position);
    }
    range_reaches_from_in_to_out(m.core.clip_range, position);
    seek_asks_for_its_target(again, to);
}

/// While a seek is under way the pause key asks the sink to pause only if the seek is
/// not held already. In a pause it asks the sink to go on where sound is left to play
/// and the position lies in the marked range. Where nothing plays it asks nothing.
pub proof fn pause_key_asks_the_sink_for_what_it_does(
    m: SessionModel,
    position: Duration,
    now: Instant,
    buffered: u32,
)
    requires
        shows(m, position, now, buffered),
    ensures
        ({
            let call = m.sink_call(SessionCommand::TogglePause, now, buffered);
            let sounds = m.core.sink matches Some(k) && k.started;
            let range = m.core.clip_range;
            let inside = !(range.in_point matches Some(i) && position@ < i@) && !(
            range.out_point matches Some(o) && position@ >= o@);
            let over = m.core.video_stream_ended && m.video.len() == 0 && (
            m.core.audio_stream_expected ==> m.core.audio_stream_ended && m.audio.len() == 0);
            let seeks = m.core.state == PlaybackState::Seeking || (m.core.state
                == PlaybackState::Priming && m.core.pending_seek_target is Some);
            &&& (seeks ==> (call == SinkCall::Pause <==> sounds && !m.core.pause_after_seek))
            &&& (seeks ==> call != SinkCall::Resume)
            &&& (m.core.state == PlaybackState::Paused ==> call != SinkCall::Pause)
            &&& (m.core.state == PlaybackState::Paused ==> (call == SinkCall::Resume
                <==> m.core.sink is Some && m.core.audio.clock_anchor_pts is Some && inside
                && !over))
            &&& (m.core.state == PlaybackState::Idle || m.core.state == PlaybackState::Opening
                || m.core.state == PlaybackState::Ended || m.core.state == PlaybackState::Error
                ==> call == SinkCall::Nothing)
            &&& m.sink_call(SessionCommand::Seek(SeekTarget { position }), now, buffered)
                == SinkCall::Nothing
        }),
{
    range_reaches_from_in_to_out(m.core.clip_range, position);
    assert(m.shown(now, buffered).position == position);
}

/// The position that is shown is said to be a target while a seek is under way, and
/// that of the clock otherwise; with no clock it is the start.
pub proof fn shown_position_says_what_it_is(m: SessionModel, now: Instant, buffered: u32)
    ensures
        ({
            let shown = m.shown(now, buffered);
            &&& (m.core.pending_seek_target matches Some(t) ==> shown.position == t.position
                && shown.kind == PositionKind::PendingSeekTarget)
            &&& (m.core.pending_seek_target is None ==> shown.kind
                == PositionKind::SettledPlaybackClock)
            &&& (m.core.pending_seek_target is None ==> (m.master(now, buffered) matches Some(p)
                ==> shown.position == p))
            &&& (m.core.pending_seek_target is None && m.master(now, buffered) is None
                ==> shown.position@ == 0)
        }),
{
}

} // verus!
