use fastplay::commands::SessionCommand;
use fastplay::events::{PendingVideoFrame, SessionEvent};
use fastplay::generations::{OpenGeneration, OperationId, SeekGeneration};
use fastplay::media::{
    AudioStreamFormat, DecodedAudioFrame, PositionKind, SeekTarget, VideoDecodeMode,
    VideoDecodePreference,
};
use fastplay::overlay::{Size, SubtitleStep};
use fastplay::session::PlaybackSession;
use fastplay::session_model::{
    AudioBatch, DeviceView, PresentResult, SessionAction, SinkCall, SinkRefused,
    SurfaceSelection, VideoStep,
};
use fastplay::panels::RecentRow;
use fastplay::session_tick::{plan_recent_overlay, PresentPlan, TickStage};
use fastplay::state::PlaybackState;
use fastplay::time::{Duration, Instant};
use fastplay::timeline_ui::{TimelineChange, TimelineInput, TimelineUiState};

fn at(ms: u128) -> Instant {
    Instant {
        nanos: 1_000_000_000_000 + ms * 1_000_000,
    }
}

fn ms(n: u64) -> Duration {
    Duration::from_millis(n)
}

fn no_devices() -> DeviceView {
    DeviceView {
        buffered_frames: 0,
        sink_obeyed: true,
        surface_selected: false,
        surface_size: None,
        viewport: None,
    }
}

fn shown() -> DeviceView {
    DeviceView {
        buffered_frames: 0,
        sink_obeyed: true,
        surface_selected: true,
        surface_size: Some(Size { width: 640, height: 480 }),
        viewport: Some(Size { width: 640, height: 480 }),
    }
}

/// The stamps of the operation at hand.
fn stamps(session: &PlaybackSession) -> (OpenGeneration, SeekGeneration, OperationId) {
    (
        session.core.generations.open,
        session.core.generations.seek,
        session.core.active_operation_id.unwrap(),
    )
}

fn opened(start: Option<Duration>) -> PlaybackSession {
    let mut session = PlaybackSession::new(4, 8);
    session.open_at(
        r"C:\v\clip.mp4".to_string(),
        start,
        VideoDecodePreference::Auto,
        false,
    );
    session
}

fn picture(session: &PlaybackSession, pts: u64, surface: u64) -> SessionEvent {
    let (open_gen, seek_gen, op_id) = stamps(session);
    SessionEvent::VideoFrameReady(PendingVideoFrame {
        open_gen,
        seek_gen,
        op_id,
        pts: ms(pts),
        surface,
        display_width: 640,
        display_height: 480,
    })
}

fn sound(session: &PlaybackSession, pts: u64, frames: u32) -> SessionEvent {
    let (open_gen, seek_gen, op_id) = stamps(session);
    SessionEvent::AudioFrameReady(DecodedAudioFrame {
        open_gen,
        seek_gen,
        op_id,
        pts: ms(pts),
        format: AudioStreamFormat::stereo_f32_48khz(),
        frame_count: frames,
        buffer: 1,
    })
}

/// A session that shows its first picture, without sound.
fn playing() -> PlaybackSession {
    let mut session = opened(None);
    for (i, pts) in [0u64, 40, 80].iter().enumerate() {
        let event = picture(&session, *pts, i as u64);
        session.handle_event(event, at(0), 0);
    }
    let step = session.advance_video_playback(at(0), 0);
    match step {
        VideoStep::Present(frame) => {
            session.present_video_frame(frame, SurfaceSelection::Selected(None), at(0))
        }
        other => panic!("{other:?}"),
    }
    session.take_actions();
    session
}

#[test]
fn opening_stops_the_old_worker_and_starts_another() {
    let mut session = opened(Some(ms(5_000)));
    assert_eq!(session.core.state, PlaybackState::Opening);
    let actions = session.take_actions();
    assert!(actions.iter().any(|a| matches!(
        a,
        SessionAction::SpawnDecoder { start: Some(d), .. } if *d == ms(5_000)
    )));
    assert!(session.take_actions().is_empty());
    assert_eq!(session.window_title(), "clip.mp4 - FastPlay");
}

#[test]
fn a_picture_of_another_operation_is_refused() {
    let mut session = opened(None);
    session.take_actions();
    let (open_gen, seek_gen, op_id) = stamps(&session);
    let stale = SessionEvent::VideoFrameReady(PendingVideoFrame {
        open_gen: OpenGeneration(open_gen.0 + 1),
        seek_gen,
        op_id,
        pts: ms(0),
        surface: 9,
        display_width: 1,
        display_height: 1,
    });
    assert!(!session.is_current_event(&stale));
    session.handle_event(stale, at(0), 0);
    assert_eq!(session.video_queue.len(), 0);
    let event = picture(&session, 0, 1);
    assert!(session.is_current_event(&event));
    session.handle_event(event, at(0), 0);
    assert_eq!(session.video_queue.len(), 1);
}

#[test]
fn the_queue_drops_its_oldest_picture_when_full() {
    let mut session = opened(None);
    session.take_actions();
    for i in 0..5u64 {
        let event = picture(&session, i * 40, i);
        session.handle_event(event, at(0), 0);
    }
    assert_eq!(session.video_queue.len(), 4);
    assert!(session
        .take_actions()
        .contains(&SessionAction::ReleaseSurface(0)));
    assert_eq!(session.core.metrics.dropped_video_frames, 1);
}

#[test]
fn pictures_are_shown_when_due() {
    let mut session = playing();
    assert_eq!(session.core.state, PlaybackState::Playing);
    assert_eq!(session.advance_video_playback(at(39), 0), VideoStep::Wait);
    match session.advance_video_playback(at(40), 0) {
        VideoStep::Present(frame) => assert_eq!(frame.pts, ms(40)),
        other => panic!("{other:?}"),
    }
}

#[test]
fn pausing_holds_the_clock() {
    let mut session = playing();
    session.apply_command(SessionCommand::TogglePause, at(30), shown()).unwrap();
    assert!(session.is_paused());
    assert_eq!(session.snapshot(at(30), 0), session.snapshot(at(9_000), 0));
    assert_eq!(session.advance_video_playback(at(9_000), 0), VideoStep::Wait);
    session.apply_command(SessionCommand::TogglePause, at(9_000), shown()).unwrap();
    assert!(!session.is_paused());
    assert_eq!(session.master_clock_position(at(9_010), 0), Some(ms(40)));
}

#[test]
fn a_seek_is_shown_at_once_and_outdates_events() {
    let mut session = playing();
    let stale = picture(&session, 120, 50);
    session.apply_command(
        SessionCommand::Seek(SeekTarget::new(ms(10_000))),
        at(10),
        shown(),
    ).unwrap();
    let snapshot = session.snapshot(at(10), 0);
    assert_eq!(snapshot.position, ms(10_000));
    assert_eq!(snapshot.kind, PositionKind::PendingSeekTarget);
    assert!(!session.is_current_event(&stale));
    let actions = session.take_actions();
    assert!(actions
        .iter()
        .any(|a| matches!(a, SessionAction::SeekDecoder { target, .. } if *target == ms(10_000))));
    // A picture before the target is decoded on the way and not shown.
    let early = picture(&session, 9_000, 60);
    session.handle_event(early, at(11), 0);
    assert_eq!(session.video_queue.len(), 0);
    let first = picture(&session, 10_000, 61);
    session.handle_event(first, at(12), 0);
    assert_eq!(session.video_queue.len(), 1);
}

#[test]
fn a_failure_stops_playback_and_silences_events() {
    let mut session = playing();
    let (open_gen, seek_gen, op_id) = stamps(&session);
    session.handle_event(
        SessionEvent::PlaybackFailed {
            open_gen,
            seek_gen,
            op_id,
            error: "broken".to_string(),
        },
        at(5),
        0,
    );
    assert_eq!(session.core.state, PlaybackState::Error);
    assert_eq!(session.last_error.as_deref(), Some("broken"));
    assert_eq!(session.begin_tick(), TickStage::ErrorIdle);
    assert_eq!(
        session.next_stage(TickStage::ErrorResize, true),
        TickStage::Present
    );
}

#[test]
fn sound_is_written_piece_by_piece() {
    let mut session = opened(None);
    session.audio_sink_ready(Ok(48_000));
    let event = sound(&session, 0, 4_800);
    session.handle_event(event, at(0), 0);
    assert!(session.audio_may_flow());
    let queued = session.next_audio().unwrap();
    assert_eq!(queued.submitted_frames, 0);
    let mut batch = AudioBatch {
        first_written_pts: None,
        wrote_any: false,
    };
    assert!(!session.audio_written(&mut batch, 0));
    assert!(!batch.wrote_any);
    assert!(session.audio_written(&mut batch, 1_000));
    assert!(batch.wrote_any);
    assert_eq!(batch.first_written_pts, Some(ms(0)));
    assert_eq!(session.next_audio().unwrap().submitted_frames, 1_000);
    assert!(session.audio_written(&mut batch, 3_800));
    assert!(session.next_audio().is_none());
}

#[test]
fn rates_step_through_the_table_and_back() {
    let mut session = playing();
    session.apply_command(SessionCommand::StepPlaybackRate(1), at(1), shown()).unwrap();
    assert!(!session.core.playback_rate.is_normal());
    session.apply_command(SessionCommand::StepPlaybackRate(-1), at(2), shown()).unwrap();
    assert!(session.core.playback_rate.is_normal());
}

#[test]
fn marked_ranges_loop() {
    let mut session = playing();
    session.apply_command(SessionCommand::SetInPoint, at(20), shown()).unwrap();
    assert_eq!(session.in_point(), Some(ms(20)));
    session.apply_command(SessionCommand::SetOutPoint, at(60), shown()).unwrap();
    assert_eq!(session.out_point(), Some(ms(60)));
    assert!(session.position_is_in_active_range(ms(30)));
    assert!(!session.position_is_in_active_range(ms(61)));
    session.apply_command(SessionCommand::ToggleLoopRange, at(61), shown()).unwrap();
    assert!(session.loop_range());
}

#[test]
fn a_tick_draws_what_was_asked_for() {
    let mut session = playing();
    assert_eq!(session.begin_tick(), TickStage::AudioEvent);
    assert_eq!(session.current_buffered_frames(33), 33);
    assert_eq!(session.current_buffered_frames(44), 33);
    session.request_present();
    assert_eq!(session.plan_present(), PresentPlan::Render);
    session.present_finished(PresentResult::Shown);
    assert_eq!(session.plan_present(), PresentPlan::Idle);
    session.set_timeline_overlay(false);
    assert_eq!(session.plan_present(), PresentPlan::Idle);
    session.set_timeline_overlay(true);
    assert_eq!(session.plan_present(), PresentPlan::Render);
    session.end_tick();
    session.apply_command(SessionCommand::SaveScreenshot, at(5), shown()).unwrap();
    assert_eq!(session.plan_present(), PresentPlan::RenderWithCapture);
}

#[test]
fn the_decode_mode_and_length_are_taken_up() {
    let mut session = opened(None);
    let (open_gen, seek_gen, op_id) = stamps(&session);
    session.handle_event(
        SessionEvent::DecodeModeSelected {
            open_gen,
            seek_gen,
            op_id,
            mode: VideoDecodeMode::Software,
            hw_fallback_count: 1,
            rotation_quarter_turns: 1,
        },
        at(0),
        0,
    );
    assert_eq!(session.core.active_decode_mode, Some(VideoDecodeMode::Software));
    assert_eq!(session.core.viewport.rotation_quarter_turns, 1);
    session.handle_event(
        SessionEvent::MediaDurationKnown {
            open_gen,
            seek_gen,
            op_id,
            duration: ms(9_000),
        },
        at(0),
        0,
    );
    assert_eq!(session.media_duration(), Some(ms(9_000)));
    session.apply_command(SessionCommand::ToggleDecodeInfo, at(0), no_devices()).unwrap();
    assert!(session.window_title().contains(VideoDecodeMode::Software.label()));
}

#[test]
fn shutdown_waits_for_the_worker() {
    let mut session = playing();
    session.shutdown();
    let actions = session.take_actions();
    assert!(actions
        .iter()
        .any(|a| matches!(a, SessionAction::StopDecoder { wait: true, .. })));
    assert!(actions.contains(&SessionAction::PrepareForShutdown));
}

#[test]
fn dragging_the_timeline_seeks_once_and_ends_on_release() {
    let mut session = playing();
    let (open_gen, seek_gen, op_id) = stamps(&session);
    session.handle_event(
        SessionEvent::MediaDurationKnown {
            open_gen,
            seek_gen,
            op_id,
            duration: ms(60_000),
        },
        at(0),
        0,
    );
    let mut ui = TimelineUiState::new();
    let input = TimelineInput {
        borderless: false,
        left_button_down: true,
        ctrl_held: false,
        hovered: true,
        on_bar: true,
        cursor_target: Some(ms(30_000)),
        viewport: Size { width: 640, height: 480 },
    };
    let change = ui.update(&mut session, at(10), input, shown()).unwrap();
    assert!(matches!(change, TimelineChange::Replace(Some(_))));
    assert!(ui.is_scrubbing());
    assert_eq!(session.snapshot(at(10), 0).position, ms(30_000));
    session.take_actions();
    ui.update(&mut session, at(11), input, shown()).unwrap();
    assert!(!session
        .take_actions()
        .iter()
        .any(|a| matches!(a, SessionAction::SeekDecoder { .. })));
    let released = TimelineInput {
        left_button_down: false,
        ..input
    };
    ui.update(&mut session, at(12), released, shown()).unwrap();
    assert!(!ui.is_scrubbing());
}

#[test]
fn a_tick_goes_through_its_stages() {
    let mut session = playing();
    let mut stage = session.begin_tick();
    let mut seen = Vec::new();
    while stage != TickStage::Over {
        seen.push(stage);
        let events = matches!(stage, TickStage::AudioEvent | TickStage::VideoEvent);
        stage = session.next_stage(stage, !events);
    }
    assert_eq!(
        seen,
        vec![
            TickStage::AudioEvent,
            TickStage::VideoEvent,
            TickStage::Resize,
            TickStage::Audio,
            TickStage::Video,
            TickStage::Subtitle,
            TickStage::Volume,
            TickStage::Present,
            TickStage::Finish,
        ]
    );
    assert_eq!(session.next_stage(TickStage::Video, false), TickStage::Over);
    assert_eq!(session.next_stage(TickStage::Present, false), TickStage::Over);
}

#[test]
fn a_cancelled_scrub_goes_back() {
    let mut session = playing();
    let (open_gen, seek_gen, op_id) = stamps(&session);
    session.handle_event(
        SessionEvent::MediaDurationKnown {
            open_gen,
            seek_gen,
            op_id,
            duration: ms(60_000),
        },
        at(0),
        0,
    );
    let mut ui = TimelineUiState::new();
    let press = TimelineInput {
        borderless: false,
        left_button_down: true,
        ctrl_held: false,
        hovered: true,
        on_bar: true,
        cursor_target: Some(ms(30_000)),
        viewport: Size { width: 640, height: 480 },
    };
    ui.update(&mut session, at(10), press, shown()).unwrap();
    assert_eq!(ui.cancel_sink_call(&session, at(20), 0), SinkCall::Nothing);
    ui.cancel_scrub(&mut session, at(20), shown()).unwrap();
    assert!(!ui.is_scrubbing());
    assert_eq!(session.snapshot(at(20), 0).position, ms(10));
}

#[test]
fn a_resting_session_waits_for_input() {
    let mut session = PlaybackSession::new(2, 2);
    assert!(session.is_idle_for_input());
    assert!(!session.take_idle_pace_request());
    let session = playing();
    assert!(!session.is_idle_for_input());
}

/// A session that plays with a started sink.
fn playing_with_sound() -> PlaybackSession {
    let mut session = opened(None);
    session.audio_sink_ready(Ok(48_000));
    let event = sound(&session, 0, 48_000);
    session.handle_event(event, at(0), 0);
    let event = picture(&session, 0, 1);
    session.handle_event(event, at(0), 0);
    let mut batch = AudioBatch {
        first_written_pts: None,
        wrote_any: false,
    };
    session.audio_written(&mut batch, 9_600);
    assert!(session.sink_needs_start(&batch));
    session.sink_playing(true);
    session.finish_audio_submission(batch, false, at(0), 9_600);
    assert_eq!(session.core.state, PlaybackState::Playing);
    session.take_actions();
    session
}

#[test]
fn a_sink_that_does_not_pause_leaves_playback_running() {
    let mut session = playing_with_sound();
    let refused = DeviceView {
        sink_obeyed: false,
        ..shown()
    };
    assert_eq!(
        session.sink_call(SessionCommand::TogglePause, at(5), 0),
        SinkCall::Pause
    );
    assert_eq!(
        session.apply_command(SessionCommand::TogglePause, at(5), refused),
        Err(SinkRefused)
    );
    assert_eq!(session.core.state, PlaybackState::Playing);
    assert!(session.core.sink.unwrap().started);
    assert!(session.take_actions().is_empty());
    let mut session = playing_with_sound();
    assert_eq!(
        session.apply_command(SessionCommand::StepFrameForward, at(5), refused),
        Err(SinkRefused)
    );
    assert_eq!(session.core.state, PlaybackState::Playing);
    assert_eq!(session.core.pending_seek_target, None);
}

#[test]
fn a_sink_that_does_not_resume_leaves_playback_paused() {
    let mut session = playing_with_sound();
    session
        .apply_command(SessionCommand::TogglePause, at(5), shown())
        .unwrap();
    assert!(session.is_paused());
    assert!(!session.core.sink.unwrap().started);
    assert_eq!(
        session.sink_call(SessionCommand::TogglePause, at(6), 0),
        SinkCall::Resume
    );
    let refused = DeviceView {
        sink_obeyed: false,
        ..shown()
    };
    assert_eq!(
        session.apply_command(SessionCommand::TogglePause, at(6), refused),
        Err(SinkRefused)
    );
    assert!(session.is_paused());
    session
        .apply_command(SessionCommand::TogglePause, at(7), shown())
        .unwrap();
    assert!(session.core.sink.unwrap().started);
}

#[test]
fn a_stale_stretch_of_audio_needs_no_rate() {
    let mut session = opened(None);
    let (open_gen, seek_gen, op_id) = stamps(&session);
    let stale = SessionEvent::AudioFrameReady(DecodedAudioFrame {
        open_gen: OpenGeneration(open_gen.0 + 1),
        seek_gen,
        op_id,
        pts: ms(0),
        format: AudioStreamFormat {
            sample_rate: 0,
            channels: 2,
            bytes_per_sample: 4,
            channel_mask: 0,
        },
        frame_count: 1,
        buffer: 1,
    });
    session.handle_event(stale, at(0), 0);
    assert_eq!(session.core.state, PlaybackState::Opening);
}

#[test]
fn a_shown_cue_is_taken_down_with_a_present() {
    let mut session = playing();
    let view = Size { width: 640, height: 480 };
    session.core.overlay.subtitle_loaded = true;
    session.core.overlay.subtitles_enabled = true;
    assert_eq!(session.plan_subtitle(view, Some(3)), SubtitleStep::Show(3));
    assert_eq!(
        session.update_subtitle_overlay(view, Some(3), Err("no font".to_string())),
        Err("no font".to_string())
    );
    assert_eq!(session.core.overlay.active_subtitle_cue, None);
    session
        .update_subtitle_overlay(view, Some(3), Ok(()))
        .unwrap();
    assert_eq!(session.core.overlay.active_subtitle_cue, Some(3));
    session.core.present_needed = false;
    session.core.overlay.subtitles_enabled = false;
    assert_eq!(session.plan_subtitle(view, None), SubtitleStep::Hide);
    session.update_subtitle_overlay(view, None, Ok(())).unwrap();
    assert!(session.core.present_needed);
    assert_eq!(session.core.overlay.active_subtitle_cue, None);
    assert_eq!(session.core.overlay.active_subtitle_viewport, None);
    assert_eq!(session.plan_subtitle(view, None), SubtitleStep::Blank);
}

#[test]
fn a_volume_display_stays_due_until_it_is_removed() {
    let mut session = playing();
    session.core.present_needed = false;
    session.core.overlay.volume_overlay_until = Some(at(10));
    assert!(!session.volume_removal_due(at(10)));
    assert_eq!(session.refresh_volume_overlay(at(10), Ok(true)), Ok(()));
    assert!(!session.core.present_needed);
    assert!(session.volume_removal_due(at(11)));
    assert_eq!(
        session.refresh_volume_overlay(at(11), Err("lost".to_string())),
        Err("lost".to_string())
    );
    assert_eq!(session.core.overlay.volume_overlay_until, Some(at(10)));
    session.refresh_volume_overlay(at(12), Ok(true)).unwrap();
    assert_eq!(session.core.overlay.volume_overlay_until, None);
    assert!(session.core.present_needed);
}

#[test]
fn the_recent_panel_is_shown_and_taken_down() {
    let mut session = playing();
    let rows = vec![RecentRow {
        name: "a".to_string(),
        position: "0:01".to_string(),
    }];
    let overlay = plan_recent_overlay(rows.clone(), 4, None);
    assert_eq!(overlay.rows, rows);
    assert_eq!(overlay.selected, 4);
    assert_eq!(overlay.viewport, Size { width: 1280, height: 720 });
    let view = Size { width: 3, height: 4 };
    assert_eq!(plan_recent_overlay(rows, 0, Some(view)).viewport, view);
    session.core.present_needed = false;
    assert!(session.show_recent_overlay(Err("x".to_string())).is_err());
    assert!(!session.core.present_needed);
    session.show_recent_overlay(Ok(())).unwrap();
    assert!(session.core.present_needed);
    session.core.present_needed = false;
    session.clear_recent_overlay();
    assert!(session.core.present_needed);
    assert_eq!(session.take_actions(), vec![SessionAction::ClearRecentOverlay]);
}

#[test]
fn a_new_session_can_be_ticked() {
    let mut session = PlaybackSession::new(2, 2);
    assert_eq!(session.begin_tick(), TickStage::AudioEvent);
    session.end_tick();
    assert!(!session.core.tick_active);
}

#[test]
fn half_a_nanosecond_goes_to_the_even_one() {
    // One frame at 1024 frames a second lasts 976562.5 nanoseconds.
    let mut session = opened(None);
    session.audio_sink_ready(Ok(1_024));
    let event = picture(&session, 0, 1);
    session.handle_event(event, at(0), 0);
    session.core.sink.as_mut().unwrap().started = true;
    session.core.audio.clock_anchor_pts = Some(ms(0));
    session.core.audio.submitted_frames = 1;
    assert_eq!(
        session.master_clock_position(at(0), 0),
        Some(Duration { nanos: 976_562 })
    );
    session.core.audio.submitted_frames = 3;
    assert_eq!(
        session.master_clock_position(at(0), 0),
        Some(Duration { nanos: 2_929_688 })
    );
}

#[test]
fn a_timeline_that_was_not_drawn_is_asked_for_again() {
    let mut session = playing();
    let (open_gen, seek_gen, op_id) = stamps(&session);
    session.handle_event(
        SessionEvent::MediaDurationKnown {
            open_gen,
            seek_gen,
            op_id,
            duration: ms(60_000),
        },
        at(0),
        0,
    );
    let hover = TimelineInput {
        borderless: false,
        left_button_down: true,
        ctrl_held: true,
        hovered: true,
        on_bar: false,
        cursor_target: None,
        viewport: Size { width: 640, height: 480 },
    };
    let mut ui = TimelineUiState::new();
    let before = ui;
    let change = ui.update(&mut session, at(5), hover, shown()).unwrap();
    assert!(matches!(change, TimelineChange::Replace(Some(_))));
    assert!(ui.was_left_button_down);
    ui.drawing_failed(&before);
    assert!(!ui.was_left_button_down);
    assert_eq!(ui.last_overlay, None);
    let again = ui.update(&mut session, at(5), hover, shown()).unwrap();
    assert_eq!(again, change);
}
