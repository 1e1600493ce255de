use fastplay::commands::SessionCommand;
use fastplay::input_dispatch::{command_for, InputEvent};

#[test]
fn direct_mappings_translate_one_to_one() {
    assert_eq!(
        command_for(&InputEvent::TogglePause),
        Some(SessionCommand::TogglePause)
    );
    assert_eq!(
        command_for(&InputEvent::ToggleSubtitles),
        Some(SessionCommand::ToggleSubtitles)
    );
    assert_eq!(
        command_for(&InputEvent::SaveScreenshot),
        Some(SessionCommand::SaveScreenshot)
    );
    assert_eq!(
        command_for(&InputEvent::RotateClockwise),
        Some(SessionCommand::RotateClockwise)
    );
    assert_eq!(
        command_for(&InputEvent::RotateCounterClockwise),
        Some(SessionCommand::RotateCounterClockwise)
    );
    assert_eq!(
        command_for(&InputEvent::ToggleBorderlessFullscreen),
        Some(SessionCommand::ToggleBorderlessFullscreen)
    );
    assert_eq!(
        command_for(&InputEvent::ResetView),
        Some(SessionCommand::ResetView)
    );
    assert_eq!(
        command_for(&InputEvent::SetInPoint),
        Some(SessionCommand::SetInPoint)
    );
    assert_eq!(
        command_for(&InputEvent::ClearInPoint),
        Some(SessionCommand::ClearInPoint)
    );
    assert_eq!(
        command_for(&InputEvent::SetOutPoint),
        Some(SessionCommand::SetOutPoint)
    );
    assert_eq!(
        command_for(&InputEvent::ClearOutPoint),
        Some(SessionCommand::ClearOutPoint)
    );
    assert_eq!(
        command_for(&InputEvent::ToggleLoopRange),
        Some(SessionCommand::ToggleLoopRange)
    );
    assert_eq!(
        command_for(&InputEvent::FitWindow),
        Some(SessionCommand::FitWindow)
    );
    assert_eq!(
        command_for(&InputEvent::HalfSizeWindow),
        Some(SessionCommand::HalfSizeWindow)
    );
    assert_eq!(
        command_for(&InputEvent::ToggleDecodeInfo),
        Some(SessionCommand::ToggleDecodeInfo)
    );
    assert_eq!(
        command_for(&InputEvent::ResetPlaybackRate),
        Some(SessionCommand::ResetPlaybackRate)
    );
    assert_eq!(
        command_for(&InputEvent::ShowHelp),
        Some(SessionCommand::ShowHelp)
    );
    assert_eq!(
        command_for(&InputEvent::HideHelp),
        Some(SessionCommand::HideHelp)
    );
}

#[test]
fn payloads_are_preserved() {
    assert_eq!(
        command_for(&InputEvent::AdjustVolumeSteps(-3)),
        Some(SessionCommand::AdjustVolumeSteps(-3))
    );
    assert_eq!(
        command_for(&InputEvent::StepPlaybackRate(2)),
        Some(SessionCommand::StepPlaybackRate(2))
    );
    assert_eq!(
        command_for(&InputEvent::ZoomAtCursor {
            delta: 120,
            cursor_x: 640,
            cursor_y: 360,
        }),
        Some(SessionCommand::ZoomAtCursor {
            delta: 120,
            cursor_x: 640,
            cursor_y: 360,
        })
    );
}

#[test]
fn pan_delta_keeps_its_distance() {
    assert_eq!(
        command_for(&InputEvent::PanDelta { dx: -5, dy: 7 }),
        Some(SessionCommand::PanBy { dx: -5, dy: 7 })
    );
}

#[test]
fn context_dependent_events_return_none() {
    assert_eq!(command_for(&InputEvent::SeekRelativeSeconds(5)), None);
    assert_eq!(command_for(&InputEvent::StepFrameForward), None);
    assert_eq!(command_for(&InputEvent::StepFrameBackward), None);
    assert_eq!(command_for(&InputEvent::EscapeKey), None);
    assert_eq!(command_for(&InputEvent::BackspaceKey), None);
    assert_eq!(
        command_for(&InputEvent::FilesDropped(vec!["x.mp4".to_string()])),
        None
    );
    assert_eq!(command_for(&InputEvent::OpenFileDialog), None);
    assert_eq!(command_for(&InputEvent::QueuePrevious), None);
    assert_eq!(command_for(&InputEvent::QueueNext), None);
    assert_eq!(command_for(&InputEvent::AddMarker), None);
    assert_eq!(command_for(&InputEvent::ToggleMarkerOverlay), None);
    assert_eq!(command_for(&InputEvent::ExportMarkers), None);
    assert_eq!(command_for(&InputEvent::BatchMarkerScreenshots), None);
}
