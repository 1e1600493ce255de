//! What the user does, and which of it goes straight to the session.
use vstd::prelude::*;
use crate::commands::SessionCommand;

verus! {

/// Something that the user did in the window.
#[derive(Clone, Debug, PartialEq, Eq)]
pub enum InputEvent {
    TogglePause,
    ToggleSubtitles,
    SaveScreenshot,
    AdjustVolumeSteps(i16),
    RotateClockwise,
    RotateCounterClockwise,
    ToggleBorderlessFullscreen,
    ZoomAtCursor { delta: i16, cursor_x: i32, cursor_y: i32 },
    ResetView,
    ToggleAutoReplay,
    SetInPoint,
    ClearInPoint,
    SetOutPoint,
    ClearOutPoint,
    ToggleLoopRange,
    FitWindow,
    HalfSizeWindow,
    ToggleDecodeInfo,
    StepPlaybackRate(i8),
    ResetPlaybackRate,
    PanDelta { dx: i32, dy: i32 },
    ShowHelp,
    HideHelp,
    SeekRelativeSeconds(i64),
    StepFrameForward,
    StepFrameBackward,
    EscapeKey,
    BackspaceKey,
    FilesDropped(Vec<String>),
    OpenFileDialog,
    QueuePrevious,
    QueueNext,
    ToggleRecentOverlay,
    AddMarker,
    ToggleMarkerOverlay,
    ExportMarkers,
    BatchMarkerScreenshots,
    NavigateUp,
    NavigateDown,
    Confirm,
    RemoveSelected,
}

/// The command that an event stands for by itself. Events whose meaning rests
/// on more than the session (the play queue, an open list, the file dialog, the
/// timeline) stand for none.
pub open spec fn direct_command(event: InputEvent) -> Option<SessionCommand> {
    match event {
        InputEvent::TogglePause => Some(SessionCommand::TogglePause),
        InputEvent::ToggleSubtitles => Some(SessionCommand::ToggleSubtitles),
        InputEvent::SaveScreenshot => Some(SessionCommand::SaveScreenshot),
        InputEvent::AdjustVolumeSteps(steps) => Some(SessionCommand::AdjustVolumeSteps(steps)),
        InputEvent::RotateClockwise => Some(SessionCommand::RotateClockwise),
        InputEvent::RotateCounterClockwise => Some(SessionCommand::RotateCounterClockwise),
        InputEvent::ToggleBorderlessFullscreen => Some(SessionCommand::ToggleBorderlessFullscreen),
        InputEvent::ZoomAtCursor { delta, cursor_x, cursor_y } => Some(
            SessionCommand::ZoomAtCursor { delta, cursor_x, cursor_y },
        ),
        InputEvent::ResetView => Some(SessionCommand::ResetView),
        InputEvent::ToggleAutoReplay => Some(SessionCommand::ToggleAutoReplay),
        InputEvent::SetInPoint => Some(SessionCommand::SetInPoint),
        InputEvent::ClearInPoint => Some(SessionCommand::ClearInPoint),
        InputEvent::SetOutPoint => Some(SessionCommand::SetOutPoint),
        InputEvent::ClearOutPoint => Some(SessionCommand::ClearOutPoint),
        InputEvent::ToggleLoopRange => Some(SessionCommand::ToggleLoopRange),
        InputEvent::FitWindow => Some(SessionCommand::FitWindow),
        InputEvent::HalfSizeWindow => Some(SessionCommand::HalfSizeWindow),
        InputEvent::ToggleDecodeInfo => Some(SessionCommand::ToggleDecodeInfo),
        InputEvent::StepPlaybackRate(step) => Some(SessionCommand::StepPlaybackRate(step)),
        InputEvent::ResetPlaybackRate => Some(SessionCommand::ResetPlaybackRate),
        InputEvent::PanDelta { dx, dy } => Some(SessionCommand::PanBy { dx, dy }),
        InputEvent::ShowHelp => Some(SessionCommand::ShowHelp),
        InputEvent::HideHelp => Some(SessionCommand::HideHelp),
        _ => None,
    }
}

/// The command that an event stands for by itself.
pub fn command_for(event: &InputEvent) -> (r: Option<SessionCommand>)
    ensures
        r == direct_command(*event),
{
    let command = match event {
        InputEvent::TogglePause => SessionCommand::TogglePause,
        InputEvent::ToggleSubtitles => SessionCommand::ToggleSubtitles,
        InputEvent::SaveScreenshot => SessionCommand::SaveScreenshot,
        InputEvent::AdjustVolumeSteps(steps) => SessionCommand::AdjustVolumeSteps(*steps),
        InputEvent::RotateClockwise => SessionCommand::RotateClockwise,
        InputEvent::RotateCounterClockwise => SessionCommand::RotateCounterClockwise,
        InputEvent::ToggleBorderlessFullscreen => SessionCommand::ToggleBorderlessFullscreen,
        InputEvent::ZoomAtCursor { delta, cursor_x, cursor_y } => SessionCommand::ZoomAtCursor {
            delta: *delta,
            cursor_x: *cursor_x,
            cursor_y: *cursor_y,
        },
        InputEvent::ResetView => SessionCommand::ResetView,
        InputEvent::ToggleAutoReplay => SessionCommand::ToggleAutoReplay,
        InputEvent::SetInPoint => SessionCommand::SetInPoint,
        InputEvent::ClearInPoint => SessionCommand::ClearInPoint,
        InputEvent::SetOutPoint => SessionCommand::SetOutPoint,
        InputEvent::ClearOutPoint => SessionCommand::ClearOutPoint,
        InputEvent::ToggleLoopRange => SessionCommand::ToggleLoopRange,
        InputEvent::FitWindow => SessionCommand::FitWindow,
        InputEvent::HalfSizeWindow => SessionCommand::HalfSizeWindow,
        InputEvent::ToggleDecodeInfo => SessionCommand::ToggleDecodeInfo,
        InputEvent::StepPlaybackRate(step) => SessionCommand::StepPlaybackRate(*step),
        InputEvent::ResetPlaybackRate => SessionCommand::ResetPlaybackRate,
        InputEvent::PanDelta { dx, dy } => SessionCommand::PanBy { dx: *dx, dy: *dy },
        InputEvent::ShowHelp => SessionCommand::ShowHelp,
        InputEvent::HideHelp => SessionCommand::HideHelp,
        _ => {
            return None;
        },
    };
    Some(command)
}

/// Different events that stand for a command stand for different commands.
pub proof fn commands_tell_events_apart(a: InputEvent, b: InputEvent)
    requires
        direct_command(a) is Some,
        direct_command(a) == direct_command(b),
    ensures
        a == b,
{
}

/// Each event stands for the command of its name, with what it carries, and for no
/// other; a seek and a single step need more than the session, and stand for none.
pub proof fn events_stand_for_their_commands(event: InputEvent)
    ensures
        (event is TogglePause) <==> direct_command(event) == Some(SessionCommand::TogglePause),
        (event is ToggleSubtitles) <==> direct_command(event) == Some(SessionCommand::ToggleSubtitles),
        (event is SaveScreenshot) <==> direct_command(event) == Some(SessionCommand::SaveScreenshot),
        (event is RotateClockwise) <==> direct_command(event) == Some(SessionCommand::RotateClockwise),
        (event is RotateCounterClockwise) <==> direct_command(event) == Some(SessionCommand::RotateCounterClockwise),
        (event is ToggleBorderlessFullscreen) <==> direct_command(event) == Some(SessionCommand::ToggleBorderlessFullscreen),
        (event is ResetView) <==> direct_command(event) == Some(SessionCommand::ResetView),
        (event is ToggleAutoReplay) <==> direct_command(event) == Some(SessionCommand::ToggleAutoReplay),
        (event is SetInPoint) <==> direct_command(event) == Some(SessionCommand::SetInPoint),
        (event is ClearInPoint) <==> direct_command(event) == Some(SessionCommand::ClearInPoint),
        (event is SetOutPoint) <==> direct_command(event) == Some(SessionCommand::SetOutPoint),
        (event is ClearOutPoint) <==> direct_command(event) == Some(SessionCommand::ClearOutPoint),
        (event is ToggleLoopRange) <==> direct_command(event) == Some(SessionCommand::ToggleLoopRange),
        (event is FitWindow) <==> direct_command(event) == Some(SessionCommand::FitWindow),
        (event is HalfSizeWindow) <==> direct_command(event) == Some(SessionCommand::HalfSizeWindow),
        (event is ToggleDecodeInfo) <==> direct_command(event) == Some(SessionCommand::ToggleDecodeInfo),
        (event is ResetPlaybackRate) <==> direct_command(event) == Some(SessionCommand::ResetPlaybackRate),
        (event is ShowHelp) <==> direct_command(event) == Some(SessionCommand::ShowHelp),
        (event is HideHelp) <==> direct_command(event) == Some(SessionCommand::HideHelp),
        event matches InputEvent::AdjustVolumeSteps(n) ==> direct_command(event) == Some(
            SessionCommand::AdjustVolumeSteps(n),
        ),
        event matches InputEvent::StepPlaybackRate(n) ==> direct_command(event) == Some(
            SessionCommand::StepPlaybackRate(n),
        ),
        event matches InputEvent::ZoomAtCursor { delta, cursor_x, cursor_y } ==> direct_command(
            event,
        ) == Some(SessionCommand::ZoomAtCursor { delta, cursor_x, cursor_y }),
        event matches InputEvent::PanDelta { dx, dy } ==> direct_command(event) == Some(
            SessionCommand::PanBy { dx, dy },
        ),
        event is SeekRelativeSeconds || event is StepFrameForward || event is StepFrameBackward
            || event is QueueNext || event is QueuePrevious || event is Confirm ==> direct_command(
            event,
        ) is None,
{
}

} // verus!
