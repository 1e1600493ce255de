//! What the user can ask of a session.
use vstd::prelude::*;
use crate::media::SeekTarget;

verus! {

/// A request to the session.
#[derive(Clone, Copy, Debug, PartialEq, Eq, Structural)]
pub enum SessionCommand {
    Tick,
    TogglePause,
    ToggleSubtitles,
    SaveScreenshot,
    Seek(SeekTarget),
    StepFrameForward,
    StepFrameBackward,
    AdjustVolumeSteps(i16),
    RotateClockwise,
    RotateCounterClockwise,
    ToggleBorderlessFullscreen,
    ZoomAtCursor { delta: i16, cursor_x: i32, cursor_y: i32 },
    ResetView,
    ToggleAutoReplay,
    SetInPoint,
    ClearInPoint,
    SetOutPoint,
    ClearOutPoint,
    ToggleLoopRange,
    FitWindow,
    HalfSizeWindow,
    ToggleDecodeInfo,
    StepPlaybackRate(i8),
    ResetPlaybackRate,
    PanBy { dx: i32, dy: i32 },
    ShowHelp,
    HideHelp,
}

} // verus!
