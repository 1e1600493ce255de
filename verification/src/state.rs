//! The states of playback.
use vstd::prelude::*;

verus! {

/// What playback is doing.
#[derive(Clone, Copy, Debug, PartialEq, Eq, Structural)]
pub enum PlaybackState {
    Idle,
    Opening,
    Priming,
    Playing,
    Paused,
    Seeking,
    Draining,
    Ended,
    Error,
}

} // verus!
