//! The accounting behind the audio master clock.
use vstd::prelude::*;
use crate::time::{clamp_nanos, Duration, Instant, MAX_NANOS};

verus! {

/// How far the clock may run ahead of the last observed position: a little over
/// one period of the audio engine.
pub const MAX_EXTRAPOLATION_NANOS: u128 = 12_000_000;

/// What the smoothed clock remembers between two readings.
#[derive(Clone, Copy, Debug, PartialEq, Eq, Structural)]
pub struct ClockSmoothing {
    /// The furthest position observed.
    pub base: Duration,
    /// When it was first observed.
    pub at: Instant,
    /// The last reading handed out.
    pub last: Duration,
}

impl ClockSmoothing {
    /// The last reading is ahead of the furthest position by the extrapolation
    /// bound at most.
    pub open spec fn wf(self) -> bool {
        self.last@ <= self.base@ + MAX_EXTRAPOLATION_NANOS
    }

    /// The reading at `now`.
    pub open spec fn reading(self, now: Instant) -> int {
        let since = if now@ >= self.at@ {
            now@ - self.at@
        } else {
            0
        };
        let ahead = if since <= MAX_EXTRAPOLATION_NANOS {
            since
        } else {
            MAX_EXTRAPOLATION_NANOS as int
        };
        let extrapolated = clamp_nanos(self.base@ + ahead);
        if extrapolated >= self.last@ {
            extrapolated
        } else {
            self.last@
        }
    }

    /// What is remembered after observing `raw` at `now`, before the reading.
    pub open spec fn observed(before: Option<Self>, raw: Duration, now: Instant) -> Self {
        match before {
            Some(s) => if raw@ > s.base@ {
                ClockSmoothing { base: raw, at: now, last: s.last }
            } else {
                s
            },
            None => ClockSmoothing { base: raw, at: now, last: raw },
        }
    }
}

/// The anchor of the audio clock and the frames handed to the device since.
#[derive(Clone, Copy, Debug, PartialEq, Eq, Structural)]
pub struct AudioController {
    pub clock_anchor_pts: Option<Duration>,
    pub submitted_frames: u64,
    pub smoothing: Option<ClockSmoothing>,
}

impl Default for AudioController {
    fn default() -> (r: Self)
        ensures
            r == AudioController::unanchored(),
    {
        Self::new()
    }
}

impl AudioController {
    /// No anchor and nothing submitted.
    pub open spec fn unanchored() -> Self {
        AudioController { clock_anchor_pts: None, submitted_frames: 0, smoothing: None }
    }

    pub open spec fn wf(self) -> bool {
        self.smoothing matches Some(s) ==> s.wf()
    }

    pub fn new() -> (r: Self)
        ensures
            r == AudioController::unanchored(),
            r.wf(),
    {
        AudioController { clock_anchor_pts: None, submitted_frames: 0, smoothing: None }
    }

    /// The time stamp that the audio clock counts from.
    pub fn clock_anchor_pts(&self) -> (r: Option<Duration>)
        ensures
            r == self.clock_anchor_pts,
    {
        self.clock_anchor_pts
    }

    pub fn is_clock_anchored(&self) -> (r: bool)
        ensures
            r == (self.clock_anchor_pts is Some),
    {
        self.clock_anchor_pts.is_some()
    }

    /// Sets or removes the anchor. The submitted frames still count.
    pub fn set_clock_anchor(&mut self, pts: Option<Duration>)
        ensures
            *final(self) == (AudioController { clock_anchor_pts: pts, ..*old(self) }),
    {
        self.clock_anchor_pts = pts;
    }

    /// Forgets the anchor, the submitted frames and the smoothing.
    pub fn reset_clock(&mut self)
        ensures
            *final(self) == AudioController::unanchored(),
    {
        self.clock_anchor_pts = None;
        self.submitted_frames = 0;
        self.smoothing = None;
    }

    /// Turns the played position, which the device reports in steps, into a
    /// clock that advances between the steps with wall time, never runs back
    /// and stays close to what was observed.
    pub fn smooth_played(&mut self, raw: Duration, now: Instant) -> (r: Duration)
        ensures
            r@ == ClockSmoothing::observed(old(self).smoothing, raw, now).reading(now),
            *final(self) == (AudioController {
                smoothing: Some(
                    ClockSmoothing {
                        last: r,
                        ..ClockSmoothing::observed(old(self).smoothing, raw, now)
                    },
                ),
                ..*old(self)
            }),
            old(self).wf() ==> final(self).wf(),
    {
        let state = match self.smoothing {
            Some(s) => if raw.nanos > s.base.nanos {
                ClockSmoothing { base: raw, at: now, last: s.last }
            } else {
                s
            },
            None => ClockSmoothing { base: raw, at: now, last: raw },
        };
        let ahead = now.saturating_duration_since(state.at).shorter(
            Duration { nanos: MAX_EXTRAPOLATION_NANOS },
        );
        let value = state.base.saturating_add(ahead).longer(state.last);
        self.smoothing = Some(ClockSmoothing { base: state.base, at: state.at, last: value });
        value
    }

    /// Counts frames that were handed to the device.
    pub fn record_submitted(&mut self, frames: u64)
        ensures
            *final(self) == (AudioController {
                submitted_frames: submitted_after(old(self).submitted_frames, frames),
                ..*old(self)
            }),
    {
        self.submitted_frames = self.submitted_frames.saturating_add(frames);
    }

    /// Frames that have been played: those submitted, but for those still
    /// buffered.
    pub fn played_frames(&self, buffered: u64) -> (r: u64)
        ensures
            r == self.played(buffered),
    {
        self.submitted_frames.saturating_sub(buffered)
    }

    /// Frames that have been played.
    pub open spec fn played(self, buffered: u64) -> int {
        if self.submitted_frames >= buffered {
            self.submitted_frames - buffered
        } else {
            0
        }
    }
}

/// The counter of submitted frames after `frames` more.
pub open spec fn submitted_after(before: u64, frames: u64) -> u64 {
    if before + frames <= u64::MAX {
        (before + frames) as u64
    } else {
        u64::MAX
    }
}

/// A smoothed reading is never below the one before it, and at most the
/// extrapolation bound above the furthest position observed.
pub proof fn smoothed_is_monotone_and_bounded(before: ClockSmoothing, raw: Duration, now: Instant)
    requires
        before.wf(),
    ensures
        ({
            let after = ClockSmoothing::observed(Some(before), raw, now);
            &&& after.reading(now) >= before.last@
            &&& after.reading(now) <= after.base@ + MAX_EXTRAPOLATION_NANOS
            &&& after.base@ >= raw@
            &&& after.base@ >= before.base@
        }),
{
}

/// With a device that stands still the clock stops at the extrapolation bound.
pub proof fn stalled_device_stops_the_clock(s: ClockSmoothing, now: Instant, later: Instant)
    requires
        s.wf(),
        now@ >= s.at@ + MAX_EXTRAPOLATION_NANOS,
        later@ >= now@,
    ensures
        s.reading(later) == s.reading(now),
{
}

/// Frames that were handed over are either waiting in the device or played: the
/// two counts make up what was submitted, and with nothing handed over nothing
/// was played.
pub proof fn frames_wait_or_are_played(c: AudioController, buffered: u64)
    ensures
        buffered <= c.submitted_frames ==> c.played(buffered) + buffered == c.submitted_frames,
        buffered >= c.submitted_frames ==> c.played(buffered) == 0,
        c.played(0) == c.submitted_frames,
        AudioController::unanchored().played(buffered) == 0,
{
}

/// Frames handed over one after the other count like all of them at once, up to
/// the largest count.
pub proof fn submitted_frames_add_up(before: u64, a: u64, b: u64)
    ensures
        submitted_after(before, 0) == before,
        before + a <= u64::MAX ==> submitted_after(before, a) - before == a,
        before + a + b <= u64::MAX ==> submitted_after(submitted_after(before, a), b) == before + a
            + b,
        before + a > u64::MAX ==> submitted_after(before, a) == u64::MAX,
{
}

/// Between two reports of the device the clock goes on with the time, for at most
/// twelve milliseconds; a report of a further position is taken over at once, and
/// any other report is passed over.
pub proof fn clock_goes_on_between_reports(raw: Duration, at: Instant, again: Duration, now: Instant)
    requires
        raw@ + 12_000_000 <= MAX_NANOS,
        at@ <= now@,
    ensures
        ({
            let first = ClockSmoothing::observed(None, raw, at);
            let after = ClockSmoothing::observed(Some(first), again, now);
            &&& first.reading(at) == raw@
            &&& now@ - at@ <= 12_000_000 ==> first.reading(now) == raw@ + (now@ - at@)
            &&& now@ - at@ >= 12_000_000 ==> first.reading(now) == raw@ + 12_000_000
            &&& again@ > raw@ ==> after.base == again && after.at == now
            &&& again@ <= raw@ ==> after == first
            &&& again@ > raw@ && again@ <= MAX_NANOS ==> after.reading(now) == again@
        }),
{
}

} // verus!
