//! The marked range of a clip: in and out points, looping and replay.
use vstd::prelude::*;
use crate::time::Duration;

verus! {

/// In and out points, looping and the replay preference.
#[derive(Clone, Copy, Debug, PartialEq, Eq, Structural)]
pub struct ClipRangeState {
    pub in_point: Option<Duration>,
    pub out_point: Option<Duration>,
    pub loop_range: bool,
    pub auto_replay: bool,
}

impl Default for ClipRangeState {
    fn default() -> (r: Self)
        ensures
            r == ClipRangeState::unmarked(false),
    {
        Self::new()
    }
}

impl ClipRangeState {
    /// No marks and no loop.
    pub open spec fn unmarked(auto_replay: bool) -> Self {
        ClipRangeState { in_point: None, out_point: None, loop_range: false, auto_replay }
    }

    /// The out point lies behind the in point, or behind the start if there is
    /// none, and only a marked range loops.
    pub open spec fn wf(self) -> bool {
        &&& (self.out_point matches Some(o) ==> o@ > self.start())
        &&& (self.loop_range ==> self.is_marked())
    }

    /// Whether a mark is set.
    pub open spec fn is_marked(self) -> bool {
        self.in_point is Some || self.out_point is Some
    }

    /// Where the range starts, in nanoseconds.
    pub open spec fn start(self) -> int {
        match self.in_point {
            Some(i) => i@,
            None => 0,
        }
    }

    /// Whether a position lies in the range: from the in point on, and before
    /// the out point.
    pub open spec fn contains(self, position: Duration) -> bool {
        self.start() <= position@ && (self.out_point matches Some(o) ==> position@ < o@)
    }

    pub fn new() -> (r: Self)
        ensures
            r == ClipRangeState::unmarked(false),
            r.wf(),
    {
        ClipRangeState { in_point: None, out_point: None, loop_range: false, auto_replay: false }
    }

    pub fn in_point(&self) -> (r: Option<Duration>)
        ensures
            r == self.in_point,
    {
        self.in_point
    }

    pub fn out_point(&self) -> (r: Option<Duration>)
        ensures
            r == self.out_point,
    {
        self.out_point
    }

    pub fn loop_range(&self) -> (r: bool)
        ensures
            r == self.loop_range,
    {
        self.loop_range
    }

    pub fn auto_replay(&self) -> (r: bool)
        ensures
            r == self.auto_replay,
    {
        self.auto_replay
    }

    /// Forgets the marks and the loop of the last file. The replay preference
    /// outlives the file.
    pub fn reset_for_open(&mut self)
        ensures
            *final(self) == ClipRangeState::unmarked(old(self).auto_replay),
            final(self).wf(),
    {
        self.in_point = None;
        self.out_point = None;
        self.loop_range = false;
    }

    /// The state with the in point at `position`: an out point that would not
    /// lie behind it is dropped.
    pub open spec fn with_in_point(self, position: Duration) -> Self {
        ClipRangeState {
            in_point: Some(position),
            out_point: match self.out_point {
                Some(o) if position@ >= o@ => None,
                other => other,
            },
            ..self
        }
    }

    /// Marks the in point.
    pub fn set_in_point(&mut self, position: Duration)
        ensures
            *final(self) == old(self).with_in_point(position),
            old(self).wf() ==> final(self).wf(),
    {
        self.in_point = Some(position);
        if let Some(o) = self.out_point {
            if position.nanos >= o.nanos {
                self.out_point = None;
            }
        }
    }

    /// The state without an in point: with no mark left nothing loops.
    pub open spec fn without_in_point(self) -> Self {
        ClipRangeState {
            in_point: None,
            loop_range: self.loop_range && self.out_point is Some,
            ..self
        }
    }

    /// Removes the in point.
    pub fn clear_in_point(&mut self)
        ensures
            *final(self) == old(self).without_in_point(),
            old(self).wf() ==> final(self).wf(),
    {
        self.in_point = None;
        if self.out_point.is_none() {
            self.loop_range = false;
        }
    }

    /// The state with the out point at `position`, which must lie behind the
    /// start of the range; if it does not, nothing changes.
    pub open spec fn with_out_point(self, position: Duration) -> Self {
        if position@ > self.start() {
            ClipRangeState { out_point: Some(position), ..self }
        } else {
            self
        }
    }

    /// Marks the out point.
    pub fn set_out_point(&mut self, position: Duration)
        ensures
            *final(self) == old(self).with_out_point(position),
            old(self).wf() ==> final(self).wf(),
    {
        let start = self.replay_position();
        if position.nanos > start.nanos {
            self.out_point = Some(position);
        }
    }

    /// The state without an out point: with no mark left nothing loops.
    pub open spec fn without_out_point(self) -> Self {
        ClipRangeState {
            out_point: None,
            loop_range: self.loop_range && self.in_point is Some,
            ..self
        }
    }

    /// Removes the out point.
    pub fn clear_out_point(&mut self)
        ensures
            *final(self) == old(self).without_out_point(),
            old(self).wf() ==> final(self).wf(),
    {
        self.out_point = None;
        if self.in_point.is_none() {
            self.loop_range = false;
        }
    }

    /// The state with the other setting of the loop, or of the replay
    /// preference where no range is marked.
    pub open spec fn toggled(self) -> Self {
        if self.is_marked() {
            ClipRangeState { loop_range: !self.loop_range, ..self }
        } else {
            ClipRangeState { auto_replay: !self.auto_replay, ..self }
        }
    }

    /// Toggles the loop of a marked range; without one, toggles the replay
    /// preference. Returns whether it was the preference.
    pub fn toggle_loop_or_replay(&mut self) -> (r: bool)
        ensures
            *final(self) == old(self).toggled(),
            r == !old(self).is_marked(),
            old(self).wf() ==> final(self).wf(),
    {
        if self.in_point.is_some() || self.out_point.is_some() {
            self.loop_range = !self.loop_range;
            false
        } else {
            self.auto_replay = !self.auto_replay;
            true
        }
    }

    /// Whether playback starts again at the end.
    pub fn should_replay_at_end(&self) -> (r: bool)
        ensures
            r == (self.auto_replay || self.loop_range),
    {
        self.auto_replay || self.loop_range
    }

    /// Where a replay starts: the in point, or the start of the file.
    pub fn replay_position(&self) -> (r: Duration)
        ensures
            r@ == self.start(),
    {
        match self.in_point {
            Some(i) => i,
            None => Duration::zero(),
        }
    }

    /// Where to resume from a position outside the range; `None` inside it.
    pub fn resume_target(&self, position: Duration) -> (r: Option<Duration>)
        ensures
            r == self.resumed(position),
    {
        let before = match self.in_point {
            Some(i) => position.nanos < i.nanos,
            None => false,
        };
        let behind = match self.out_point {
            Some(o) => position.nanos >= o.nanos,
            None => false,
        };
        if before || behind {
            Some(self.replay_position())
        } else {
            None
        }
    }

    /// Where to resume from a position outside the range; `None` inside it.
    pub open spec fn resumed(self, position: Duration) -> Option<Duration> {
        if self.contains(position) {
            None
        } else {
            Some(Duration { nanos: self.start() as u128 })
        }
    }

    /// Whether a position lies in the range.
    pub fn position_is_in_active_range(&self, position: Duration) -> (r: bool)
        ensures
            r == self.contains(position),
    {
        self.resume_target(position).is_none()
    }
}

/// Toggling twice changes nothing.
pub proof fn toggle_twice_restores(s: ClipRangeState)
    ensures
        s.toggled().toggled() == s,
{
}

/// A position to resume from lies inside the range.
pub proof fn resumed_is_inside(s: ClipRangeState, position: Duration)
    requires
        s.wf(),
    ensures
        s.resumed(position) matches Some(p) ==> s.contains(p),
{
}

/// A marked range is never empty: it holds its start.
pub proof fn range_holds_its_start(s: ClipRangeState)
    requires
        s.wf(),
    ensures
        s.contains(Duration { nanos: s.start() as u128 }),
{
}

/// The range reaches from its in point up to its out point, which it does not hold;
/// an end that is not marked is open.
pub proof fn range_reaches_from_in_to_out(s: ClipRangeState, position: Duration)
    ensures
        s.contains(position) <==> !(s.in_point matches Some(i) && position@ < i@) && !(
        s.out_point matches Some(o) && position@ >= o@),
        s.contains(position) ==> s.resumed(position) is None,
        !s.contains(position) ==> s.resumed(position) is Some,
        s.resumed(position) matches Some(p) ==> p@ == (match s.in_point {
            Some(i) => i@,
            None => 0,
        }),
{
}

/// Marks that are set in a file stay in order: the out point lies behind the in point.
pub proof fn marks_stay_in_order(s: ClipRangeState, position: Duration)
    requires
        s.wf(),
    ensures
        s.with_in_point(position).out_point matches Some(o) ==> position@ < o@,
        s.with_in_point(position).in_point == Some(position),
        s.with_out_point(position).out_point matches Some(o) ==> (
        s.with_out_point(position).in_point matches Some(i) ==> i@ < o@),
        s.with_out_point(position).in_point == s.in_point,
        s.without_in_point().in_point is None,
        s.without_in_point().out_point == s.out_point,
        s.without_out_point().out_point is None,
        s.without_out_point().in_point == s.in_point,
        s.without_in_point().without_out_point() == ClipRangeState::unmarked(s.auto_replay),
{
}

} // verus!
