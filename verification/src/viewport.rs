//! The rotation of the shown picture.
use vstd::prelude::*;

verus! {

/// Rotation of the view and of the stream, in clockwise quarter turns.
#[derive(Clone, Copy, Debug, PartialEq, Eq, Structural)]
pub struct ViewportState {
    pub rotation_quarter_turns: u8,
    pub stream_rotation_quarter_turns: u8,
}

impl Default for ViewportState {
    fn default() -> (r: Self)
        ensures
            r == ViewportState::upright(),
    {
        Self::new()
    }
}

impl ViewportState {
    /// Neither the view nor the stream is rotated.
    pub open spec fn upright() -> Self {
        ViewportState { rotation_quarter_turns: 0, stream_rotation_quarter_turns: 0 }
    }

    pub fn new() -> (r: Self)
        ensures
            r == ViewportState::upright(),
    {
        ViewportState { rotation_quarter_turns: 0, stream_rotation_quarter_turns: 0 }
    }

    /// Forgets the rotation of the last file.
    pub fn reset_for_open(&mut self)
        ensures
            *final(self) == ViewportState::upright(),
    {
        self.rotation_quarter_turns = 0;
        self.stream_rotation_quarter_turns = 0;
    }

    /// The view after the stream reported its rotation: a report of the
    /// rotation already known leaves a rotation by hand alone.
    pub open spec fn with_stream_rotation(self, quarter_turns: u8) -> Self {
        if self.stream_rotation_quarter_turns == quarter_turns {
            self
        } else {
            ViewportState {
                rotation_quarter_turns: quarter_turns,
                stream_rotation_quarter_turns: quarter_turns,
            }
        }
    }

    /// Takes up the rotation that the stream reports.
    pub fn apply_stream_rotation(&mut self, rotation_quarter_turns: u8)
        ensures
            *final(self) == old(self).with_stream_rotation(rotation_quarter_turns),
    {
        if self.stream_rotation_quarter_turns != rotation_quarter_turns {
            self.stream_rotation_quarter_turns = rotation_quarter_turns;
            self.rotation_quarter_turns = rotation_quarter_turns;
        }
    }

    /// The view turned clockwise by quarter turns; four of them are a full turn.
    pub open spec fn turned(self, quarter_turns: u8) -> Self {
        ViewportState {
            rotation_quarter_turns: ((self.rotation_quarter_turns + quarter_turns) % 4) as u8,
            ..self
        }
    }

    /// Turns the view clockwise.
    pub fn rotate(&mut self, delta_quarter_turns: u8)
        ensures
            *final(self) == old(self).turned(delta_quarter_turns),
    {
        self.rotation_quarter_turns = self.rotation_quarter_turns.wrapping_add(delta_quarter_turns)
            % 4;
    }

    /// The view turned back to the rotation of the stream.
    pub open spec fn reset_view(self) -> Self {
        ViewportState { rotation_quarter_turns: self.stream_rotation_quarter_turns, ..self }
    }

    /// Turns the view back to the rotation of the stream.
    pub fn reset(&mut self)
        ensures
            *final(self) == old(self).reset_view(),
    {
        self.rotation_quarter_turns = self.stream_rotation_quarter_turns;
    }

    /// Width and height as they appear: an odd number of quarter turns swaps them.
    pub fn orient_dimensions(&self, width: u32, height: u32) -> (r: (u32, u32))
        ensures
            r == self.oriented(width, height),
    {
        if self.rotation_quarter_turns % 2 != 0 {
            (height, width)
        } else {
            (width, height)
        }
    }

    /// Width and height as they appear.
    pub open spec fn oriented(self, width: u32, height: u32) -> (u32, u32) {
        if self.rotation_quarter_turns % 2 == 1 {
            (height, width)
        } else {
            (width, height)
        }
    }
}

/// Four quarter turns, taken in any two parts, bring a view back.
pub proof fn full_turn_restores(v: ViewportState, part: u8)
    requires
        v.rotation_quarter_turns < 4,
        part <= 4,
    ensures
        v.turned(part).turned((4 - part) as u8) == v,
{
}

/// A quarter turn swaps the shown width and height.
pub proof fn quarter_turn_swaps(v: ViewportState, width: u32, height: u32)
    ensures
        v.turned(1).oriented(width, height) == v.oriented(height, width),
{
}

/// The rotation that a stream reports is taken over unless it is the one already
/// known, and a reset goes back to it; turning by hand leaves it alone.
pub proof fn stream_rotation_is_taken_over_once(v: ViewportState, turns: u8, by_hand: u8)
    ensures
        ({
            let told = v.with_stream_rotation(turns);
            &&& told.stream_rotation_quarter_turns == turns
            &&& turns != v.stream_rotation_quarter_turns ==> told.rotation_quarter_turns == turns
            &&& turns == v.stream_rotation_quarter_turns ==> told.rotation_quarter_turns
                == v.rotation_quarter_turns
            &&& told.turned(by_hand).with_stream_rotation(turns) == told.turned(by_hand)
            &&& told.turned(by_hand).reset_view().rotation_quarter_turns == turns
            &&& told.turned(by_hand).stream_rotation_quarter_turns == turns
            &&& ViewportState::upright().rotation_quarter_turns == 0
            &&& ViewportState::upright().stream_rotation_quarter_turns == 0
        }),
{
}

/// Turns add up, a full turn counting as none, and every second quarter turn
/// swaps width and height.
pub proof fn quarter_turns_add_up(v: ViewportState, a: u8, b: u8, width: u32, height: u32)
    requires
        a < 4,
        b < 4,
        v.rotation_quarter_turns < 4,
    ensures
        v.turned(a).rotation_quarter_turns < 4,
        v.rotation_quarter_turns + a < 4 ==> v.turned(a).rotation_quarter_turns
            == v.rotation_quarter_turns + a,
        v.rotation_quarter_turns + a >= 4 ==> v.turned(a).rotation_quarter_turns
            == v.rotation_quarter_turns + a - 4,
        a + b < 4 ==> v.turned(a).turned(b) == v.turned((a + b) as u8),
        v.rotation_quarter_turns == 0 || v.rotation_quarter_turns == 2 ==> v.oriented(
            width,
            height,
        ) == (width, height),
        v.rotation_quarter_turns == 1 || v.rotation_quarter_turns == 3 ==> v.oriented(
            width,
            height,
        ) == (height, width),
{
}

} // verus!
