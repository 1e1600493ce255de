//! The clock that paces video when no audio drives playback.
use vstd::prelude::*;
use crate::time::{clamp_nanos, Duration, Instant, MAX_NANOS};

verus! {

/// A playback rate in hundredths: 100 is normal speed.
#[derive(Clone, Copy, Debug, PartialEq, Eq, Structural)]
pub struct PlaybackRate {
    pub hundredths: u32,
}

/// The rates that can be chosen, slowest first, in hundredths.
pub open spec fn rate_table() -> Seq<u32> {
    seq![25u32, 50, 75, 100, 125, 150, 175, 200]
}

/// The position of normal speed among the rates.
pub open spec fn normal_rate_index() -> int {
    3
}

impl PlaybackRate {
    /// Normal speed.
    pub fn normal() -> (r: Self)
        ensures
            r.hundredths == 100,
    {
        PlaybackRate { hundredths: 100 }
    }

    pub fn is_normal(&self) -> (r: bool)
        ensures
            r == (self.hundredths == 100),
    {
        self.hundredths == 100
    }

    /// Where the rate stands among the rates; an unlisted rate counts as normal.
    pub open spec fn index(self) -> int {
        if rate_table().contains(self.hundredths) {
            self.hundredths as int / 25 - 1
        } else {
            normal_rate_index()
        }
    }

    /// The rate `step` places further in the table, which has two ends.
    pub open spec fn stepped(self, step: int) -> PlaybackRate {
        let at = self.index() + step;
        let at = if at < 0 {
            0
        } else if at > 7 {
            7
        } else {
            at
        };
        PlaybackRate { hundredths: rate_table()[at] }
    }

    /// The rate `step` places further in the table, which has two ends.
    pub fn step(&self, step: i8) -> (r: PlaybackRate)
        ensures
            r == self.stepped(step as int),
            r.hundredths > 0,
    {
        let h = self.hundredths;
        let listed = h == 25 || h == 50 || h == 75 || h == 100 || h == 125 || h == 150 || h == 175
            || h == 200;
        proof {
            let t = rate_table();
            assert(t[0] == 25 && t[1] == 50 && t[2] == 75 && t[3] == 100 && t[4] == 125 && t[5]
                == 150 && t[6] == 175 && t[7] == 200);
            assert(listed == t.contains(h)) by {
                if t.contains(h) {
                    let k = choose|k: int| 0 <= k < t.len() && t[k] == h;
                    assert(k == 0 || k == 1 || k == 2 || k == 3 || k == 4 || k == 5 || k == 6 || k
                        == 7);
                }
            }
        }
        let current: i32 = if listed {
            h as i32 / 25 - 1
        } else {
            3
        };
        let wanted: i32 = current + step as i32;
        let at: i32 = if wanted < 0 {
            0
        } else if wanted > 7 {
            7
        } else {
            wanted
        };
        PlaybackRate { hundredths: 25 * (at as u32 + 1) }
    }
}

/// Stepping there and back is where it began, away from the ends of the table.
pub proof fn step_back_restores(rate: PlaybackRate, step: int)
    requires
        rate_table().contains(rate.hundredths),
        0 <= rate.index() + step <= 7,
    ensures
        rate.stepped(step).stepped(-step) == rate,
{
    let t = rate_table();
    let k = choose|k: int| 0 <= k < t.len() && t[k] == rate.hundredths;
    assert(k == 0 || k == 1 || k == 2 || k == 3 || k == 4 || k == 5 || k == 6 || k == 7);
    let at = rate.index() + step;
    assert(at == 0 || at == 1 || at == 2 || at == 3 || at == 4 || at == 5 || at == 6 || at == 7);
    assert(t[at] == rate.stepped(step).hundredths);
    assert(t.contains(t[at]));
}

/// A media position that was known at one point in time and advances from
/// there at a fixed rate.
#[derive(Clone, Copy, Debug, PartialEq, Eq, Structural)]
pub struct PlaybackClock {
    pub started: Instant,
    pub base: Duration,
    pub rate: PlaybackRate,
}

impl PlaybackClock {
    pub fn new(started: Instant, base: Duration, rate: PlaybackRate) -> (r: Self)
        ensures
            r == (PlaybackClock { started, base, rate }),
    {
        PlaybackClock { started, base, rate }
    }

    /// The media position at `now`, in nanoseconds.
    pub open spec fn position_nanos(self, now: Instant) -> int {
        let elapsed = if now@ >= self.started@ {
            now@ - self.started@
        } else {
            0
        };
        clamp_nanos(self.base@ + clamp_nanos(elapsed) * self.rate.hundredths / 100)
    }

    /// The media position at `now`.
    pub fn position_at(&self, now: Instant) -> (r: Duration)
        ensures
            r@ == self.position_nanos(now),
    {
        let since = now.saturating_duration_since(self.started);
        let elapsed = since.shorter(Duration { nanos: crate::time::MAX_NANOS });
        assert(elapsed.nanos * self.rate.hundredths <= crate::time::MAX_NANOS * 0xffff_ffff)
            by (nonlinear_arith)
            requires
                elapsed.nanos <= crate::time::MAX_NANOS,
                self.rate.hundredths <= 0xffff_ffff,
        ;
        let played = Duration { nanos: elapsed.nanos * self.rate.hundredths as u128 / 100 };
        self.base.saturating_add(played)
    }

    /// Nanoseconds on the wall clock at which `position` is reached.
    pub open spec fn deadline_nanos(self, position: Duration) -> int
        recommends
            self.rate.hundredths > 0,
    {
        let ahead = if position@ >= self.base@ {
            position@ - self.base@
        } else {
            0
        };
        self.started@ + clamp_nanos(ahead) * 100 / (self.rate.hundredths as int)
    }

    /// Whether `position` has been reached at `now`.
    pub fn is_due(&self, position: Duration, now: Instant) -> (r: bool)
        requires
            self.rate.hundredths > 0,
        ensures
            r == (now@ >= self.deadline_nanos(position)),
    {
        let ahead = position.saturating_sub(self.base).shorter(
            Duration { nanos: crate::time::MAX_NANOS },
        );
        let wait: u128 = ahead.nanos * 100 / self.rate.hundredths as u128;
        now.nanos >= self.started.nanos && now.nanos - self.started.nanos >= wait
    }
}

/// The clock never runs backwards.
pub proof fn position_is_monotone(clock: PlaybackClock, earlier: Instant, later: Instant)
    requires
        earlier@ <= later@,
    ensures
        clock.position_nanos(earlier) <= clock.position_nanos(later),
{
    let a = if earlier@ >= clock.started@ {
        clamp_nanos(earlier@ - clock.started@)
    } else {
        0
    };
    let b = if later@ >= clock.started@ {
        clamp_nanos(later@ - clock.started@)
    } else {
        0
    };
    assert(a <= b);
    assert(a * clock.rate.hundredths / 100 <= b * clock.rate.hundredths / 100) by (nonlinear_arith)
        requires
            0 <= a <= b,
            clock.rate.hundredths >= 0,
    ;
}

/// At normal speed the clock goes with the wall: from its base, by the time that has
/// passed. At another rate it covers as many hundredths of that time.
pub proof fn clock_goes_with_its_rate(clock: PlaybackClock, now: Instant, passed: int)
    requires
        passed >= 0,
        now@ == clock.started@ + passed,
        clock.base@ + passed * clock.rate.hundredths <= MAX_NANOS,
        passed <= MAX_NANOS,
    ensures
        clock.rate.hundredths == 100 ==> clock.position_nanos(now) == clock.base@ + passed,
        ({
            let covered = clock.position_nanos(now) - clock.base@;
            covered * 100 <= passed * clock.rate.hundredths < (covered + 1) * 100
        }),
{
    let all = passed * clock.rate.hundredths;
    assert(all >= 0) by (nonlinear_arith)
        requires
            passed >= 0,
            all == passed * clock.rate.hundredths,
            clock.rate.hundredths >= 0,
    ;
    assert(clock.position_nanos(now) == clock.base@ + all / 100);
}

/// A position that lies ahead is due when the clock has come to it: at normal speed
/// after as much time as it lies ahead, at double speed after half of it.
pub proof fn picture_is_due_when_the_clock_comes_to_it(
    clock: PlaybackClock,
    position: Duration,
    ahead: int,
)
    requires
        ahead >= 0,
        position@ == clock.base@ + ahead,
        position@ <= MAX_NANOS,
        clock.rate.hundredths > 0,
    ensures
        clock.rate.hundredths == 100 ==> clock.deadline_nanos(position) == clock.started@ + ahead,
        clock.rate.hundredths == 200 ==> clock.deadline_nanos(position) == clock.started@ + ahead
            / 2,
        clock.rate.hundredths == 50 ==> clock.deadline_nanos(position) == clock.started@ + ahead
            * 2,
        ({
            let wait = clock.deadline_nanos(position) - clock.started@;
            wait * clock.rate.hundredths <= ahead * 100 < (wait + 1) * clock.rate.hundredths
        }),
{
    let rate = clock.rate.hundredths as int;
    let wait = ahead * 100 / rate;
    vstd::arithmetic::div_mod::lemma_fundamental_div_mod(ahead * 100, rate);
    assert(wait * rate <= ahead * 100 < (wait + 1) * rate) by (nonlinear_arith)
        requires
            ahead * 100 == rate * wait + (ahead * 100) % rate,
            0 <= (ahead * 100) % rate < rate,
    ;
    if rate == 100 {
        assert(wait == ahead) by (nonlinear_arith)
            requires
                wait * 100 <= ahead * 100 < (wait + 1) * 100,
        ;
    }
    if rate == 50 {
        assert(wait == ahead * 2) by (nonlinear_arith)
            requires
                wait * 50 <= ahead * 100 < (wait + 1) * 50,
        ;
    }
    if rate == 200 {
        assert(wait == ahead / 2) by (nonlinear_arith)
            requires
                wait * 200 <= ahead * 100 < (wait + 1) * 200,
        ;
    }
}

/// A position that was passed already is due at once.
pub proof fn passed_position_is_due_at_once(clock: PlaybackClock, position: Duration)
    requires
        position@ <= clock.base@,
        clock.rate.hundredths > 0,
    ensures
        clock.deadline_nanos(position) == clock.started@,
{
    let rate = clock.rate.hundredths as int;
    assert(0int / rate == 0) by (nonlinear_arith)
        requires
            rate > 0,
    ;
}

/// A rate that is not in the table is left as if it were the normal one.
pub proof fn unlisted_rate_counts_as_normal(rate: PlaybackRate)
    requires
        !(rate.hundredths % 25 == 0 && 25 <= rate.hundredths <= 200),
    ensures
        rate.stepped(0).hundredths == 100,
        rate.stepped(1).hundredths == 125,
        rate.stepped(-1).hundredths == 75,
        rate.stepped(4).hundredths == 200,
        rate.stepped(-3).hundredths == 25,
{
    let t = rate_table();
    assert forall|k: int| 0 <= k < t.len() implies #[trigger] t[k] != rate.hundredths by {}
    assert(!t.contains(rate.hundredths));
}

} // verus!
