//! Bookkeeping for the decode worker: which one takes commands, how many are
//! alive, and how long to wait for them to leave.
use vstd::prelude::*;
use crate::media::VideoDecodePreference;
use crate::time::Instant;

verus! {

/// Nanoseconds that a blocking teardown waits at most for workers to leave.
pub const WORKER_JOIN_TIMEOUT_NANOS: u128 = 2_000_000_000;

/// The current decode worker, if any. `control` finds its command channel.
#[derive(Clone, Copy, Debug, PartialEq, Eq, Structural)]
pub struct DecodeThreadHandle {
    pub control: Option<u64>,
    pub preference: Option<VideoDecodePreference>,
    pub active_worker_count: u32,
}

/// What a blocking teardown does next.
#[derive(Clone, Copy, Debug, PartialEq, Eq, Structural)]
pub enum TeardownStep {
    /// Look again in a millisecond.
    Wait,
    /// Every worker has left: join the thread.
    Join,
    /// The time is over: leave the thread to itself.
    Detach,
}

impl Default for DecodeThreadHandle {
    fn default() -> (r: Self)
        ensures
            r == DecodeThreadHandle::idle(0),
    {
        Self::new()
    }
}

impl DecodeThreadHandle {
    /// No worker takes commands; `workers` are still alive.
    pub open spec fn idle(workers: u32) -> Self {
        DecodeThreadHandle { control: None, preference: None, active_worker_count: workers }
    }

    pub fn new() -> (r: Self)
        ensures
            r == DecodeThreadHandle::idle(0),
    {
        DecodeThreadHandle { control: None, preference: None, active_worker_count: 0 }
    }

    /// The handle after a worker was registered.
    pub open spec fn spawned(self, control: u64, preference: VideoDecodePreference) -> Self {
        DecodeThreadHandle {
            control: Some(control),
            preference: Some(preference),
            active_worker_count: if self.active_worker_count == u32::MAX {
                0
            } else {
                (self.active_worker_count + 1) as u32
            },
        }
    }

    /// Registers a worker that is about to start; returns how many are alive.
    pub fn prepare_spawn(&mut self, control: u64, preference: VideoDecodePreference) -> (r: u32)
        ensures
            *final(self) == old(self).spawned(control, preference),
            r == final(self).active_worker_count,
    {
        self.control = Some(control);
        self.preference = Some(preference);
        self.active_worker_count = self.active_worker_count.wrapping_add(1);
        self.active_worker_count
    }

    /// The handle after a worker left.
    pub open spec fn left(self) -> Self {
        DecodeThreadHandle {
            active_worker_count: if self.active_worker_count == 0 {
                0
            } else {
                (self.active_worker_count - 1) as u32
            },
            ..self
        }
    }

    /// Counts a worker out that has left. The command channel stays.
    pub fn worker_exited(&mut self)
        ensures
            *final(self) == old(self).left(),
    {
        self.active_worker_count = self.active_worker_count.saturating_sub(1);
    }

    /// The command channel of the current worker.
    pub fn control(&self) -> (r: Option<u64>)
        ensures
            r == self.control,
    {
        self.control
    }

    /// How many workers are alive.
    pub fn worker_count(&self) -> (r: u32)
        ensures
            r == self.active_worker_count,
    {
        self.active_worker_count
    }

    /// Whether a live worker with this preference takes commands.
    pub open spec fn serving(self, preference: VideoDecodePreference) -> bool {
        self.control is Some && self.preference == Some(preference) && self.active_worker_count > 0
    }

    /// Whether a seek can be handed to the current worker.
    pub fn serves(&self, current_preference: VideoDecodePreference) -> (r: bool)
        ensures
            r == self.serving(current_preference),
    {
        self.control.is_some() && self.active_worker_count > 0 && match self.preference {
            Some(p) => p == current_preference,
            None => false,
        }
    }

    /// Lets go of the current worker; returns the channel that has to be told
    /// to shut down.
    pub fn teardown(&mut self) -> (r: Option<u64>)
        ensures
            r == old(self).control,
            *final(self) == DecodeThreadHandle::idle(old(self).active_worker_count),
    {
        let control = self.control;
        self.control = None;
        self.preference = None;
        control
    }
}

/// What a blocking teardown that began at `started` does at `now`.
pub fn teardown_step(workers: u32, started: Instant, now: Instant) -> (r: TeardownStep)
    ensures
        r == (if workers == 0 {
            TeardownStep::Join
        } else if now@ < started@ + WORKER_JOIN_TIMEOUT_NANOS {
            TeardownStep::Wait
        } else {
            TeardownStep::Detach
        }),
{
    if workers == 0 {
        TeardownStep::Join
    } else if now.saturating_duration_since(started).nanos < WORKER_JOIN_TIMEOUT_NANOS {
        TeardownStep::Wait
    } else {
        TeardownStep::Detach
    }
}

/// A torn down handle serves nothing, and a worker registered after it serves
/// its own preference alone.
pub proof fn respawn_serves(
    h: DecodeThreadHandle,
    control: u64,
    preference: VideoDecodePreference,
    wanted: VideoDecodePreference,
)
    requires
        h.active_worker_count < u32::MAX,
    ensures
        !DecodeThreadHandle::idle(h.active_worker_count).serving(wanted),
        DecodeThreadHandle::idle(h.active_worker_count).spawned(control, preference).serving(wanted)
            == (wanted == preference),
{
}

/// A handle whose only worker left serves nothing, whatever channel it holds.
pub proof fn dead_worker_serves_nothing(h: DecodeThreadHandle, wanted: VideoDecodePreference)
    requires
        h.active_worker_count <= 1,
    ensures
        !h.left().serving(wanted),
        h.left().control == h.control,
{
}

/// Workers that come are counted and workers that leave are counted off; only
/// the last one that came takes commands, for the preference it was started with
/// and as long as one is alive.
pub proof fn last_worker_takes_commands(
    h: DecodeThreadHandle,
    control: u64,
    started_with: VideoDecodePreference,
    wanted: VideoDecodePreference,
)
    requires
        h.active_worker_count < u32::MAX,
    ensures
        ({
            let s = h.spawned(control, started_with);
            &&& s.active_worker_count == h.active_worker_count + 1
            &&& s.left().active_worker_count == h.active_worker_count
            &&& s.control == Some(control)
            &&& s.left().control == Some(control)
            &&& s.serving(wanted) <==> wanted == started_with
            &&& h.active_worker_count == 0 ==> !s.left().serving(wanted)
            &&& h.active_worker_count == 0 ==> h.left().active_worker_count == 0
            &&& DecodeThreadHandle::idle(s.active_worker_count).active_worker_count
                == s.active_worker_count
            &&& DecodeThreadHandle::idle(s.active_worker_count).control is None
        }),
{
}

} // verus!
