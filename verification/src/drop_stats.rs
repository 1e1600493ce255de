//! How many video frames were dropped, by cause.
use vstd::prelude::*;

verus! {

/// Why a video frame was dropped.
#[derive(Clone, Copy, Debug, PartialEq, Eq, Structural)]
pub enum VideoDropCause {
    QueueOverflow,
    SurfaceMismatch,
    SchedulerLate,
}

/// Dropped frames, by cause.
#[derive(Clone, Copy, Debug, PartialEq, Eq, Structural)]
pub struct VideoDropBuckets {
    pub queue_overflow: u64,
    pub surface_mismatch: u64,
    pub scheduler_late: u64,
}

/// One more, unless the counter is full.
pub open spec fn counted(n: u64) -> u64 {
    if n == u64::MAX {
        n
    } else {
        (n + 1) as u64
    }
}

impl Default for VideoDropBuckets {
    fn default() -> (r: Self)
        ensures
            r == VideoDropBuckets::none(),
    {
        VideoDropBuckets { queue_overflow: 0, surface_mismatch: 0, scheduler_late: 0 }
    }
}

impl VideoDropBuckets {
    /// Nothing dropped.
    pub open spec fn none() -> Self {
        VideoDropBuckets { queue_overflow: 0, surface_mismatch: 0, scheduler_late: 0 }
    }

    /// The counters after one more drop for `cause`.
    pub open spec fn noted(self, cause: VideoDropCause) -> Self {
        match cause {
            VideoDropCause::QueueOverflow => VideoDropBuckets {
                queue_overflow: counted(self.queue_overflow),
                ..self
            },
            VideoDropCause::SurfaceMismatch => VideoDropBuckets {
                surface_mismatch: counted(self.surface_mismatch),
                ..self
            },
            VideoDropCause::SchedulerLate => VideoDropBuckets {
                scheduler_late: counted(self.scheduler_late),
                ..self
            },
        }
    }

    /// Counts one dropped frame.
    pub fn note(&mut self, cause: VideoDropCause)
        ensures
            *final(self) == old(self).noted(cause),
    {
        match cause {
            VideoDropCause::QueueOverflow => {
                self.queue_overflow = self.queue_overflow.saturating_add(1);
            },
            VideoDropCause::SurfaceMismatch => {
                self.surface_mismatch = self.surface_mismatch.saturating_add(1);
            },
            VideoDropCause::SchedulerLate => {
                self.scheduler_late = self.scheduler_late.saturating_add(1);
            },
        }
    }
}

/// Each dropped frame is counted once, under its own cause.
pub proof fn drop_is_counted_under_its_cause(b: VideoDropBuckets)
    requires
        b.queue_overflow < u64::MAX,
        b.surface_mismatch < u64::MAX,
        b.scheduler_late < u64::MAX,
    ensures
        b.noted(VideoDropCause::QueueOverflow) == (VideoDropBuckets {
            queue_overflow: (b.queue_overflow + 1) as u64,
            surface_mismatch: b.surface_mismatch,
            scheduler_late: b.scheduler_late,
        }),
        b.noted(VideoDropCause::SurfaceMismatch) == (VideoDropBuckets {
            queue_overflow: b.queue_overflow,
            surface_mismatch: (b.surface_mismatch + 1) as u64,
            scheduler_late: b.scheduler_late,
        }),
        b.noted(VideoDropCause::SchedulerLate) == (VideoDropBuckets {
            queue_overflow: b.queue_overflow,
            surface_mismatch: b.surface_mismatch,
            scheduler_late: (b.scheduler_late + 1) as u64,
        }),
        VideoDropBuckets::none() == (VideoDropBuckets {
            queue_overflow: 0,
            surface_mismatch: 0,
            scheduler_late: 0,
        }),
{
}

} // verus!
