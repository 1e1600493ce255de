//! Decoded audio gathered into stretches of about a tenth of a second.
use vstd::prelude::*;
use crate::generations::{OpenGeneration, OperationId, SeekGeneration};
use crate::media::AudioStreamFormat;
use crate::time::Duration;

verus! {

/// A stretch of audio that is handed over.
#[derive(Debug, PartialEq, Eq)]
pub struct PendingAudioFrame {
    pub open_gen: OpenGeneration,
    pub seek_gen: SeekGeneration,
    pub op_id: OperationId,
    pub pts: Duration,
    pub format: AudioStreamFormat,
    pub frame_count: u32,
    pub data: Vec<u8>,
}

/// The stamps that a stretch is handed over with.
#[derive(Clone, Copy, Debug, PartialEq, Eq, Structural)]
pub struct Stamps {
    pub open_gen: OpenGeneration,
    pub seek_gen: SeekGeneration,
    pub op_id: OperationId,
}

/// Audio that was gathered so far.
#[derive(Debug)]
pub struct AudioBatcher {
    pub format: AudioStreamFormat,
    pub pts: Option<Duration>,
    pub frame_count: u32,
    pub data: Vec<u8>,
    pub target_frames: u32,
}

/// What was gathered: the time stamp of its first sample, its length and its
/// bytes.
#[verifier::ext_equal]
pub struct BatchModel {
    pub pts: Option<Duration>,
    pub frame_count: u32,
    pub data: Seq<u8>,
}

/// Nothing gathered.
pub open spec fn empty_batch() -> BatchModel {
    BatchModel { pts: None, frame_count: 0, data: Seq::empty() }
}

/// A sum, at most the largest number.
pub open spec fn sum_frames(a: u32, b: u32) -> u32 {
    if a + b > u32::MAX {
        u32::MAX
    } else {
        (a + b) as u32
    }
}

impl BatchModel {
    /// With one more piece. The time stamp is that of the first.
    pub open spec fn gathered(self, pts: Duration, frame_count: u32, data: Seq<u8>) -> Self {
        BatchModel {
            pts: match self.pts {
                Some(first) => Some(first),
                None => Some(pts),
            },
            frame_count: sum_frames(self.frame_count, frame_count),
            data: self.data + data,
        }
    }
}

impl View for AudioBatcher {
    type V = BatchModel;

    open spec fn view(&self) -> BatchModel {
        BatchModel { pts: self.pts, frame_count: self.frame_count, data: self.data@ }
    }
}

/// Whether a stretch that is handed over holds what was gathered.
pub open spec fn hands_over(
    r: Option<PendingAudioFrame>,
    batch: BatchModel,
    format: AudioStreamFormat,
    stamps: Stamps,
) -> bool {
    match (batch.pts, r) {
        (Some(pts), Some(frame)) => {
            &&& frame.open_gen == stamps.open_gen
            &&& frame.seek_gen == stamps.seek_gen
            &&& frame.op_id == stamps.op_id
            &&& frame.pts == pts
            &&& frame.format == format
            &&& frame.frame_count == batch.frame_count
            &&& frame.data@ == batch.data
        },
        (None, None) => true,
        _ => false,
    }
}

/// One more, unless the counter is full.
pub open spec fn produced_after(n: u64) -> u64 {
    if n == u64::MAX {
        n
    } else {
        (n + 1) as u64
    }
}

impl AudioBatcher {
    pub fn new(format: AudioStreamFormat) -> (r: Self)
        ensures
            r@ == empty_batch(),
            r.format == format,
            r.target_frames == (if format.sample_rate / 10 >= 1024 {
                format.sample_rate / 10
            } else {
                1024
            }),
    {
        let tenth: u32 = format.sample_rate / 10;
        let target_frames: u32 = if tenth >= 1024 {
            tenth
        } else {
            1024
        };
        let data: Vec<u8> = Vec::new();
        proof {
            assert(data@ =~= Seq::<u8>::empty());
        }
        AudioBatcher { format, pts: None, frame_count: 0, data, target_frames }
    }

    /// Gathers a piece; a stretch that is long enough is handed over.
    pub fn push(
        &mut self,
        pts: Duration,
        frame_count: u32,
        data: &Vec<u8>,
        stamps: Stamps,
        produced_frames: &mut u64,
    ) -> (r: Option<PendingAudioFrame>)
        ensures
            final(self).format == old(self).format,
            final(self).target_frames == old(self).target_frames,
            ({
                let batch = old(self)@.gathered(pts, frame_count, data@);
                if batch.frame_count >= old(self).target_frames {
                    &&& hands_over(r, batch, old(self).format, stamps)
                    &&& final(self)@ == empty_batch()
                    &&& *final(produced_frames) == produced_after(*old(produced_frames))
                } else {
                    &&& r is None
                    &&& final(self)@ == batch
                    &&& *final(produced_frames) == *old(produced_frames)
                }
            }),
    {
        if self.pts.is_none() {
            self.pts = Some(pts);
        }
        self.frame_count = self.frame_count.saturating_add(frame_count);
        self.data.extend_from_slice(data.as_slice());
        proof {
            assert(self@ =~= old(self)@.gathered(pts, frame_count, data@));
        }
        if self.frame_count >= self.target_frames {
            return self.flush(stamps, produced_frames);
        }
        None
    }

    /// Forgets what was gathered. After a seek it belongs to another position,
    /// and its time stamp must not stand on what comes next.
    pub fn reset(&mut self)
        ensures
            final(self)@ == empty_batch(),
            final(self).format == old(self).format,
            final(self).target_frames == old(self).target_frames,
    {
        self.pts = None;
        self.frame_count = 0;
        self.data.clear();
        proof {
            assert(self@ =~= empty_batch());
        }
    }

    /// Hands over what was gathered, if anything was.
    pub fn flush(&mut self, stamps: Stamps, produced_frames: &mut u64) -> (r: Option<
        PendingAudioFrame,
    >)
        ensures
            final(self).format == old(self).format,
            final(self).target_frames == old(self).target_frames,
            hands_over(r, old(self)@, old(self).format, stamps),
            old(self)@.pts is Some ==> final(self)@ == empty_batch() && *final(produced_frames)
                == produced_after(*old(produced_frames)),
            old(self)@.pts is None ==> final(self)@ == old(self)@ && *final(produced_frames)
                == *old(produced_frames),
    {
        let pts = match self.pts {
            Some(pts) => pts,
            None => {
                return None;
            },
        };
        *produced_frames = produced_frames.saturating_add(1);
        let mut data: Vec<u8> = Vec::new();
        data.append(&mut self.data);
        let frame_count: u32 = self.frame_count;
        self.pts = None;
        self.frame_count = 0;
        proof {
            assert(data@ =~= old(self)@.data);
            assert(self@ =~= empty_batch());
        }
        Some(
            PendingAudioFrame {
                open_gen: stamps.open_gen,
                seek_gen: stamps.seek_gen,
                op_id: stamps.op_id,
                pts,
                format: self.format,
                frame_count,
                data,
            },
        )
    }
}

/// After a reset the next stretch carries the time stamp of what was pushed
/// after it, whatever was gathered before.
pub proof fn reset_forgets_the_old_time(pts: Duration, frame_count: u32, data: Seq<u8>)
    ensures
        empty_batch().gathered(pts, frame_count, data).pts == Some(pts),
        empty_batch().gathered(pts, frame_count, data).data == data,
{
    assert(Seq::<u8>::empty() + data =~= data);
}

/// Without a reset the first time stamp stays.
pub proof fn first_time_stays(
    batch: BatchModel,
    first: Duration,
    pts: Duration,
    frame_count: u32,
    data: Seq<u8>,
)
    requires
        batch.pts == Some(first),
    ensures
        batch.gathered(pts, frame_count, data).pts == Some(first),
{
}

/// Stretches are joined in the order in which they come: the bytes of one follow
/// those of the other, their frames add up, and the time stamp is that of the
/// first.
pub proof fn stretches_are_joined_in_order(
    first: Duration,
    a: u32,
    x: Seq<u8>,
    second: Duration,
    b: u32,
    y: Seq<u8>,
)
    ensures
        ({
            let batch = empty_batch().gathered(first, a, x).gathered(second, b, y);
            &&& batch.pts == Some(first)
            &&& batch.data == x + y
            &&& a + b <= u32::MAX ==> batch.frame_count == a + b
            &&& a + b > u32::MAX ==> batch.frame_count == u32::MAX
        }),
{
    assert(Seq::<u8>::empty() + x =~= x);
}

/// What was gathered is handed over whole and unchanged, with the stamps of the
/// work it belongs to; nothing is handed over where nothing was gathered.
pub proof fn gathered_sound_is_handed_over_whole(
    r: Option<PendingAudioFrame>,
    batch: BatchModel,
    format: AudioStreamFormat,
    stamps: Stamps,
)
    requires
        hands_over(r, batch, format, stamps),
    ensures
        r is Some <==> batch.pts is Some,
        r matches Some(f) ==> {
            &&& batch.pts == Some(f.pts)
            &&& f.data@ == batch.data
            &&& f.frame_count == batch.frame_count
            &&& f.format == format
            &&& f.open_gen == stamps.open_gen
            &&& f.seek_gen == stamps.seek_gen
            &&& f.op_id == stamps.op_id
        },
{
}

} // verus!
