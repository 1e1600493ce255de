//! The bounded queue of decoded video frames, in the order of their time stamps.
use std::collections::VecDeque;
use vstd::prelude::*;
use crate::media::DecodedVideoFrame;

verus! {

/// Frames that wait to be shown, oldest time stamp first.
#[derive(Debug)]
pub struct VideoFrameQueue {
    pub frames: VecDeque<DecodedVideoFrame>,
    pub capacity: usize,
}

/// Whether time stamps never decrease.
pub open spec fn in_pts_order(s: Seq<DecodedVideoFrame>) -> bool {
    forall|i: int, j: int| 0 <= i <= j < s.len() ==> s[i].pts@ <= s[j].pts@
}

/// Where a frame is queued: behind every frame with an earlier time stamp;
/// behind all of them if none has a later one.
pub open spec fn insert_position(s: Seq<DecodedVideoFrame>, frame: DecodedVideoFrame) -> int {
    if s.len() == 0 || s.last().pts@ <= frame.pts@ {
        s.len() as int
    } else {
        first_not_before(s, frame.pts@)
    }
}

/// How many leading frames have an earlier time stamp.
pub open spec fn first_not_before(s: Seq<DecodedVideoFrame>, pts: int) -> int
    decreases s.len(),
{
    if s.len() == 0 || s[0].pts@ >= pts {
        0
    } else {
        1 + first_not_before(s.drop_first(), pts)
    }
}

proof fn first_not_before_is(s: Seq<DecodedVideoFrame>, pts: int, at: int)
    requires
        0 <= at <= s.len(),
        forall|k: int| 0 <= k < at ==> s[k].pts@ < pts,
        at < s.len() ==> s[at].pts@ >= pts,
    ensures
        first_not_before(s, pts) == at,
    decreases s.len(),
{
    if at > 0 {
        let rest = s.drop_first();
        assert forall|k: int| 0 <= k < at - 1 implies rest[k].pts@ < pts by {
            assert(rest[k] == s[k + 1]);
        }
        if at < s.len() {
            assert(rest[at - 1] == s[at]);
        }
        first_not_before_is(rest, pts, at - 1);
    }
}

impl View for VideoFrameQueue {
    type V = Seq<DecodedVideoFrame>;

    open spec fn view(&self) -> Seq<DecodedVideoFrame> {
        self.frames@
    }
}

impl VideoFrameQueue {
    /// The frames are in the order of their time stamps.
    pub open spec fn wf(self) -> bool {
        in_pts_order(self@)
    }

    pub fn with_capacity(capacity: usize) -> (r: Self)
        ensures
            r.wf(),
            r@.len() == 0,
            r.capacity == capacity,
    {
        VideoFrameQueue { frames: VecDeque::new(), capacity }
    }

    pub fn len(&self) -> (r: usize)
        ensures
            r == self@.len(),
    {
        self.frames.len()
    }

    pub fn is_empty(&self) -> (r: bool)
        ensures
            r == (self@.len() == 0),
    {
        self.frames.len() == 0
    }

    /// Whether the queue holds as many frames as it should.
    pub fn is_full(&self) -> (r: bool)
        ensures
            r == (self@.len() >= self.capacity),
    {
        self.frames.len() >= self.capacity
    }

    /// The frame at a place in the queue.
    pub fn get(&self, index: usize) -> (r: Option<&DecodedVideoFrame>)
        ensures
            r == (if index < self@.len() {
                Some(&self@[index as int])
            } else {
                None
            }),
    {
        if index < self.frames.len() {
            Some(&self.frames[index])
        } else {
            None
        }
    }

    /// The next frame to show.
    pub fn front(&self) -> (r: Option<&DecodedVideoFrame>)
        ensures
            r == (if self@.len() > 0 {
                Some(&self@[0])
            } else {
                None
            }),
    {
        self.get(0)
    }

    /// The frame behind the next one.
    pub fn peek_second(&self) -> (r: Option<&DecodedVideoFrame>)
        ensures
            r == (if self@.len() > 1 {
                Some(&self@[1])
            } else {
                None
            }),
    {
        self.get(1)
    }

    /// Takes the oldest frame out.
    pub fn pop_front(&mut self) -> (r: Option<DecodedVideoFrame>)
        ensures
            final(self).capacity == old(self).capacity,
            old(self).wf() ==> final(self).wf(),
            if old(self)@.len() > 0 {
                r == Some(old(self)@[0]) && final(self)@ == old(self)@.drop_first()
            } else {
                r is None && final(self)@ == old(self)@
            },
    {
        let r = self.frames.pop_front();
        proof {
            if old(self)@.len() > 0 {
                assert(self@ =~= old(self)@.drop_first());
            }
        }
        r
    }

    /// The queued frames, oldest first.
    pub fn iter(&self) -> (r: Vec<DecodedVideoFrame>)
        ensures
            r@ == self@,
    {
        let mut out: Vec<DecodedVideoFrame> = Vec::new();
        let mut i: usize = 0;
        while i < self.frames.len()
            invariant
                i <= self@.len(),
                out@ == self@.take(i as int),
            decreases self@.len() - i,
        {
            out.push(self.frames[i]);
            proof {
                assert(self@.take(i + 1) =~= self@.take(i as int).push(self@[i as int]));
            }
            i = i + 1;
        }
        proof {
            assert(self@.take(self@.len() as int) =~= self@);
        }
        out
    }

    /// Queues a frame in the order of the time stamps. Most frames arrive in
    /// order and go to the end; the place of any other is found by bisection.
    pub fn insert_ordered(&mut self, frame: DecodedVideoFrame)
        requires
            old(self).wf(),
        ensures
            final(self).wf(),
            final(self).capacity == old(self).capacity,
            0 <= insert_position(old(self)@, frame) <= old(self)@.len(),
            final(self)@ == old(self)@.insert(insert_position(old(self)@, frame), frame),
    {
        let len: usize = self.frames.len();
        let mut at: usize = len;
        if len > 0 && frame.pts.nanos < self.frames[len - 1].pts.nanos {
            let mut lo: usize = 0;
            let mut hi: usize = len;
            while lo < hi
                invariant
                    self.wf(),
                    lo <= hi <= len == self@.len(),
                    forall|k: int| 0 <= k < lo ==> self@[k].pts@ < frame.pts@,
                    forall|k: int| hi <= k < len ==> self@[k].pts@ >= frame.pts@,
                decreases hi - lo,
            {
                let mid: usize = lo + (hi - lo) / 2;
                if self.frames[mid].pts.nanos < frame.pts.nanos {
                    lo = mid + 1;
                } else {
                    hi = mid;
                }
            }
            at = lo;
            proof {
                first_not_before_is(self@, frame.pts@, at as int);
            }
        }
        self.frames.insert(at, frame);
        proof {
            let before = old(self)@;
            assert(self@ =~= before.insert(at as int, frame));
            assert forall|i: int, j: int| 0 <= i <= j < self@.len() implies self@[i].pts@
                <= self@[j].pts@ by {
                let a = if i < at { i } else { i - 1 };
                let b = if j < at { j } else { j - 1 };
                if i != at && j != at {
                    assert(before[a].pts@ <= before[b].pts@);
                }
            }
        }
    }

    /// Takes the oldest frame out if there are more than should be.
    pub fn evict_overflow(&mut self) -> (r: Option<DecodedVideoFrame>)
        ensures
            final(self).capacity == old(self).capacity,
            old(self).wf() ==> final(self).wf(),
            if old(self)@.len() > old(self).capacity {
                r == Some(old(self)@[0]) && final(self)@ == old(self)@.drop_first()
            } else {
                r is None && final(self)@ == old(self)@
            },
    {
        if self.frames.len() > self.capacity {
            self.pop_front()
        } else {
            None
        }
    }
}

/// Queueing a frame loses none and adds that one.
pub proof fn insert_keeps_all(s: Seq<DecodedVideoFrame>, frame: DecodedVideoFrame)
    requires
        0 <= insert_position(s, frame) <= s.len(),
    ensures
        s.insert(insert_position(s, frame), frame).to_multiset() == s.to_multiset().insert(frame),
{
    let at = insert_position(s, frame);
    s.to_multiset_ensures();
    let t = s.insert(at, frame);
    let a = s.take(at);
    let b = s.skip(at);
    assert(t =~= a + (seq![frame] + b));
    assert(s =~= a + b);
    vstd::seq_lib::lemma_multiset_commutative(a, seq![frame] + b);
    vstd::seq_lib::lemma_multiset_commutative(seq![frame], b);
    vstd::seq_lib::lemma_multiset_commutative(a, b);
    assert(seq![frame] =~= Seq::<DecodedVideoFrame>::empty().push(frame));
    Seq::<DecodedVideoFrame>::empty().to_multiset_ensures();
    assert(seq![frame].to_multiset() =~= vstd::multiset::Multiset::singleton(frame)) by {
        Seq::<DecodedVideoFrame>::empty().to_multiset_ensures();
        assert(Seq::<DecodedVideoFrame>::empty().to_multiset().len() == 0);
    }
    assert(t.to_multiset() =~= s.to_multiset().insert(frame));
}

/// A frame that arrives in order goes to the end.
pub proof fn in_order_frame_is_appended(s: Seq<DecodedVideoFrame>, frame: DecodedVideoFrame)
    requires
        s.len() == 0 || s.last().pts@ <= frame.pts@,
    ensures
        s.insert(insert_position(s, frame), frame) == s.push(frame),
{
    assert(s.insert(s.len() as int, frame) =~= s.push(frame));
}

/// A queued frame stands behind the frames of earlier time stamps and before
/// those of later ones; behind all frames where none is later.
pub proof fn frame_is_queued_by_its_time(s: Seq<DecodedVideoFrame>, frame: DecodedVideoFrame, k: int)
    requires
        in_pts_order(s),
        0 <= k < s.len(),
    ensures
        0 <= insert_position(s, frame) <= s.len(),
        s[k].pts@ < frame.pts@ ==> k < insert_position(s, frame),
        s[k].pts@ > frame.pts@ ==> insert_position(s, frame) <= k,
        s.last().pts@ > frame.pts@ && s[k].pts@ == frame.pts@ ==> insert_position(s, frame) <= k,
        s.last().pts@ <= frame.pts@ ==> insert_position(s, frame) == s.len(),
{
    let n = earlier_frames(s, frame.pts@);
    first_not_before_is(s, frame.pts@, n);
    assert(s[k].pts@ <= s.last().pts@);
}

/// How many leading frames of a queue have an earlier time stamp.
proof fn earlier_frames(s: Seq<DecodedVideoFrame>, pts: int) -> (n: int)
    requires
        in_pts_order(s),
    ensures
        0 <= n <= s.len(),
        forall|k: int| 0 <= k < n ==> s[k].pts@ < pts,
        forall|k: int| n <= k < s.len() ==> s[k].pts@ >= pts,
    decreases s.len(),
{
    if s.len() == 0 || s.last().pts@ < pts {
        assert forall|k: int| 0 <= k < s.len() implies s[k].pts@ < pts by {
            assert(s[k].pts@ <= s.last().pts@);
        }
        s.len() as int
    } else {
        let rest = s.drop_last();
        assert(in_pts_order(rest));
        let n = earlier_frames(rest, pts);
        assert forall|k: int| 0 <= k < n implies s[k].pts@ < pts by {
            assert(s[k] == rest[k]);
        }
        assert forall|k: int| n <= k < s.len() implies s[k].pts@ >= pts by {
            if k < rest.len() {
                assert(s[k] == rest[k]);
            }
        }
        n
    }
}

} // verus!
