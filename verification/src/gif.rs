use vstd::prelude::*;

verus! {

/// Total duration of the frames.
pub open spec fn total_duration<T>(frames: Seq<(u128, T)>) -> int
    decreases frames.len(),
{
    if frames.len() == 0 {
        0
    } else {
        total_duration(frames.drop_last()) + frames.last().0
    }
}

/// The frame shown `t` milliseconds into one pass: the first whose end lies
/// after `t`; the last frame when `t` is past them all.
pub open spec fn frame_at<T>(frames: Seq<(u128, T)>, t: int) -> int
    decreases frames.len(),
{
    if frames.len() <= 1 {
        0
    } else if t < frames[0].0 {
        0
    } else {
        1 + frame_at(frames.drop_first(), t - frames[0].0)
    }
}

/// An animated line texture: frames with their durations in milliseconds.
pub struct GifFrames<T> {
    pub frames: Vec<(u128, T)>,
    pub total_time: u128,
}

proof fn lemma_total_prefix<T>(frames: Seq<(u128, T)>, i: int)
    requires
        0 <= i < frames.len(),
    ensures
        total_duration(frames.subrange(0, i + 1)) == total_duration(frames.subrange(0, i)) + frames[i].0,
{
    assert(frames.subrange(0, i + 1).drop_last() == frames.subrange(0, i));
}

proof fn lemma_total_nonneg<T>(frames: Seq<(u128, T)>)
    ensures
        total_duration(frames) >= 0,
    decreases frames.len(),
{
    if frames.len() > 0 {
        lemma_total_nonneg(frames.drop_last());
    }
}

proof fn lemma_frame_at_bound<T>(frames: Seq<(u128, T)>, t: int)
    ensures
        0 <= frame_at(frames, t),
        frames.len() > 0 ==> frame_at(frames, t) < frames.len(),
    decreases frames.len(),
{
    if frames.len() > 1 && t >= frames[0].0 {
        lemma_frame_at_bound(frames.drop_first(), t - frames[0].0);
    }
}

impl<T> GifFrames<T> {
    /// The total is the sum of the durations.
    pub open spec fn wf(&self) -> bool {
        self.total_time == total_duration(self.frames@)
    }

    /// Frames with their durations; the total is their sum.
    pub fn new(frames: Vec<(u128, T)>) -> (res: GifFrames<T>)
        requires
            total_duration(frames@) <= u128::MAX,
        ensures
            res.wf(),
            res.frames@ == frames@,
    {
        let mut total: u128 = 0;
        let mut i: usize = 0;
        while i < frames.len()
            invariant
                i <= frames@.len(),
                total == total_duration(frames@.subrange(0, i as int)),
                total_duration(frames@) <= u128::MAX,
            decreases frames@.len() - i,
        {
            proof {
                lemma_total_prefix(frames@, i as int);
                lemma_total_bounded(frames@, (i + 1) as int);
            }
            total = total + frames[i].0;
            i = i + 1;
        }
        assert(frames@.subrange(0, frames@.len() as int) == frames@);
        GifFrames { frames, total_time: total }
    }

    /// The total duration of one pass.
    pub fn total_time(&self) -> (res: u128)
        ensures
            res == self.total_time,
    {
        self.total_time
    }

    /// The frame shown at `time` milliseconds, the animation looping.
    pub fn get_time_frame(&self, time: u128) -> (res: &T)
        requires
            self.wf(),
            self.total_time > 0,
        ensures
            0 <= frame_at(self.frames@, (time % self.total_time) as int) < self.frames@.len(),
            *res == self.frames@[frame_at(self.frames@, (time % self.total_time) as int)].1,
    {
        proof {
            if self.frames@.len() == 0 {
                assert(total_duration(self.frames@) == 0);
            }
            lemma_frame_at_bound(self.frames@, (time % self.total_time) as int);
        }
        let ghost t0 = (time % self.total_time) as int;
        let mut t = time % self.total_time;
        let mut i: usize = 0;
        assert(self.frames@.subrange(0, self.frames@.len() as int) == self.frames@);
        while i < self.frames.len()
            invariant
                t0 == (time % self.total_time) as int,
                self.frames@.len() > 0,
                i < self.frames@.len(),
                frame_at(self.frames@, t0) == i + frame_at(self.frames@.subrange(i as int, self.frames@.len() as int), t as int),
            decreases self.frames@.len() - i,
        {
            let ghost rest = self.frames@.subrange(i as int, self.frames@.len() as int);
            if t < self.frames[i].0 || i + 1 == self.frames.len() {
                proof {
                    assert(rest[0] == self.frames@[i as int]);
                }
                return &self.frames[i].1;
            }
            proof {
                assert(rest[0] == self.frames@[i as int]);
                assert(rest.drop_first() == self.frames@.subrange(i + 1, self.frames@.len() as int));
            }
            t = t - self.frames[i].0;
            i = i + 1;
        }
        let n = self.frames.len();
        &self.frames[n - 1].1
    }
}

proof fn lemma_total_bounded<T>(frames: Seq<(u128, T)>, k: int)
    requires
        0 <= k <= frames.len(),
    ensures
        total_duration(frames.subrange(0, k)) <= total_duration(frames),
    decreases frames.len() - k,
{
    if k < frames.len() {
        lemma_total_bounded(frames, k + 1);
        lemma_total_prefix(frames, k);
    } else {
        assert(frames.subrange(0, k) == frames);
    }
}

} // verus!
