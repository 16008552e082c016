use vstd::prelude::*;

verus! {

pub open spec fn abs_diff(x: u8, y: u8) -> nat {
    if x >= y {
        (x - y) as nat
    } else {
        (y - x) as nat
    }
}

/// The sum of `|a[i] - b[i]|` over the first `n` positions.
pub open spec fn abs_diff_sum(a: Seq<u8>, b: Seq<u8>, n: nat) -> nat
    decreases n,
{
    if n == 0 {
        0
    } else {
        abs_diff_sum(a, b, (n - 1) as nat) + abs_diff(a[n - 1], b[n - 1])
    }
}

proof fn lemma_abs_diff_sum_bound(a: Seq<u8>, b: Seq<u8>, n: nat)
    ensures
        abs_diff_sum(a, b, n) <= 255 * n,
    decreases n,
{
    if n > 0 {
        lemma_abs_diff_sum_bound(a, b, (n - 1) as nat);
    }
}

/// The mean absolute difference of two raw frame buffers, as the fraction
/// `sum / (255 * samples)` in `[0, 1]`, over the positions that both have.
#[derive(Clone, Copy, Debug, PartialEq, Eq, Structural)]
pub struct FrameDifference {
    pub sum: u128,
    pub samples: u64,
}

/// Whether a difference is above a threshold given in millionths:
/// `sum / (255 * samples) > threshold_ppm / 1_000_000`. No difference over
/// zero samples is above any threshold.
pub open spec fn exceeds(d: FrameDifference, threshold_ppm: nat) -> bool {
    d.sum * 1_000_000 > threshold_ppm * 255 * d.samples
}

/// A frame's presentation offset in seconds as `ticks / den`.
#[derive(Clone, Copy, Debug, PartialEq, Eq, Structural)]
pub struct TimeBase {
    pub num: u32,
    pub den: u32,
}

/// The difference metric of two raw frame buffers.
pub fn frame_difference(a: &[u8], b: &[u8]) -> (r: FrameDifference)
    ensures
        r.samples as nat == if a@.len() <= b@.len() { a@.len() } else { b@.len() },
        r.sum as nat == abs_diff_sum(a@, b@, r.samples as nat),
        r.sum <= 255 * r.samples,
{
    let len: usize = if a.len() <= b.len() {
        a.len()
    } else {
        b.len()
    };
    let mut sum: u128 = 0;
    let mut i: usize = 0;
    while i < len
        invariant
            len <= a@.len(),
            len <= b@.len(),
            i <= len,
            sum as nat == abs_diff_sum(a@, b@, i as nat),
            len <= u64::MAX,
        decreases len - i,
    {
        proof {
            lemma_abs_diff_sum_bound(a@, b@, i as nat);
        }
        let x = a[i];
        let y = b[i];
        let d: u8 = if x >= y {
            x - y
        } else {
            y - x
        };
        sum = sum + d as u128;
        i = i + 1;
    }
    proof {
        lemma_abs_diff_sum_bound(a@, b@, len as nat);
    }
    FrameDifference { sum, samples: len as u64 }
}

/// Whether `d` is above the threshold of `threshold_ppm` millionths.
pub fn difference_exceeds(d: FrameDifference, threshold_ppm: u32) -> (r: bool)
    requires
        d.sum <= 255 * d.samples,
    ensures
        r == exceeds(d, threshold_ppm as nat),
{
    assert(d.sum * 1_000_000 <= u128::MAX) by (nonlinear_arith)
        requires
            d.sum <= 255 * d.samples,
            d.samples <= u64::MAX,
    ;
    assert(threshold_ppm * 255 * d.samples <= u128::MAX) by (nonlinear_arith)
        requires
            threshold_ppm <= u32::MAX,
            d.samples <= u64::MAX,
    ;
    d.sum * 1_000_000 > threshold_ppm as u128 * 255 * d.samples as u128
}

/// A recorded scene cut: the frame's index, its offset in time-base ticks
/// (`frame * time_base.num`), and its difference from the frame before.
#[derive(Clone, Copy, Debug, PartialEq, Eq, Structural)]
pub struct SceneCut {
    pub frame: u64,
    pub ticks: u128,
    pub difference: FrameDifference,
}

/// The difference metric of two frames over the positions both have.
pub open spec fn difference_of(a: Seq<u8>, b: Seq<u8>) -> FrameDifference {
    let n = if a.len() <= b.len() {
        a.len()
    } else {
        b.len()
    };
    FrameDifference { sum: abs_diff_sum(a, b, n) as u128, samples: n as u64 }
}

/// The cuts found in a sequence of decoded frames: frame `n` is a cut where
/// its difference from frame `n - 1` is above the threshold.
pub open spec fn cuts_of(frames: Seq<Seq<u8>>, threshold_ppm: nat, tb_num: nat) -> Seq<SceneCut>
    decreases frames.len(),
{
    if frames.len() <= 1 {
        Seq::empty()
    } else {
        let n = (frames.len() - 1) as nat;
        let d = difference_of(frames[n - 1], frames[n as int]);
        let earlier = cuts_of(frames.drop_last(), threshold_ppm, tb_num);
        if exceeds(d, threshold_ppm) {
            earlier.push(SceneCut { frame: n as u64, ticks: (n * tb_num) as u128, difference: d })
        } else {
            earlier
        }
    }
}

/// Compares each decoded frame with the one before it and records a cut
/// wherever the difference is above the threshold.
pub struct SceneCutDetector {
    pub threshold_ppm: u32,
    pub time_base: TimeBase,
    pub previous: Option<Vec<u8>>,
    pub frame_index: u64,
    pub cuts: Vec<SceneCut>,
    /// Every frame taken so far, in order.
    pub frames: Ghost<Seq<Seq<u8>>>,
}

impl SceneCutDetector {
    pub open spec fn wf(&self) -> bool {
        &&& self.time_base.num >= 1
        &&& self.time_base.den >= 1
        &&& (self.previous is None <==> self.frame_index == 0)
        &&& self.frames@.len() == self.frame_index
        &&& (self.previous matches Some(p) ==> p@ == self.frames@.last())
        &&& self.cuts@ == cuts_of(self.frames@, self.threshold_ppm as nat, self.time_base.num as nat)
        &&& forall|i: int|
            0 <= i < self.cuts@.len() ==> {
                let c = #[trigger] self.cuts@[i];
                &&& c.frame < self.frame_index
                &&& c.ticks == c.frame * self.time_base.num
                &&& exceeds(c.difference, self.threshold_ppm as nat)
            }
        &&& forall|i: int, j: int|
            0 <= i < j < self.cuts@.len() ==> #[trigger] self.cuts@[i].frame < #[trigger] self.cuts@[j].frame
    }

    /// A detector with no frame seen yet. The time base must be positive.
    pub fn new(threshold_ppm: u32, time_base: TimeBase) -> (r: SceneCutDetector)
        requires
            time_base.num >= 1,
            time_base.den >= 1,
        ensures
            r.wf(),
            r.threshold_ppm == threshold_ppm,
            r.time_base == time_base,
            r.frame_index == 0,
            r.cuts@.len() == 0,
            r.frames@.len() == 0,
    {
        SceneCutDetector {
            threshold_ppm,
            time_base,
            previous: None,
            frame_index: 0,
            cuts: Vec::new(),
            frames: Ghost(Seq::empty()),
        }
    }

    /// Takes the next decoded frame's raw buffer.
    pub fn push_frame(&mut self, data: Vec<u8>)
        requires
            old(self).wf(),
            old(self).frame_index < u64::MAX,
        ensures
            final(self).wf(),
            final(self).threshold_ppm == old(self).threshold_ppm,
            final(self).time_base == old(self).time_base,
            final(self).frame_index == old(self).frame_index + 1,
            final(self).previous == Some(data),
            final(self).frames@ == old(self).frames@.push(data@),
            match old(self).previous {
                None => final(self).cuts@ == old(self).cuts@,
                Some(p) => {
                    let d = FrameDifference {
                        samples: if p@.len() <= data@.len() { p@.len() as u64 } else { data@.len() as u64 },
                        sum: abs_diff_sum(
                            p@,
                            data@,
                            if p@.len() <= data@.len() { p@.len() } else { data@.len() },
                        ) as u128,
                    };
                    if exceeds(d, old(self).threshold_ppm as nat) {
                        final(self).cuts@ == old(self).cuts@.push(
                            SceneCut {
                                frame: old(self).frame_index,
                                ticks: (old(self).frame_index * old(self).time_base.num) as u128,
                                difference: d,
                            },
                        )
                    } else {
                        final(self).cuts@ == old(self).cuts@
                    }
                },
            },
    {
        match &self.previous {
            None => {},
            Some(p) => {
                let d = frame_difference(p.as_slice(), data.as_slice());
                if difference_exceeds(d, self.threshold_ppm) {
                    assert(self.frame_index * self.time_base.num <= u128::MAX) by (nonlinear_arith)
                        requires
                            self.frame_index <= u64::MAX,
                            self.time_base.num <= u32::MAX,
                    ;
                    let cut = SceneCut {
                        frame: self.frame_index,
                        ticks: self.frame_index as u128 * self.time_base.num as u128,
                        difference: d,
                    };
                    self.cuts.push(cut);
                }
            },
        }
        let ghost old_frames = self.frames@;
        proof {
            assert(old_frames.push(data@).drop_last() =~= old_frames);
        }
        self.frames = Ghost(self.frames@.push(data@));
        self.previous = Some(data);
        self.frame_index = self.frame_index + 1;
    }
}

/// Recorded scene cuts come in strictly increasing time, and each one's
/// difference is above the threshold.
pub proof fn lemma_scene_cuts_ordered(d: &SceneCutDetector)
    requires
        d.wf(),
    ensures
        forall|i: int, j: int|
            0 <= i < j < d.cuts@.len() ==> #[trigger] d.cuts@[i].ticks < #[trigger] d.cuts@[j].ticks,
        forall|i: int|
            0 <= i < d.cuts@.len() ==> exceeds(#[trigger] d.cuts@[i].difference, d.threshold_ppm as nat),
{
    assert forall|i: int, j: int| 0 <= i < j < d.cuts@.len() implies #[trigger] d.cuts@[i].ticks
        < #[trigger] d.cuts@[j].ticks by {
        let a = d.cuts@[i];
        let b = d.cuts@[j];
        assert(a.frame < b.frame);
        let n = d.time_base.num;
        assert(a.frame * n < b.frame * n) by (nonlinear_arith)
            requires
                a.frame < b.frame,
                n >= 1,
        ;
    }
    assert forall|i: int| 0 <= i < d.cuts@.len() implies exceeds(
        #[trigger] d.cuts@[i].difference,
        d.threshold_ppm as nat,
    ) by {}
}

/// Scene detection depends on nothing but the decoded frames: two detectors
/// with the same threshold and time base that were given the same frames
/// report the same cuts over the same number of frames, namely `cuts_of`
/// those frames.
pub proof fn lemma_scene_report_rerun(a: &SceneCutDetector, b: &SceneCutDetector)
    requires
        a.wf(),
        b.wf(),
        a.threshold_ppm == b.threshold_ppm,
        a.time_base == b.time_base,
        a.frames@ == b.frames@,
    ensures
        a.cuts@ == b.cuts@,
        a.cuts@ == cuts_of(a.frames@, a.threshold_ppm as nat, a.time_base.num as nat),
        a.frame_index == b.frame_index,
{
}

} // verus!
