use vstd::prelude::*;
use vstd::arithmetic::div_mod::lemma_fundamental_div_mod_converse;

verus! {

/// The distance between sampled frames when `count` frames are asked of a
/// source of `total` frames: `total / count`, and at least 1.
pub open spec fn sample_interval(total: nat, count: nat) -> nat
    recommends
        count >= 1,
{
    if total > count {
        total / count
    } else {
        1
    }
}

/// How many multiples of `interval` lie below `n`.
pub open spec fn multiples_below(n: nat, interval: nat) -> nat
    recommends
        interval >= 1,
{
    ((n + interval - 1) as nat) / interval
}

pub open spec fn min_nat(a: nat, b: nat) -> nat {
    if a <= b {
        a
    } else {
        b
    }
}

/// Whether the frame at `index` is kept when every `interval`-th frame is
/// kept and at most `count` are.
pub open spec fn is_sampled(index: nat, interval: nat, count: nat) -> bool
    recommends
        interval >= 1,
{
    index % interval == 0 && index / interval < count
}

proof fn lemma_multiples_step(i: nat, iv: nat)
    requires
        iv >= 1,
    ensures
        multiples_below(i + 1, iv) == multiples_below(i, iv) + (if i % iv == 0 { 1nat } else { 0 }),
        i % iv == 0 ==> multiples_below(i, iv) == i / iv,
        i % iv != 0 ==> multiples_below(i, iv) == i / iv + 1,
{
    let q = (i / iv) as int;
    let r = (i % iv) as int;
    vstd::arithmetic::div_mod::lemma_fundamental_div_mod(i as int, iv as int);
    assert(i == q * iv + r) by {
        vstd::arithmetic::mul::lemma_mul_is_commutative(q, iv as int);
    }
    if r == 0 {
        lemma_fundamental_div_mod_converse((i + iv - 1) as int, iv as int, q, (iv - 1) as int);
        assert((q + 1) * iv == q * iv + iv) by (nonlinear_arith);
        lemma_fundamental_div_mod_converse((i + iv) as int, iv as int, q + 1, 0);
    } else {
        assert((q + 1) * iv == q * iv + iv) by (nonlinear_arith);
        lemma_fundamental_div_mod_converse((i + iv - 1) as int, iv as int, q + 1, r - 1);
        lemma_fundamental_div_mod_converse((i + iv) as int, iv as int, q + 1, r);
    }
}

/// The sampling interval for `count` frames out of `total_frames`.
pub fn frame_interval(total_frames: u64, count: u64) -> (r: u64)
    requires
        count >= 1,
    ensures
        r as nat == sample_interval(total_frames as nat, count as nat),
        r >= 1,
{
    if total_frames > count {
        assert(total_frames / count >= 1) by (nonlinear_arith)
            requires
                total_frames > count,
                count >= 1,
        ;
        total_frames / count
    } else {
        1
    }
}

/// Decides, frame by frame in decoding order, which frames a frame-sample
/// extraction keeps: those whose index is a multiple of the interval, until
/// the requested count is reached.
pub struct FrameSampler {
    pub interval: u64,
    pub count: u64,
    pub next_index: u64,
    pub saved: u64,
}

impl FrameSampler {
    pub open spec fn wf(&self) -> bool {
        &&& self.interval >= 1
        &&& self.saved as nat == min_nat(
            self.count as nat,
            multiples_below(self.next_index as nat, self.interval as nat),
        )
    }

    /// A sampler that asks `count` frames of a source of `total_frames`.
    pub fn new(total_frames: u64, count: u64) -> (r: FrameSampler)
        requires
            count >= 1,
        ensures
            r.wf(),
            r.interval as nat == sample_interval(total_frames as nat, count as nat),
            r.count == count,
            r.next_index == 0,
            r.saved == 0,
    {
        let interval = frame_interval(total_frames, count);
        assert(multiples_below(0, interval as nat) == 0) by {
            lemma_fundamental_div_mod_converse((interval - 1) as int, interval as int, 0, (interval - 1) as int);
        }
        FrameSampler { interval, count, next_index: 0, saved: 0 }
    }

    /// Takes the next decoded frame and says whether it is kept.
    pub fn offer(&mut self) -> (keep: bool)
        requires
            old(self).wf(),
            old(self).next_index < u64::MAX,
        ensures
            final(self).wf(),
            keep == is_sampled(old(self).next_index as nat, old(self).interval as nat, old(self).count as nat),
            final(self).interval == old(self).interval,
            final(self).count == old(self).count,
            final(self).next_index == old(self).next_index + 1,
            final(self).saved == old(self).saved + (if keep { 1u64 } else { 0 }),
    {
        proof {
            lemma_multiples_step(self.next_index as nat, self.interval as nat);
        }
        let keep = self.next_index % self.interval == 0 && self.saved < self.count;
        if keep {
            self.saved = self.saved + 1;
        }
        self.next_index = self.next_index + 1;
        keep
    }

    /// How many frames have been kept so far.
    pub fn saved_count(&self) -> (r: u64)
        ensures
            r == self.saved,
    {
        self.saved
    }
}

/// Frame-sample extraction keeps exactly `min(count, total)` frames of a
/// source of `total` frames: those at indices `0, interval, 2 * interval, ...`,
/// all of which lie inside the source.
pub proof fn lemma_frame_sampling(total: nat, count: nat)
    requires
        count >= 1,
    ensures
        ({
            let iv = sample_interval(total, count);
            let m = min_nat(count, total);
            &&& iv >= 1
            &&& min_nat(count, multiples_below(total, iv)) == m
            &&& forall|k: nat| k < m ==> #[trigger] (k * iv) < total
            &&& forall|k: nat| k < m ==> is_sampled(#[trigger] (k * iv), iv, count)
            &&& forall|i: nat| i < total ==> (#[trigger] is_sampled(i, iv, count) <==> (i % iv == 0 && i / iv < m))
        }),
{
    let iv = sample_interval(total, count);
    let m = min_nat(count, total);
    if total > count {
        assert(iv >= 1 && iv * count <= total) by (nonlinear_arith)
            requires
                iv == total / count,
                total > count,
                count >= 1,
        ;
        assert forall|k: nat| k < m implies #[trigger] (k * iv) < total by {
            assert(k * iv < total) by (nonlinear_arith)
                requires
                    k < count,
                    iv * count <= total,
                    iv >= 1,
            ;
        }
        assert forall|k: nat| k < m implies is_sampled(#[trigger] (k * iv), iv, count) by {
            lemma_fundamental_div_mod_converse((k * iv) as int, iv as int, k as int, 0);
        }
        // count multiples of iv lie below total
        assert(multiples_below(total, iv) >= count) by {
            let q = total / iv;
            vstd::arithmetic::div_mod::lemma_fundamental_div_mod(total as int, iv as int);
            assert(q >= count) by (nonlinear_arith)
                requires
                    q == total / iv,
                    iv * count <= total,
                    iv >= 1,
            ;
            assert(multiples_below(total, iv) >= q) by (nonlinear_arith)
                requires
                    multiples_below(total, iv) == ((total + iv - 1) as nat) / iv,
                    q == total / iv,
                    iv >= 1,
            ;
        }
    } else {
        assert forall|n: nat| #[trigger] (n / 1) == n && n % 1 == 0 by {}
        assert forall|k: nat| k < m implies #[trigger] (k * iv) < total by {}
        assert(multiples_below(total, iv) == total);
    }
}

/// How many frames an animated preview of `duration_ms` milliseconds at
/// `fps` frames per second holds.
pub open spec fn preview_limit(duration_ms: nat, fps: nat) -> nat {
    duration_ms * fps / 1000
}

/// The frame cap of an animated preview, saturated at `u64::MAX`.
pub fn preview_frame_limit(duration_ms: u64, fps: u32) -> (r: u64)
    ensures
        r as nat == min_nat(preview_limit(duration_ms as nat, fps as nat), u64::MAX as nat),
{
    assert(duration_ms * fps <= u128::MAX) by (nonlinear_arith)
        requires
            duration_ms <= u64::MAX,
            fps <= u32::MAX,
    ;
    let prod: u128 = duration_ms as u128 * fps as u128;
    let limit: u128 = prod / 1000;
    if limit > u64::MAX as u128 {
        u64::MAX
    } else {
        limit as u64
    }
}

/// Admits decoded frames into an animated preview until its cap is reached.
pub struct PreviewGate {
    pub limit: u64,
    pub admitted: u64,
}

impl PreviewGate {
    pub open spec fn wf(&self) -> bool {
        self.admitted <= self.limit
    }

    /// A gate for a preview of `duration_ms` milliseconds at `fps` frames per
    /// second, with nothing admitted yet.
    pub fn new(duration_ms: u64, fps: u32) -> (r: PreviewGate)
        ensures
            r.wf(),
            r.limit as nat == min_nat(preview_limit(duration_ms as nat, fps as nat), u64::MAX as nat),
            r.admitted == 0,
    {
        PreviewGate { limit: preview_frame_limit(duration_ms, fps), admitted: 0 }
    }

    /// Takes the next decoded frame and says whether it goes into the preview.
    pub fn take_frame(&mut self) -> (r: bool)
        requires
            old(self).wf(),
        ensures
            final(self).wf(),
            r == (old(self).admitted < old(self).limit),
            final(self).limit == old(self).limit,
            final(self).admitted == old(self).admitted + (if r { 1u64 } else { 0 }),
    {
        if self.admitted < self.limit {
            self.admitted = self.admitted + 1;
            true
        } else {
            false
        }
    }
}

} // verus!
