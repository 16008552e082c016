use vstd::prelude::*;

use crate::sampling::{lemma_frame_sampling, min_nat, multiples_below, sample_interval};

verus! {

/// A half-open range `[start, end)` of sample positions that is averaged into
/// one waveform point; an empty range stands for a point past the input's end.
#[derive(Clone, Copy, Debug, PartialEq, Eq, Structural)]
pub struct Block {
    pub start: usize,
    pub end: usize,
}

/// The block length when `total` samples are summarised in `requested`
/// points: `total / requested`, and at least 1.
pub open spec fn block_step(total: nat, requested: nat) -> nat {
    sample_interval(total, requested)
}

/// The `k`-th block: `step` samples from `k * step`, both ends cut at
/// `total`, so that a block past the input's end is empty.
pub open spec fn block_at(total: nat, requested: nat, k: nat) -> (nat, nat) {
    let step = block_step(total, requested);
    (min_nat(k * step, total), min_nat((k + 1) * step, total))
}

proof fn lemma_below_iff(k: nat, step: nat, total: nat)
    requires
        step >= 1,
    ensures
        (k * step < total) <==> (k < multiples_below(total, step)),
{
    let x = (total + step - 1) as int;
    let q = x / step as int;
    let r = x % step as int;
    vstd::arithmetic::div_mod::lemma_fundamental_div_mod(x, step as int);
    assert((k * step < total) <==> (k < q)) by (nonlinear_arith)
        requires
            x == step * q + r,
            0 <= r < step,
            x == total + step - 1,
            step >= 1,
    ;
}

/// The blocks that a waveform of `requested` points averages over `total`
/// samples: exactly `requested` consecutive blocks of `block_step` samples
/// from the start, cut at the input's end (see `block_at`).
pub fn waveform_blocks(total: usize, requested: usize) -> (r: Vec<Block>)
    requires
        requested >= 1,
    ensures
        r@.len() == requested,
        forall|k: int|
            0 <= k < r@.len() ==> (#[trigger] r@[k].start as nat, r@[k].end as nat) == block_at(
                total as nat,
                requested as nat,
                k as nat,
            ),
{
    let step: usize = if total > requested {
        assert(total / requested >= 1) by (nonlinear_arith)
            requires
                total > requested,
                requested >= 1,
        ;
        total / requested
    } else {
        1
    };
    let mut blocks: Vec<Block> = Vec::new();
    let mut k: usize = 0;
    let mut start: usize = 0;
    while k < requested
        invariant
            step as nat == block_step(total as nat, requested as nat),
            step >= 1,
            k <= requested,
            start as nat == min_nat(k as nat * step as nat, total as nat),
            blocks@.len() == k,
            forall|j: int|
                0 <= j < k ==> (#[trigger] blocks@[j].start as nat, blocks@[j].end as nat) == block_at(
                    total as nat,
                    requested as nat,
                    j as nat,
                ),
        decreases requested - k,
    {
        proof {
            assert((k + 1) * step == k * step + step) by (nonlinear_arith);
        }
        let end: usize = if total - start > step {
            start + step
        } else {
            total
        };
        blocks.push(Block { start, end });
        k = k + 1;
        start = end;
    }
    blocks
}

/// A waveform of `requested` points has exactly `requested` points whatever
/// the input's length: the first `min(requested, total)` average non-empty
/// blocks of at most `block_step` samples, and the rest lie past the end of
/// a shorter input and are empty.
pub proof fn lemma_waveform_points(total: nat, requested: nat)
    requires
        requested >= 1,
    ensures
        forall|k: nat|
            k < requested ==> ((#[trigger] block_at(total, requested, k)).0 < block_at(total, requested, k).1
                <==> k < min_nat(requested, total)),
        forall|k: nat|
            k < requested ==> (#[trigger] block_at(total, requested, k)).1 - block_at(total, requested, k).0
                <= block_step(total, requested),
{
    let step = block_step(total, requested);
    lemma_frame_sampling(total, requested);
    assert forall|k: nat| k < requested implies ((#[trigger] block_at(total, requested, k)).0 < block_at(
        total,
        requested,
        k,
    ).1 <==> k < min_nat(requested, total)) by {
        lemma_below_iff(k, step, total);
        assert((k + 1) * step == k * step + step) by (nonlinear_arith);
    }
    assert forall|k: nat| k < requested implies (#[trigger] block_at(total, requested, k)).1 - block_at(
        total,
        requested,
        k,
    ).0 <= step by {
        assert((k + 1) * step == k * step + step) by (nonlinear_arith);
    }
}

} // verus!
