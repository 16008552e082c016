use vstd::prelude::*;

use crate::error::JobError;

verus! {

/// The largest even number not above `n`.
pub open spec fn even_floor(n: nat) -> nat {
    (n - n % 2) as nat
}

/// The width that keeps the source's aspect ratio at the given height,
/// rounded down to a whole pixel.
pub open spec fn aspect_width(src_width: nat, src_height: nat, target_height: nat) -> nat
    recommends
        src_height > 0,
{
    target_height * src_width / src_height
}

/// The frame size of a video stream, in pixels.
#[derive(Clone, Copy, Debug, PartialEq, Eq, Structural)]
pub struct Dimensions {
    pub width: u32,
    pub height: u32,
}

/// The output size of a height-targeted resize (see `target_dimensions`).
pub open spec fn target_size(source: Dimensions, target_height: u32) -> Result<Dimensions, JobError> {
    if source.height == 0 {
        Err(JobError::InvalidGeometry)
    } else {
        let w = aspect_width(source.width as nat, source.height as nat, target_height as nat);
        let ew = even_floor(w);
        let eh = even_floor(target_height as nat);
        if ew == 0 || eh == 0 || w > u32::MAX {
            Err(JobError::InvalidGeometry)
        } else {
            Ok(Dimensions { width: ew as u32, height: eh as u32 })
        }
    }
}

/// Rounds a dimension down to the nearest even value, as codecs require.
pub fn round_down_even(n: u32) -> (r: u32)
    ensures
        r as nat == even_floor(n as nat),
        r % 2 == 0,
        r <= n,
        n - r < 2,
{
    n - n % 2
}

/// The output size of a height-targeted resize: the width follows from the
/// target height and the source's aspect ratio, then both are rounded down to
/// even values. Fails with `InvalidGeometry` where the source has no height,
/// where either output side would be zero, or where the width does not fit.
pub fn target_dimensions(source: Dimensions, target_height: u32) -> (r: Result<Dimensions, JobError>)
    ensures
        r == target_size(source, target_height),
{
    if source.height == 0 {
        return Err(JobError::InvalidGeometry);
    }
    assert((target_height as u64) * (source.width as u64) <= u64::MAX) by (nonlinear_arith)
        requires
            target_height <= u32::MAX,
            source.width <= u32::MAX,
    ;
    let prod: u64 = target_height as u64 * source.width as u64;
    let w: u64 = prod / source.height as u64;
    if w > u32::MAX as u64 {
        return Err(JobError::InvalidGeometry);
    }
    let width = round_down_even(w as u32);
    let height = round_down_even(target_height);
    if width == 0 || height == 0 {
        return Err(JobError::InvalidGeometry);
    }
    Ok(Dimensions { width, height })
}

} // verus!
