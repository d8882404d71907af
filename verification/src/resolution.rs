//! The discrete set of plausible monitor resolutions a generated monitor
//! may report.

use vstd::prelude::*;
use rand::rngs::StdRng;
use crate::rng::rng_range;

verus! {

#[derive(Clone, Copy, PartialEq, Eq, Structural, Debug)]
pub struct FuzzedResolution {
    pub width: u32,
    pub height: u32,
}

/// The discrete pool of resolutions the generator draws from.
pub open spec fn is_plausible_resolution(r: FuzzedResolution) -> bool {
    ||| (r.width == 1024 && r.height == 768)
    ||| (r.width == 1280 && r.height == 720)
    ||| (r.width == 1600 && r.height == 900)
    ||| (r.width == 1920 && r.height == 1080)
    ||| (r.width == 2560 && r.height == 1440)
    ||| (r.width == 3840 && r.height == 2160)
}

/// Draws one resolution uniformly from the pool.
pub fn pick_resolution(rand: &mut StdRng) -> (r: FuzzedResolution)
    ensures
        is_plausible_resolution(r),
        1024 <= r.width <= 3840,
{
    let choice = rng_range(rand, 0, 5);
    if choice == 0 {
        FuzzedResolution { width: 1024, height: 768 }
    } else if choice == 1 {
        FuzzedResolution { width: 1280, height: 720 }
    } else if choice == 2 {
        FuzzedResolution { width: 1600, height: 900 }
    } else if choice == 3 {
        FuzzedResolution { width: 1920, height: 1080 }
    } else if choice == 4 {
        FuzzedResolution { width: 2560, height: 1440 }
    } else {
        FuzzedResolution { width: 3840, height: 2160 }
    }
}

} // verus!
