//! Anchor positions for generated monitors.
//!
//! Monitors are laid out in one horizontal strip: anchors are pairwise
//! distinct, and exactly one — the future primary — sits at the origin.

use vstd::prelude::*;
use rand::rngs::StdRng;
use crate::resolution::FuzzedResolution;
use crate::resolution::is_plausible_resolution;
use crate::resolution::pick_resolution;
use crate::rng::rng_range;

verus! {

#[derive(Clone, Copy, PartialEq, Eq, Structural, Debug)]
pub struct FuzzedMonitorPosition {
    pub x: i32,
    pub y: i32,
}

impl FuzzedMonitorPosition {
    pub open spec fn is_origin(self) -> bool {
        self.x == 0 && self.y == 0
    }

    pub fn is_positioned_at_origin(&self) -> (b: bool)
        ensures
            b == self.is_origin(),
    {
        self.x == 0 && self.y == 0
    }
}

#[derive(Clone, Copy, PartialEq, Eq, Structural, Debug)]
pub struct FuzzedMonitorPositionedResolution {
    pub position: FuzzedMonitorPosition,
    pub resolution: FuzzedResolution,
}

/// Exactly one anchor of the batch sits at the origin.
pub open spec fn exactly_one_at_origin(s: Seq<FuzzedMonitorPositionedResolution>) -> bool {
    exists|k: int|
        0 <= k < s.len() && (#[trigger] s[k].position).is_origin() && (forall|i: int|
            0 <= i < s.len() && i != k ==> !(#[trigger] s[i].position).is_origin())
}

pub open spec fn positions_pairwise_distinct(s: Seq<FuzzedMonitorPositionedResolution>) -> bool {
    forall|i: int, j: int| 0 <= i < j < s.len() ==> (#[trigger] s[i]).position != (#[trigger] s[j]).position
}

pub struct MonitorPositionFuzzer {
    rand: StdRng,
}

impl MonitorPositionFuzzer {
    pub fn new(rand: StdRng) -> Self {
        MonitorPositionFuzzer { rand }
    }

    /// Produces `n` positioned resolutions: anchors pairwise distinct, one of
    /// them at the origin, every resolution from the plausible pool.
    pub fn generate_several(&mut self, n: usize) -> (r: Vec<FuzzedMonitorPositionedResolution>)
        requires
            1 <= n <= 162,
        ensures
            r@.len() == n,
            positions_pairwise_distinct(r@),
            exactly_one_at_origin(r@),
            forall|i: int| 0 <= i < r@.len() ==> is_plausible_resolution((#[trigger] r@[i]).resolution),
    {
        let mut anchored: Vec<(i32, FuzzedResolution)> = Vec::new();
        let mut offset: i32 = 0;
        let mut i: usize = 0;
        while i < n
            invariant
                i <= n,
                n <= 162,
                anchored@.len() == i,
                0 <= offset,
                offset <= 3840 * (i as int),
                forall|k: int| 0 <= k < i ==> 0 <= (#[trigger] anchored@[k]).0 < offset,
                forall|k: int, l: int| 0 <= k < l < i ==> (#[trigger] anchored@[k]).0 < (#[trigger] anchored@[l]).0,
                forall|k: int| 0 <= k < i ==> is_plausible_resolution((#[trigger] anchored@[k]).1),
            decreases n - i,
        {
            let res = pick_resolution(&mut self.rand);
            anchored.push((offset, res));
            offset = offset + res.width as i32;
            i = i + 1;
        }
        let p = rng_range(&mut self.rand, 0, n - 1);
        let shift: i32 = anchored[p].0;
        let mut out: Vec<FuzzedMonitorPositionedResolution> = Vec::new();
        let mut j: usize = 0;
        while j < n
            invariant
                j <= n,
                n <= 162,
                p < n,
                anchored@.len() == n,
                out@.len() == j,
                shift == anchored@[p as int].0,
                forall|k: int| 0 <= k < n ==> 0 <= (#[trigger] anchored@[k]).0 <= 3840 * 162,
                forall|k: int, l: int| 0 <= k < l < n ==> (#[trigger] anchored@[k]).0 < (#[trigger] anchored@[l]).0,
                forall|k: int| 0 <= k < n ==> is_plausible_resolution((#[trigger] anchored@[k]).1),
                forall|k: int| 0 <= k < j ==> (#[trigger] out@[k]).position.x == anchored@[k].0 - shift,
                forall|k: int| 0 <= k < j ==> (#[trigger] out@[k]).position.y == 0,
                forall|k: int| 0 <= k < j ==> is_plausible_resolution((#[trigger] out@[k]).resolution),
            decreases n - j,
        {
            let x: i32 = anchored[j].0 - shift;
            out.push(
                FuzzedMonitorPositionedResolution {
                    position: FuzzedMonitorPosition { x, y: 0 },
                    resolution: anchored[j].1,
                },
            );
            j = j + 1;
        }
        proof {
            assert forall|a: int, b: int| 0 <= a < b < n implies (#[trigger] out@[a]).position != (#[trigger] out@[b]).position by {
                assert(anchored@[a].0 < anchored@[b].0);
            }
            assert(out@[p as int].position.is_origin());
            assert forall|a: int| 0 <= a < n && a != p implies !(#[trigger] out@[a]).position.is_origin() by {
                if a < p {
                    assert(anchored@[a].0 < anchored@[p as int].0);
                } else {
                    assert(anchored@[p as int].0 < anchored@[a].0);
                }
            }
        }
        out
    }
}

} // verus!
