//! Monitor records and the generator that batches them.

use vstd::prelude::*;
use rand::rngs::StdRng;
use crate::device_id::DeviceIdFuzzer;
use crate::device_id::device_id_seq;
use crate::gsm_id::GsmIdFuzzer;
use crate::monitor_name::MonitorNameFuzzer;
use crate::monitor_name::max_exclusions;
use crate::monitor_name::valid_monitor_name;
use crate::position::FuzzedMonitorPosition;
use crate::position::FuzzedMonitorPositionedResolution;
use crate::position::exactly_one_at_origin;
use crate::resolution::FuzzedResolution;
use crate::rng::rng_from_seed;
use crate::rng::rng_next_u64;

verus! {

pub struct FuzzedMonitor {
    pub name: String,
    pub primary: bool,
    pub config_mode_info_id: u32,
    pub device_id: String,
    pub resolution: FuzzedResolution,
    pub position: FuzzedMonitorPosition,
}

/// Exactly one monitor of the batch is flagged primary.
pub open spec fn exactly_one_primary(s: Seq<FuzzedMonitor>) -> bool {
    exists|k: int|
        0 <= k < s.len() && (#[trigger] s[k]).primary && (forall|i: int|
            0 <= i < s.len() && i != k ==> !(#[trigger] s[i]).primary)
}

/// The monitor's device id is the stable template rendered from some
/// manufacturer part, the three shared common parts, and the monitor's own
/// config-mode-info id.
pub open spec fn monitor_id_from_template(
    m: FuzzedMonitor,
    part1: u32,
    part2: Seq<char>,
    part3: u32,
) -> bool {
    exists|gsm: Seq<char>|
        m.device_id@ == #[trigger] device_id_seq(
            gsm,
            part1,
            part2,
            part3,
            m.config_mode_info_id as nat,
        )
}

/// Every device id of the batch follows the template.
pub open spec fn follows_device_id_template(
    ms: Seq<FuzzedMonitor>,
    part1: u32,
    part2: Seq<char>,
    part3: u32,
) -> bool {
    forall|i: int|
        0 <= i < ms.len() ==> #[trigger] monitor_id_from_template(ms[i], part1, part2, part3)
}

/// What `generate_several` promises of every batch it returns, relative to
/// the positioned resolutions it was given, the shared device-id parts, and
/// the caller's forbidden sets.
pub open spec fn monitor_batch_ok(
    r: Seq<FuzzedMonitor>,
    positioned: Seq<FuzzedMonitorPositionedResolution>,
    has_an_internal_display: bool,
    part1: u32,
    part2: Seq<char>,
    part3: u32,
    forbidden_monitor_names: Seq<Seq<char>>,
    forbidden_device_ids: Seq<Seq<char>>,
) -> bool {
    &&& follows_device_id_template(r, part1, part2, part3)
    &&& r.len() == positioned.len()
    &&& forall|i: int|
        0 <= i < r.len() ==> (#[trigger] r[i]).position == positioned[i].position
            && r[i].resolution == positioned[i].resolution
    &&& forall|i: int| 0 <= i < r.len() ==> (#[trigger] r[i]).primary == positioned[i].position.is_origin()
    &&& forall|i: int|
        0 <= i < r.len() && has_an_internal_display && (#[trigger] r[i]).primary ==> r[i].name@
            =~= Seq::<char>::empty()
    &&& forall|i: int|
        0 <= i < r.len() && !(has_an_internal_display && (#[trigger] r[i]).primary)
            ==> valid_monitor_name(r[i].name@)
    &&& forall|i: int, j: int| 0 <= i < j < r.len() ==> (#[trigger] r[i]).name@ != (#[trigger] r[j]).name@
    &&& forall|i: int, k: int|
        0 <= i < r.len() && 0 <= k < forbidden_monitor_names.len() ==> (#[trigger] r[i]).name@ != (
        #[trigger] forbidden_monitor_names[k])
    &&& forall|i: int, j: int|
        0 <= i < j < r.len() ==> (#[trigger] r[i]).device_id@ != (#[trigger] r[j]).device_id@
    &&& forall|i: int, k: int|
        0 <= i < r.len() && 0 <= k < forbidden_device_ids.len() ==> (#[trigger] r[i]).device_id@
            != (#[trigger] forbidden_device_ids[k])
    &&& forall|i: int, j: int|
        0 <= i < j < r.len() ==> (#[trigger] r[i]).config_mode_info_id != (
        #[trigger] r[j]).config_mode_info_id
}

pub struct MonitorFuzzer {
    monitor_name_fuzzer: MonitorNameFuzzer,
    device_id_fuzzer: DeviceIdFuzzer,
    gsm_id_fuzzer: GsmIdFuzzer,
}

impl MonitorFuzzer {
    /// Each leaf generator gets its own stream, derived once from the parent
    /// stream, so sibling batches do not perturb each other.
    pub fn new(mut rand: StdRng) -> Self {
        let seed = rng_next_u64(&mut rand);
        MonitorFuzzer {
            monitor_name_fuzzer: MonitorNameFuzzer::new(rng_from_seed(seed)),
            device_id_fuzzer: DeviceIdFuzzer::new(rng_from_seed(seed)),
            gsm_id_fuzzer: GsmIdFuzzer::new(rng_from_seed(seed)),
        }
    }

    /// Produces one monitor per positioned resolution. The monitor at the
    /// origin is the primary one; when the computer has an internal display
    /// its name is empty, every other name is freshly generated. Names,
    /// device ids and config-mode-info ids are pairwise distinct and avoid
    /// the caller's forbidden sets.
    pub fn generate_several(
        &mut self,
        monitors_id_common_part_1: u32,
        monitors_id_common_part_2: &str,
        monitors_id_common_part_3: u32,
        has_an_internal_display: bool,
        positioned_resolutions: &Vec<FuzzedMonitorPositionedResolution>,
        forbidden_monitor_names: &Vec<String>,
        forbidden_device_ids: &Vec<String>,
    ) -> (r: Vec<FuzzedMonitor>)
        requires
            positioned_resolutions@.len() <= 162,
            exactly_one_at_origin(positioned_resolutions@),
            forbidden_monitor_names@.len() <= max_exclusions(),
            forbidden_device_ids@.len() <= max_exclusions(),
            has_an_internal_display ==> forall|k: int|
                0 <= k < forbidden_monitor_names@.len() ==> (
                #[trigger] forbidden_monitor_names@[k])@.len() > 0,
        ensures
            monitor_batch_ok(
                r@,
                positioned_resolutions@,
                has_an_internal_display,
                monitors_id_common_part_1,
                monitors_id_common_part_2@,
                monitors_id_common_part_3,
                forbidden_monitor_names@.map_values(|s: String| s@),
                forbidden_device_ids@.map_values(|s: String| s@),
            ),
            exactly_one_primary(r@),
    {
        let n = positioned_resolutions.len();
        let mut names = self.monitor_name_fuzzer.generate_several(n, forbidden_monitor_names);
        let gsm_parts = self.gsm_id_fuzzer.generate_several(n);
        let mut id_pairs = self.device_id_fuzzer.generate_several(
            &gsm_parts,
            monitors_id_common_part_1,
            monitors_id_common_part_2,
            monitors_id_common_part_3,
            forbidden_device_ids,
        );
        let ghost names_orig = names@;
        let ghost pairs_orig = id_pairs@;
        let mut out: Vec<FuzzedMonitor> = Vec::new();
        let mut i: usize = 0;
        while i < n
            invariant
                i <= n,
                n == positioned_resolutions@.len(),
                out@.len() == i,
                names@ =~= names_orig.skip(i as int),
                id_pairs@ =~= pairs_orig.skip(i as int),
                names_orig.len() == n,
                pairs_orig.len() == n,
                forall|a: int, b: int|
                    0 <= a < b < n ==> (#[trigger] names_orig[a])@ != (#[trigger] names_orig[b])@,
                forall|a: int, k: int|
                    0 <= a < n && 0 <= k < forbidden_monitor_names@.len() ==> (
                    #[trigger] names_orig[a])@ != (#[trigger] forbidden_monitor_names@[k])@,
                forall|a: int| 0 <= a < n ==> valid_monitor_name((#[trigger] names_orig[a])@),
                forall|a: int, b: int|
                    0 <= a < b < n ==> (#[trigger] pairs_orig[a]).0@ != (#[trigger] pairs_orig[b]).0@,
                forall|a: int, k: int|
                    0 <= a < n && 0 <= k < forbidden_device_ids@.len() ==> (
                    #[trigger] pairs_orig[a]).0@ != (#[trigger] forbidden_device_ids@[k])@,
                forall|a: int, b: int|
                    0 <= a < b < n ==> (#[trigger] pairs_orig[a]).1 != (#[trigger] pairs_orig[b]).1,
                forall|a: int|
                    0 <= a < i ==> (#[trigger] out@[a]).position
                        == positioned_resolutions@[a].position && out@[a].resolution
                        == positioned_resolutions@[a].resolution,
                forall|a: int|
                    0 <= a < i ==> (#[trigger] out@[a]).primary
                        == positioned_resolutions@[a].position.is_origin(),
                forall|a: int|
                    0 <= a < i ==> (#[trigger] out@[a]).device_id@ == pairs_orig[a].0@
                        && out@[a].config_mode_info_id == pairs_orig[a].1,
                forall|a: int|
                    0 <= a < i && has_an_internal_display && (#[trigger] out@[a]).primary
                        ==> out@[a].name@ =~= Seq::<char>::empty(),
                forall|a: int|
                    0 <= a < i && !(has_an_internal_display && (#[trigger] out@[a]).primary)
                        ==> out@[a].name@ == names_orig[a]@,
            decreases n - i,
        {
            let positioned = positioned_resolutions[i];
            let primary = positioned.position.is_positioned_at_origin();
            let generated_name = names.remove(0);
            let pair = id_pairs.remove(0);
            let name = if has_an_internal_display && primary {
                String::new()
            } else {
                generated_name
            };
            out.push(
                FuzzedMonitor {
                    name,
                    primary,
                    config_mode_info_id: pair.1,
                    device_id: pair.0,
                    resolution: positioned.resolution,
                    position: positioned.position,
                },
            );
            i = i + 1;
        }
        proof {
            let k = choose|k: int|
                0 <= k < positioned_resolutions@.len() && (
                #[trigger] positioned_resolutions@[k].position).is_origin() && (forall|i: int|
                    0 <= i < positioned_resolutions@.len() && i != k ==> !(
                    #[trigger] positioned_resolutions@[i].position).is_origin());
            assert(out@[k].primary);
            assert forall|a: int, b: int| 0 <= a < b < out@.len() implies (#[trigger] out@[a]).name@
                != (#[trigger] out@[b]).name@ by {
                if has_an_internal_display && out@[a].primary {
                    assert(b != k);
                    assert(valid_monitor_name(out@[b].name@));
                } else if has_an_internal_display && out@[b].primary {
                    assert(a != k);
                    assert(valid_monitor_name(out@[a].name@));
                } else {
                    assert(out@[a].name@ == names_orig[a]@);
                    assert(out@[b].name@ == names_orig[b]@);
                }
            }
            assert forall|a: int, kk: int|
                0 <= a < out@.len() && 0 <= kk < forbidden_monitor_names@.len() implies (
            #[trigger] out@[a]).name@ != (#[trigger] forbidden_monitor_names@[kk])@ by {
                if has_an_internal_display && out@[a].primary {
                    assert(forbidden_monitor_names@[kk]@.len() > 0);
                } else {
                    assert(out@[a].name@ == names_orig[a]@);
                }
            }
            assert(follows_device_id_template(
                out@,
                monitors_id_common_part_1,
                monitors_id_common_part_2@,
                monitors_id_common_part_3,
            )) by {
                assert forall|a: int| 0 <= a < out@.len() implies
                    #[trigger] monitor_id_from_template(
                        out@[a],
                        monitors_id_common_part_1,
                        monitors_id_common_part_2@,
                        monitors_id_common_part_3,
                    ) by {
                    assert(out@[a].device_id@ == pairs_orig[a].0@);
                    assert(out@[a].config_mode_info_id == pairs_orig[a].1);
                    assert(pairs_orig[a].0@ == device_id_seq(
                        gsm_parts@[a]@,
                        monitors_id_common_part_1,
                        monitors_id_common_part_2@,
                        monitors_id_common_part_3,
                        pairs_orig[a].1 as nat,
                    ));
                }
            }
        }
        out
    }
}

} // verus!
