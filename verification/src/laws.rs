//! The guarantees of the generator, stated on their own.
//!
//! Each law here unfolds, from `built_ok` — the contract of
//! `ComputerFuzzer::build` — one plain statement about every computer the
//! generator can hand out, for every seed and every accepted configuration.

use vstd::prelude::*;
use crate::computer::ComputerFuzzer;
use crate::computer::FuzzedComputer;
use crate::computer::built_ok;
use crate::monitor_name::valid_monitor_name;
use crate::video_output::plugged_monitors;

verus! {

/// The plugged monitors of a built computer bear pairwise-distinct names and
/// pairwise-distinct device ids, and exactly one of them — the one anchored
/// at the layout origin — is flagged primary.
pub proof fn law_unique_names_single_primary(cfg: ComputerFuzzer, c: FuzzedComputer)
    requires
        built_ok(cfg, c),
        plugged_monitors(c.win32.video_outputs@).len() >= 1,
    ensures
        ({
            let ms = plugged_monitors(c.win32.video_outputs@);
            &&& forall|i: int, j: int|
                0 <= i < j < ms.len() ==> (#[trigger] ms[i]).name@ != (#[trigger] ms[j]).name@
            &&& forall|i: int, j: int|
                0 <= i < j < ms.len() ==> (#[trigger] ms[i]).device_id@ != (
                #[trigger] ms[j]).device_id@
            &&& exists|k: int|
                0 <= k < ms.len() && (#[trigger] ms[k]).primary && ms[k].position.is_origin() && (
                forall|i: int| 0 <= i < ms.len() && i != k ==> !(#[trigger] ms[i]).primary)
        }),
{
    let ms = plugged_monitors(c.win32.video_outputs@);
    let k = choose|k: int|
        0 <= k < ms.len() && (#[trigger] ms[k]).primary && (forall|i: int|
            0 <= i < ms.len() && i != k ==> !(#[trigger] ms[i]).primary);
    assert(ms[k].position.is_origin());
}

/// When the computer has an internal display, its primary monitor reports the
/// empty name; when it has none, every plugged monitor bears a nonempty name.
pub proof fn law_internal_display_name_rule(cfg: ComputerFuzzer, c: FuzzedComputer)
    requires
        built_ok(cfg, c),
    ensures
        ({
            let ms = plugged_monitors(c.win32.video_outputs@);
            &&& forall|i: int|
                0 <= i < ms.len() && cfg.has_an_internal_display && (#[trigger] ms[i]).primary
                    ==> ms[i].name@.len() == 0
            &&& forall|i: int|
                0 <= i < ms.len() && !cfg.has_an_internal_display ==> (#[trigger] ms[i]).name@.len()
                    > 0
        }),
{
    let ms = plugged_monitors(c.win32.video_outputs@);
    assert forall|i: int| 0 <= i < ms.len() && !cfg.has_an_internal_display implies (
    #[trigger] ms[i]).name@.len() > 0 by {
        assert(valid_monitor_name(ms[i].name@));
    }
}

/// No plugged monitor uses a forbidden name or a forbidden device id.
pub proof fn law_exclusions_respected(cfg: ComputerFuzzer, c: FuzzedComputer)
    requires
        built_ok(cfg, c),
    ensures
        ({
            let ms = plugged_monitors(c.win32.video_outputs@);
            &&& forall|i: int, k: int|
                0 <= i < ms.len() && 0 <= k < cfg.forbidden_monitor_names@.len() ==> (
                #[trigger] ms[i]).name@ != (#[trigger] cfg.forbidden_monitor_names@[k])@
            &&& forall|i: int, k: int|
                0 <= i < ms.len() && 0 <= k < cfg.forbidden_device_ids@.len() ==> (
                #[trigger] ms[i]).device_id@ != (#[trigger] cfg.forbidden_device_ids@[k])@
        }),
{
    let ms = plugged_monitors(c.win32.video_outputs@);
    let fnames = cfg.forbidden_monitor_names@.map_values(|s: String| s@);
    let fids = cfg.forbidden_device_ids@.map_values(|s: String| s@);
    assert forall|i: int, k: int|
        0 <= i < ms.len() && 0 <= k < cfg.forbidden_monitor_names@.len() implies (
    #[trigger] ms[i]).name@ != (#[trigger] cfg.forbidden_monitor_names@[k])@ by {
        assert(fnames[k] == cfg.forbidden_monitor_names@[k]@);
        assert(ms[i].name@ != fnames[k]);
    }
    assert forall|i: int, k: int|
        0 <= i < ms.len() && 0 <= k < cfg.forbidden_device_ids@.len() implies (
    #[trigger] ms[i]).device_id@ != (#[trigger] cfg.forbidden_device_ids@[k])@ by {
        assert(fids[k] == cfg.forbidden_device_ids@[k]@);
        assert(ms[i].device_id@ != fids[k]);
    }
}

/// When a per-monitor failure is injected, the failure map is a nonempty
/// strict subset of the plugged outputs: at least one entry, fewer entries
/// than plugged monitors, every key the device path of a plugged output, and
/// every value the injected code.
pub proof fn law_partial_failure_injection(cfg: ComputerFuzzer, c: FuzzedComputer, code: i32)
    requires
        built_ok(cfg, c),
        cfg.change_display_settings_error_on_some_monitors == Some(code),
    ensures
        ({
            let outs = c.win32.video_outputs@;
            let fm = c.win32.change_display_settings_error_by_monitor@;
            &&& 1 <= fm.len() < plugged_monitors(outs).len()
            &&& forall|e: int| 0 <= e < fm.len() ==> (#[trigger] fm[e]).1 == code
            &&& forall|e: int|
                0 <= e < fm.len() ==> exists|p: int|
                    0 <= p < outs.len() && (#[trigger] outs[p]).monitor is Some
                        && outs[p].device_name@ == (#[trigger] fm[e]).0@
        }),
{
}

/// A built computer never plugs more monitors than it has video outputs, and
/// never has more than 162 outputs.
pub proof fn law_cardinality(cfg: ComputerFuzzer, c: FuzzedComputer)
    requires
        built_ok(cfg, c),
    ensures
        plugged_monitors(c.win32.video_outputs@).len() <= c.win32.video_outputs@.len(),
        c.win32.video_outputs@.len() <= 162,
{
}

} // verus!
