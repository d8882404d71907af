//! The computer generator: draws cardinalities, generates monitors and
//! outputs, plugs the monitors into a randomly chosen ascending set of
//! slots, optionally injects failures, and assembles the final topology
//! together with the fake device-API surface.

use vstd::prelude::*;
use vstd::utf8::is_ascii_chars;
use rand::rngs::StdRng;
use crate::monitor::FuzzedMonitor;
use crate::monitor::MonitorFuzzer;
use crate::monitor::exactly_one_primary;
use crate::monitor::follows_device_id_template;
use crate::monitor_name::max_exclusions;
use crate::monitor_name::valid_monitor_name;
use crate::numerals::dec_string;
use crate::position::MonitorPositionFuzzer;
use crate::resolution::is_plausible_resolution;
use crate::rng::rng_from_seed;
use crate::rng::rng_next_u64;
use crate::rng::rng_range;
use crate::rng::rng_sample_indices;
use crate::sorting::lex_le;
use crate::sorting::sort_ascending;
use crate::sorting::sort_names;
use crate::sorting::strictly_increasing;
use crate::video_output::FuzzedVideoOutput;
use crate::video_output::VideoOutputFuzzer;
use crate::video_output::lemma_video_output_paths_distinct;
use crate::video_output::plugged_monitors;
use crate::video_output::plugged_names;
use crate::video_output::video_output_path_seq;
use crate::win32::FuzzedWin32;
use crate::win32::find_first_monitor;
use crate::win32::is_first_match;
use crate::win32::is_match;

verus! {

/// Windows caps the desktop at 128 million pixels, which allows at most 162
/// outputs at the smallest plausible resolution.
pub const MAX_VIDEO_OUTPUTS: usize = 162;

/// A configuration the generator rejects rather than panic on.
#[derive(Clone, Copy, PartialEq, Eq, Structural, Debug)]
pub enum FuzzerError {
    TooManyExclusions,
    InvalidMonitorCount,
    EmptyNameExcludedWithInternalDisplay,
    PartialFailureNeedsTwoMonitors,
}

pub struct FuzzedComputer {
    pub win32: FuzzedWin32,
    pub primary_monitor: String,
    pub secondary_monitor: String,
    pub monitors: Vec<String>,
}

pub struct ComputerFuzzer {
    pub rand: StdRng,
    pub monitor_range: Option<(usize, usize)>,
    pub forbidden_monitor_names: Vec<String>,
    pub forbidden_device_ids: Vec<String>,
    pub change_display_settings_error_on_commit: Option<i32>,
    pub change_display_settings_error_on_some_monitors: Option<i32>,
    pub has_an_internal_display: bool,
    pub getting_primary_monitor_name_fails: bool,
    pub querying_the_display_config_of_the_primary_monitor_fails: bool,
}

/// The configuration error `build` answers, if any.
pub open spec fn config_error_of(f: ComputerFuzzer) -> Option<FuzzerError> {
    if f.forbidden_monitor_names@.len() > max_exclusions() || f.forbidden_device_ids@.len()
        > max_exclusions() {
        Some(FuzzerError::TooManyExclusions)
    } else if match f.monitor_range {
        Some((min, max)) => !(1 <= min && min <= max && max <= 162),
        None => false,
    } {
        Some(FuzzerError::InvalidMonitorCount)
    } else if f.has_an_internal_display && (exists|k: int|
        0 <= k < f.forbidden_monitor_names@.len() && (#[trigger] f.forbidden_monitor_names@[k])@.len()
            == 0) {
        Some(FuzzerError::EmptyNameExcludedWithInternalDisplay)
    } else if f.change_display_settings_error_on_some_monitors is Some && (match f.monitor_range {
        Some((min, _)) => min < 2,
        None => true,
    }) {
        Some(FuzzerError::PartialFailureNeedsTwoMonitors)
    } else {
        None
    }
}

/// Invariants of the plugged monitors of a built computer.
pub open spec fn monitors_collection_ok(
    ms: Seq<FuzzedMonitor>,
    has_internal: bool,
    fnames: Seq<Seq<char>>,
    fids: Seq<Seq<char>>,
) -> bool {
    &&& forall|i: int, j: int| 0 <= i < j < ms.len() ==> (#[trigger] ms[i]).name@ != (#[trigger] ms[j]).name@
    &&& forall|i: int, k: int|
        0 <= i < ms.len() && 0 <= k < fnames.len() ==> (#[trigger] ms[i]).name@ != (
        #[trigger] fnames[k])
    &&& forall|i: int|
        0 <= i < ms.len() && has_internal && (#[trigger] ms[i]).primary ==> ms[i].name@.len() == 0
    &&& forall|i: int|
        0 <= i < ms.len() && !(has_internal && (#[trigger] ms[i]).primary) ==> valid_monitor_name(
            ms[i].name@,
        )
    &&& forall|i: int| 0 <= i < ms.len() ==> ((#[trigger] ms[i]).primary <==> ms[i].position.is_origin())
    &&& forall|i: int, j: int|
        0 <= i < j < ms.len() ==> (#[trigger] ms[i]).device_id@ != (#[trigger] ms[j]).device_id@
    &&& forall|i: int, k: int|
        0 <= i < ms.len() && 0 <= k < fids.len() ==> (#[trigger] ms[i]).device_id@ != (
        #[trigger] fids[k])
    &&& forall|i: int, j: int|
        0 <= i < j < ms.len() ==> (#[trigger] ms[i]).config_mode_info_id != (
        #[trigger] ms[j]).config_mode_info_id
    &&& forall|i: int, j: int|
        0 <= i < j < ms.len() ==> (#[trigger] ms[i]).position != (#[trigger] ms[j]).position
    &&& forall|i: int| 0 <= i < ms.len() ==> is_plausible_resolution((#[trigger] ms[i]).resolution)
}

/// The placeholder summary name substituted when no monitor of that role is
/// plugged.
pub open spec fn summary_placeholder(want_primary: bool) -> Seq<char> {
    if want_primary {
        "<primary>"@
    } else {
        "<secondary>"@
    }
}

/// `name` is the name of the lowest-slot monitor of the wanted role, or the
/// placeholder when no monitor has that role.
pub open spec fn summary_name_ok(
    outs: Seq<FuzzedVideoOutput>,
    want_primary: bool,
    name: Seq<char>,
) -> bool {
    if exists|j: int| 0 <= j < outs.len() && is_match(#[trigger] outs[j], want_primary) {
        exists|i: int|
            #[trigger] is_first_match(outs, want_primary, i) && name == outs[i].monitor->Some_0.name@
    } else {
        name == summary_placeholder(want_primary)
    }
}

/// Everything `build` promises of a computer it hands out, relative to the
/// configuration it was built from.
pub open spec fn built_ok(cfg: ComputerFuzzer, c: FuzzedComputer) -> bool {
    let outs = c.win32.video_outputs@;
    let ms = plugged_monitors(outs);
    let fnames = cfg.forbidden_monitor_names@.map_values(|s: String| s@);
    let fids = cfg.forbidden_device_ids@.map_values(|s: String| s@);
    &&& outs.len() <= 162
    &&& ms.len() <= outs.len()
    &&& match cfg.monitor_range {
        None => outs.len() == 0,
        Some((min, max)) => min <= outs.len() <= max && min <= ms.len(),
    }
    &&& forall|p: int|
        0 <= p < outs.len() ==> (#[trigger] outs[p]).device_name@ == video_output_path_seq(
            (p + 1) as nat,
        )
    &&& monitors_collection_ok(ms, cfg.has_an_internal_display, fnames, fids)
    &&& exists|part1: u32, part2: Seq<char>, part3: u32|
        #[trigger] follows_device_id_template(ms, part1, part2, part3)
    &&& ms.len() >= 1 ==> exactly_one_primary(ms)
    &&& summary_name_ok(outs, true, c.primary_monitor@)
    &&& summary_name_ok(outs, false, c.secondary_monitor@)
    &&& c.primary_monitor@ != c.secondary_monitor@
    &&& c.monitors@.len() == ms.len()
    &&& forall|i: int, j: int|
        0 <= i < j < c.monitors@.len() ==> lex_le((#[trigger] c.monitors@[i])@, (#[trigger] c.monitors@[j])@)
    &&& c.monitors@.map_values(|s: String| s@).to_multiset() == plugged_names(outs).to_multiset()
    &&& match cfg.change_display_settings_error_on_some_monitors {
        None => c.win32.change_display_settings_error_by_monitor@.len() == 0,
        Some(code) => {
            let fm = c.win32.change_display_settings_error_by_monitor@;
            &&& 1 <= fm.len() < ms.len()
            &&& forall|e: int| 0 <= e < fm.len() ==> (#[trigger] fm[e]).1 == code
            &&& forall|e1: int, e2: int|
                0 <= e1 < e2 < fm.len() ==> (#[trigger] fm[e1]).0@ != (#[trigger] fm[e2]).0@
            &&& forall|e: int|
                0 <= e < fm.len() ==> exists|p: int|
                    0 <= p < outs.len() && (#[trigger] outs[p]).monitor is Some && outs[p].device_name@
                        == (#[trigger] fm[e]).0@
        },
    }
    &&& c.win32.change_display_settings_error_on_commit
        == cfg.change_display_settings_error_on_commit
    &&& c.win32.getting_primary_monitor_name_fails == cfg.getting_primary_monitor_name_fails
    &&& c.win32.querying_the_display_config_of_the_primary_monitor_fails
        == cfg.querying_the_display_config_of_the_primary_monitor_fails
}

/// Some entry of `v` is the empty string.
fn has_empty_name(v: &Vec<String>) -> (b: bool)
    ensures
        b == (exists|k: int| 0 <= k < v@.len() && (#[trigger] v@[k])@.len() == 0),
{
    let mut k: usize = 0;
    while k < v.len()
        invariant
            k <= v@.len(),
            forall|j: int| 0 <= j < k ==> (#[trigger] v@[j])@.len() != 0,
        decreases v@.len() - k,
    {
        if v[k].as_str().is_empty() {
            return true;
        }
        k = k + 1;
    }
    false
}

/// Plugs monitor `j` into output slot `chosen[j]` for every `j`; slots are
/// ascending, so the batch order is preserved and the lowest chosen slots
/// are populated first.
fn plug_monitors(
    template: Vec<FuzzedVideoOutput>,
    monitors: Vec<FuzzedMonitor>,
    chosen: &Vec<usize>,
) -> (r: Vec<FuzzedVideoOutput>)
    requires
        template@.len() <= 162,
        forall|p: int|
            0 <= p < template@.len() ==> (#[trigger] template@[p]).device_name@
                == video_output_path_seq((p + 1) as nat),
        chosen@.len() == monitors@.len(),
        strictly_increasing(chosen@),
        forall|j: int| 0 <= j < chosen@.len() ==> #[trigger] chosen@[j] < template@.len(),
    ensures
        r@.len() == template@.len(),
        forall|p: int|
            0 <= p < r@.len() ==> (#[trigger] r@[p]).device_name@ == video_output_path_seq(
                (p + 1) as nat,
            ),
        plugged_monitors(r@) == monitors@,
        forall|j: int|
            0 <= j < chosen@.len() ==> (#[trigger] r@[chosen@[j] as int]).monitor is Some
                && r@[chosen@[j] as int].monitor->Some_0 == monitors@[j],
        forall|p: int|
            0 <= p < r@.len() && (#[trigger] r@[p]).monitor is Some ==> exists|j: int|
                0 <= j < chosen@.len() && #[trigger] chosen@[j] == p && r@[p].monitor->Some_0
                    == monitors@[j],
{
    let ghost ms_orig = monitors@;
    let n_outputs = template.len();
    let mut rest = monitors;
    let mut out: Vec<FuzzedVideoOutput> = Vec::new();
    let mut m: usize = 0;
    let mut o: usize = 0;
    while o < n_outputs
        invariant
            o <= n_outputs,
            n_outputs == template@.len(),
            m <= chosen@.len(),
            chosen@.len() == ms_orig.len(),
            strictly_increasing(chosen@),
            forall|j: int| 0 <= j < chosen@.len() ==> #[trigger] chosen@[j] < n_outputs,
            forall|p: int|
                0 <= p < template@.len() ==> (#[trigger] template@[p]).device_name@
                    == video_output_path_seq((p + 1) as nat),
            rest@ =~= ms_orig.skip(m as int),
            out@.len() == o,
            plugged_monitors(out@) =~= ms_orig.take(m as int),
            forall|p: int|
                0 <= p < o ==> (#[trigger] out@[p]).device_name@ == video_output_path_seq(
                    (p + 1) as nat,
                ),
            forall|j: int|
                0 <= j < m ==> (#[trigger] out@[chosen@[j] as int]).monitor is Some
                    && out@[chosen@[j] as int].monitor->Some_0 == ms_orig[j],
            forall|p: int|
                0 <= p < o && (#[trigger] out@[p]).monitor is Some ==> exists|j: int|
                    0 <= j < m && #[trigger] chosen@[j] == p && out@[p].monitor->Some_0
                        == ms_orig[j],
            forall|j: int| 0 <= j < m ==> #[trigger] chosen@[j] < o,
            forall|j: int| m <= j < chosen@.len() ==> #[trigger] chosen@[j] >= o,
        decreases n_outputs - o,
    {
        let path = template[o].device_name.clone();
        let ghost old_out = out@;
        if m < chosen.len() && chosen[m] == o {
            let mon = rest.remove(0);
            proof {
                assert(mon == ms_orig[m as int]);
                assert(rest@ =~= ms_orig.skip(m + 1 as int));
            }
            out.push(FuzzedVideoOutput { device_name: path, monitor: Some(mon) });
            proof {
                assert(out@.drop_last() =~= old_out);
                assert(plugged_monitors(out@) == plugged_monitors(old_out) + seq![
                    out@.last().monitor->Some_0,
                ]);
                assert(plugged_monitors(out@) =~= ms_orig.take(m + 1 as int));
            }
            m = m + 1;
        } else {
            out.push(FuzzedVideoOutput { device_name: path, monitor: None });
            proof {
                assert(out@.drop_last() =~= old_out);
                assert(plugged_monitors(out@) == plugged_monitors(old_out));
            }
        }
        o = o + 1;
    }
    proof {
        if m < chosen@.len() {
            assert(chosen@[m as int] >= n_outputs);
            assert(false);
        }
        assert(plugged_monitors(out@) =~= ms_orig);
    }
    out
}

/// Collects the names of the plugged monitors, lowest slot first.
fn collect_names(outs: &Vec<FuzzedVideoOutput>) -> (r: Vec<String>)
    requires
        forall|p: int|
            0 <= p < outs@.len() && (#[trigger] outs@[p]).monitor is Some ==> is_ascii_chars(
                outs@[p].monitor->Some_0.name@,
            ),
    ensures
        r@.map_values(|s: String| s@) == plugged_names(outs@),
        forall|i: int| 0 <= i < r@.len() ==> is_ascii_chars((#[trigger] r@[i])@),
{
    let mut r: Vec<String> = Vec::new();
    let mut o: usize = 0;
    while o < outs.len()
        invariant
            o <= outs@.len(),
            forall|p: int|
                0 <= p < outs@.len() && (#[trigger] outs@[p]).monitor is Some ==> is_ascii_chars(
                    outs@[p].monitor->Some_0.name@,
                ),
            r@.map_values(|s: String| s@) =~= plugged_names(outs@.take(o as int)),
            forall|i: int| 0 <= i < r@.len() ==> is_ascii_chars((#[trigger] r@[i])@),
        decreases outs@.len() - o,
    {
        let ghost old_r = r@;
        match &outs[o].monitor {
            Some(mm) => {
                r.push(mm.name.clone());
            },
            None => {},
        }
        proof {
            assert(outs@.take(o + 1 as int).drop_last() =~= outs@.take(o as int));
            assert(outs@.take(o + 1 as int).last() == outs@[o as int]);
            if outs@[o as int].monitor is Some {
                assert(plugged_names(outs@.take(o + 1 as int)) == plugged_names(
                    outs@.take(o as int),
                ) + seq![outs@[o as int].monitor->Some_0.name@]);
                assert(r@ == old_r.push(r@.last()));
            } else {
                assert(plugged_names(outs@.take(o + 1 as int)) == plugged_names(
                    outs@.take(o as int),
                ));
            }
            assert(r@.map_values(|s: String| s@) =~= plugged_names(outs@.take(o + 1 as int)));
        }
        o = o + 1;
    }
    proof {
        assert(outs@.take(outs@.len() as int) =~= outs@);
    }
    r
}

/// The summary name for the wanted role: the name of the lowest-slot monitor
/// of that role, or the placeholder when none exists.
fn get_monitor_name(outputs: &Vec<FuzzedVideoOutput>, want_primary: bool) -> (r: String)
    ensures
        summary_name_ok(outputs@, want_primary, r@),
{
    match find_first_monitor(outputs, want_primary) {
        Some(i) => {
            match &outputs[i].monitor {
                Some(m) => m.name.clone(),
                None => {
                    proof {
                        assert(false);
                    }
                    String::new()
                },
            }
        },
        None => {
            if want_primary {
                "<primary>".to_owned()
            } else {
                "<secondary>".to_owned()
            }
        },
    }
}

impl ComputerFuzzer {
    pub fn new(rand: StdRng) -> (r: Self)
        ensures
            r.rand == rand,
            r.monitor_range is None,
            r.forbidden_monitor_names@.len() == 0,
            r.forbidden_device_ids@.len() == 0,
            r.change_display_settings_error_on_commit is None,
            r.change_display_settings_error_on_some_monitors is None,
            !r.has_an_internal_display,
            !r.getting_primary_monitor_name_fails,
            !r.querying_the_display_config_of_the_primary_monitor_fails,
    {
        ComputerFuzzer {
            rand,
            monitor_range: None,
            forbidden_monitor_names: Vec::new(),
            forbidden_device_ids: Vec::new(),
            change_display_settings_error_on_commit: None,
            change_display_settings_error_on_some_monitors: None,
            has_an_internal_display: false,
            getting_primary_monitor_name_fails: false,
            querying_the_display_config_of_the_primary_monitor_fails: false,
        }
    }

    pub fn with_two_monitors_or_more(self) -> (r: Self)
        ensures
            r == (ComputerFuzzer {
                monitor_range: Some((2usize, 162usize)),
                forbidden_monitor_names: r.forbidden_monitor_names,
                forbidden_device_ids: r.forbidden_device_ids,
                ..self
            }),
            r.forbidden_monitor_names@.len() == 0,
            r.forbidden_device_ids@.len() == 0,
    {
        ComputerFuzzer {
            monitor_range: Some((2, MAX_VIDEO_OUTPUTS)),
            forbidden_monitor_names: Vec::new(),
            forbidden_device_ids: Vec::new(),
            ..self
        }
    }

    pub fn with_n_monitors(self, n_monitor: usize) -> (r: Self)
        ensures
            r == (ComputerFuzzer {
                monitor_range: Some((n_monitor, n_monitor)),
                forbidden_monitor_names: r.forbidden_monitor_names,
                forbidden_device_ids: r.forbidden_device_ids,
                ..self
            }),
            r.forbidden_monitor_names@.len() == 0,
            r.forbidden_device_ids@.len() == 0,
    {
        ComputerFuzzer {
            monitor_range: Some((n_monitor, n_monitor)),
            forbidden_monitor_names: Vec::new(),
            forbidden_device_ids: Vec::new(),
            ..self
        }
    }

    pub fn with_an_internal_display_and_at_least_one_more_monitor(self) -> (r: Self)
        ensures
            r == (ComputerFuzzer {
                monitor_range: Some((2usize, 162usize)),
                has_an_internal_display: true,
                forbidden_monitor_names: r.forbidden_monitor_names,
                forbidden_device_ids: r.forbidden_device_ids,
                ..self
            }),
            r.forbidden_monitor_names@.len() == 0,
            r.forbidden_device_ids@.len() == 0,
    {
        ComputerFuzzer {
            monitor_range: Some((2, MAX_VIDEO_OUTPUTS)),
            has_an_internal_display: true,
            forbidden_monitor_names: Vec::new(),
            forbidden_device_ids: Vec::new(),
            ..self
        }
    }

    pub fn with_two_monitors_or_more_with_names_different_than(
        self,
        forbidden_monitor_names: Vec<String>,
    ) -> (r: Self)
        ensures
            r == (ComputerFuzzer {
                monitor_range: Some((2usize, 162usize)),
                forbidden_monitor_names,
                forbidden_device_ids: r.forbidden_device_ids,
                ..self
            }),
            r.forbidden_device_ids@.len() == 0,
    {
        ComputerFuzzer {
            monitor_range: Some((2, MAX_VIDEO_OUTPUTS)),
            forbidden_monitor_names,
            forbidden_device_ids: Vec::new(),
            ..self
        }
    }

    pub fn with_two_monitors_or_more_with_device_ids_different_than(
        self,
        forbidden_device_ids: Vec<String>,
    ) -> (r: Self)
        ensures
            r == (ComputerFuzzer {
                monitor_range: Some((2usize, 162usize)),
                forbidden_device_ids,
                forbidden_monitor_names: r.forbidden_monitor_names,
                ..self
            }),
            r.forbidden_monitor_names@.len() == 0,
    {
        ComputerFuzzer {
            monitor_range: Some((2, MAX_VIDEO_OUTPUTS)),
            forbidden_monitor_names: Vec::new(),
            forbidden_device_ids,
            ..self
        }
    }

    pub fn for_which_committing_the_display_changes_fails_with(
        self,
        change_display_settings_error: i32,
    ) -> (r: Self)
        ensures
            r == (ComputerFuzzer {
                change_display_settings_error_on_commit: Some(change_display_settings_error),
                ..self
            }),
    {
        ComputerFuzzer {
            change_display_settings_error_on_commit: Some(change_display_settings_error),
            ..self
        }
    }

    pub fn for_which_changing_the_display_settings_fails_for_some_monitors(
        self,
        change_display_settings_error: i32,
    ) -> (r: Self)
        ensures
            r == (ComputerFuzzer {
                change_display_settings_error_on_some_monitors: Some(
                    change_display_settings_error,
                ),
                ..self
            }),
    {
        ComputerFuzzer {
            change_display_settings_error_on_some_monitors: Some(change_display_settings_error),
            ..self
        }
    }

    pub fn for_which_getting_the_primary_monitor_fails(self) -> (r: Self)
        ensures
            r == (ComputerFuzzer { getting_primary_monitor_name_fails: true, ..self }),
    {
        ComputerFuzzer { getting_primary_monitor_name_fails: true, ..self }
    }

    pub fn for_which_querying_the_display_config_of_the_primary_monitor_fails(self) -> (r: Self)
        ensures
            r == (ComputerFuzzer {
                querying_the_display_config_of_the_primary_monitor_fails: true,
                ..self
            }),
    {
        ComputerFuzzer { querying_the_display_config_of_the_primary_monitor_fails: true, ..self }
    }

    /// Builds one computer from the recorded configuration, or answers the
    /// configuration error. Everything promised of the result is collected
    /// in `built_ok`.
    pub fn build(&mut self) -> (r: Result<FuzzedComputer, FuzzerError>)
        ensures
            r is Err <==> config_error_of(*old(self)) is Some,
            r is Err ==> r->Err_0 == config_error_of(*old(self))->Some_0,
            r is Ok ==> built_ok(*old(self), r->Ok_0),
            final(self).monitor_range == old(self).monitor_range,
            final(self).forbidden_monitor_names@ == old(self).forbidden_monitor_names@,
            final(self).forbidden_device_ids@ == old(self).forbidden_device_ids@,
            final(self).change_display_settings_error_on_commit == old(
                self,
            ).change_display_settings_error_on_commit,
            final(self).change_display_settings_error_on_some_monitors == old(
                self,
            ).change_display_settings_error_on_some_monitors,
            final(self).has_an_internal_display == old(self).has_an_internal_display,
            final(self).getting_primary_monitor_name_fails == old(
                self,
            ).getting_primary_monitor_name_fails,
            final(self).querying_the_display_config_of_the_primary_monitor_fails == old(
                self,
            ).querying_the_display_config_of_the_primary_monitor_fails,
    {
        if self.forbidden_monitor_names.len() > 100000 || self.forbidden_device_ids.len()
            > 100000 {
            return Err(FuzzerError::TooManyExclusions);
        }
        match self.monitor_range {
            Some((min, max)) => {
                if !(1 <= min && min <= max && max <= 162) {
                    return Err(FuzzerError::InvalidMonitorCount);
                }
            },
            None => {},
        }
        if self.has_an_internal_display && has_empty_name(&self.forbidden_monitor_names) {
            return Err(FuzzerError::EmptyNameExcludedWithInternalDisplay);
        }
        if self.change_display_settings_error_on_some_monitors.is_some() {
            match self.monitor_range {
                Some((min, _)) => {
                    if min < 2 {
                        return Err(FuzzerError::PartialFailureNeedsTwoMonitors);
                    }
                },
                None => {
                    return Err(FuzzerError::PartialFailureNeedsTwoMonitors);
                },
            }
        }
        match self.monitor_range {
            None => {
                let win32 = FuzzedWin32::new(
                    Vec::new(),
                    self.change_display_settings_error_on_commit,
                    Vec::new(),
                    self.getting_primary_monitor_name_fails,
                    self.querying_the_display_config_of_the_primary_monitor_fails,
                );
                let primary_monitor: String = "<primary>".to_owned();
                let secondary_monitor: String = "<secondary>".to_owned();
                let computer = FuzzedComputer {
                    win32,
                    primary_monitor,
                    secondary_monitor,
                    monitors: Vec::new(),
                };
                proof {
                    reveal_strlit("<primary>");
                    reveal_strlit("<secondary>");
                    let outs = computer.win32.video_outputs@;
                    assert(outs.len() == 0);
                    assert(computer.primary_monitor@ == "<primary>"@);
                    assert(computer.secondary_monitor@ == "<secondary>"@);
                    assert(computer.primary_monitor@.len() == 9);
                    assert(computer.secondary_monitor@.len() == 11);
                    assert(computer.primary_monitor@ != computer.secondary_monitor@);
                    assert(computer.monitors@.map_values(|s: String| s@) =~= plugged_names(outs));
                    assert(follows_device_id_template(
                        plugged_monitors(outs),
                        0u32,
                        Seq::<char>::empty(),
                        0u32,
                    ));
                }
                Ok(computer)
            },
            Some((min, max)) => {
                let n_outputs = rng_range(&mut self.rand, min, max);
                let n_monitors = rng_range(&mut self.rand, min, n_outputs);
                let pos_seed = rng_next_u64(&mut self.rand);
                let mut position_fuzzer = MonitorPositionFuzzer::new(rng_from_seed(pos_seed));
                let positioned = position_fuzzer.generate_several(n_monitors);
                let mon_seed = rng_next_u64(&mut self.rand);
                let mut monitor_fuzzer = MonitorFuzzer::new(rng_from_seed(mon_seed));
                let part1 = rng_range(&mut self.rand, 0, 9) as u32;
                let part2_num = rng_range(&mut self.rand, 0, 16777215);
                let part2 = dec_string(part2_num as u64);
                let part3 = rng_range(&mut self.rand, 0, 9) as u32;
                let monitors = monitor_fuzzer.generate_several(
                    part1,
                    part2.as_str(),
                    part3,
                    self.has_an_internal_display,
                    &positioned,
                    &self.forbidden_monitor_names,
                    &self.forbidden_device_ids,
                );
                let ghost ms_orig = monitors@;
                let template = VideoOutputFuzzer::generate_several(n_outputs);
                let sampled = rng_sample_indices(&mut self.rand, n_outputs, n_monitors);
                let chosen = sort_ascending(&sampled);
                proof {
                    assert forall|j: int| 0 <= j < chosen@.len() implies #[trigger] chosen@[j]
                        < n_outputs by {
                        assert(chosen@.contains(chosen@[j]));
                        assert(sampled@.contains(chosen@[j]));
                        let t = choose|t: int|
                            0 <= t < sampled@.len() && sampled@[t] == chosen@[j];
                        assert(sampled@[t] < n_outputs);
                    }
                }
                let outs = plug_monitors(template, monitors, &chosen);
                proof {
                    assert forall|p: int|
                        0 <= p < outs@.len() && (#[trigger] outs@[p]).monitor is Some implies
                        is_ascii_chars(outs@[p].monitor->Some_0.name@) by {
                        let j = choose|j: int|
                            0 <= j < chosen@.len() && #[trigger] chosen@[j] == p
                                && outs@[p].monitor->Some_0 == ms_orig[j];
                        if self.has_an_internal_display && ms_orig[j].primary {
                            assert(ms_orig[j].name@.len() == 0);
                        } else {
                            assert(valid_monitor_name(ms_orig[j].name@));
                        }
                    }
                }
                let mut names_list = collect_names(&outs);
                let ghost names_unsorted = names_list@;
                sort_names(&mut names_list);
                let primary_monitor = get_monitor_name(&outs, true);
                let secondary_monitor = get_monitor_name(&outs, false);
                let mut failure_map: Vec<(String, i32)> = Vec::new();
                let ghost mut fm_witness: Seq<int> = Seq::empty();
                match self.change_display_settings_error_on_some_monitors {
                    Some(code) => {
                        let mut paths: Vec<String> = Vec::new();
                        let mut j: usize = 0;
                        while j < chosen.len()
                            invariant
                                j <= chosen@.len(),
                                chosen@.len() == n_monitors,
                                strictly_increasing(chosen@),
                                forall|t: int|
                                    0 <= t < chosen@.len() ==> #[trigger] chosen@[t]
                                        < outs@.len(),
                                forall|t: int|
                                    0 <= t < chosen@.len() ==> (
                                    #[trigger] outs@[chosen@[t] as int]).monitor is Some,
                                forall|p: int|
                                    0 <= p < outs@.len() ==> (#[trigger] outs@[p]).device_name@
                                        == video_output_path_seq((p + 1) as nat),
                                paths@.len() == j,
                                forall|t: int|
                                    0 <= t < j ==> (#[trigger] paths@[t])@
                                        == video_output_path_seq((chosen@[t] + 1) as nat),
                            decreases chosen@.len() - j,
                        {
                            paths.push(outs[chosen[j]].device_name.clone());
                            j = j + 1;
                        }
                        let k = rng_range(&mut self.rand, 1, n_monitors - 1);
                        let sel = rng_sample_indices(&mut self.rand, n_monitors, k);
                        let mut t: usize = 0;
                        while t < sel.len()
                            invariant
                                t <= sel@.len(),
                                sel@.len() == k,
                                chosen@.len() == n_monitors,
                                paths@.len() == n_monitors,
                                strictly_increasing(chosen@),
                                forall|a: int|
                                    0 <= a < sel@.len() ==> #[trigger] sel@[a] < n_monitors,
                                forall|a: int, b: int|
                                    0 <= a < b < sel@.len() ==> sel@[a] != sel@[b],
                                forall|a: int|
                                    0 <= a < chosen@.len() ==> (
                                    #[trigger] outs@[chosen@[a] as int]).monitor is Some,
                                forall|a: int|
                                    0 <= a < chosen@.len() ==> #[trigger] chosen@[a]
                                        < outs@.len(),
                                forall|a: int|
                                    0 <= a < n_monitors ==> (#[trigger] paths@[a])@
                                        == video_output_path_seq((chosen@[a] + 1) as nat),
                                forall|p: int|
                                    0 <= p < outs@.len() ==> (#[trigger] outs@[p]).device_name@
                                        == video_output_path_seq((p + 1) as nat),
                                failure_map@.len() == t,
                                forall|e: int|
                                    0 <= e < t ==> (#[trigger] failure_map@[e]).1 == code,
                                forall|e: int|
                                    0 <= e < t ==> (#[trigger] failure_map@[e]).0@
                                        == video_output_path_seq(
                                        (chosen@[sel@[e] as int] + 1) as nat,
                                    ),
                            decreases sel@.len() - t,
                        {
                            failure_map.push((paths[sel[t]].clone(), code));
                            t = t + 1;
                        }
                        proof {
                            assert forall|e1: int, e2: int|
                                0 <= e1 < e2 < failure_map@.len() implies (
                            #[trigger] failure_map@[e1]).0@ != (#[trigger] failure_map@[e2]).0@ by {
                                if failure_map@[e1].0@ == failure_map@[e2].0@ {
                                    lemma_video_output_paths_distinct(
                                        (chosen@[sel@[e1] as int] + 1) as nat,
                                        (chosen@[sel@[e2] as int] + 1) as nat,
                                    );
                                    assert(sel@[e1] != sel@[e2]);
                                    if sel@[e1] < sel@[e2] {
                                        assert(chosen@[sel@[e1] as int]
                                            < chosen@[sel@[e2] as int]);
                                    } else {
                                        assert(chosen@[sel@[e2] as int]
                                            < chosen@[sel@[e1] as int]);
                                    }
                                }
                            }
                            fm_witness = Seq::new(
                                failure_map@.len() as nat,
                                |e: int| chosen@[sel@[e] as int] as int,
                            );
                            assert forall|e: int| 0 <= e < failure_map@.len() implies 0 <= (
                            #[trigger] fm_witness[e]) < outs@.len() && outs@[fm_witness[e]].monitor
                                is Some && outs@[fm_witness[e]].device_name@
                                == failure_map@[e].0@ by {
                                let p = chosen@[sel@[e] as int] as int;
                                assert(fm_witness[e] == p);
                                assert(0 <= p < outs@.len());
                                assert(outs@[p].monitor is Some);
                                assert(outs@[p].device_name@ == failure_map@[e].0@);
                            }
                        }
                    },
                    None => {},
                }
                let ghost fm_snapshot = failure_map@;
                let ghost outs_view = outs@;
                let win32 = FuzzedWin32::new(
                    outs,
                    self.change_display_settings_error_on_commit,
                    failure_map,
                    self.getting_primary_monitor_name_fails,
                    self.querying_the_display_config_of_the_primary_monitor_fails,
                );
                let computer = FuzzedComputer {
                    win32,
                    primary_monitor,
                    secondary_monitor,
                    monitors: names_list,
                };
                proof {
                    reveal_strlit("<primary>");
                    reveal_strlit("<secondary>");
                    let outs_v = computer.win32.video_outputs@;
                    assert(outs_v == outs_view);
                    let ms = plugged_monitors(outs_v);
                    assert(ms == ms_orig);
                    crate::video_output::lemma_plugged_monitors_len(outs_v);
                    assert(follows_device_id_template(ms, part1, part2@, part3));
                    assert forall|i: int, j: int| 0 <= i < j < ms.len() implies (
                    #[trigger] ms[i]).position != (#[trigger] ms[j]).position by {
                        assert(ms[i].position == positioned@[i].position);
                        assert(ms[j].position == positioned@[j].position);
                        assert(positioned@[i].position != positioned@[j].position);
                    }
                    let fm_v = computer.win32.change_display_settings_error_by_monitor@;
                    assert(fm_v == fm_snapshot);
                    assert forall|e: int| 0 <= e < fm_v.len() implies exists|p: int|
                        0 <= p < outs_v.len() && (#[trigger] outs_v[p]).monitor is Some
                            && outs_v[p].device_name@ == (#[trigger] fm_v[e]).0@ by {
                        let p = fm_witness[e];
                        assert(0 <= p < outs_v.len());
                        assert(outs_v[p].monitor is Some);
                        assert(outs_v[p].device_name@ == fm_v[e].0@);
                    }
                    assert(computer.monitors@.map_values(|s: String| s@).to_multiset()
                        == plugged_names(outs_v).to_multiset()) by {
                        assert(names_unsorted.map_values(|s: String| s@) == plugged_names(
                            outs_v,
                        ));
                    }
                    assert(computer.monitors@.len() == ms.len()) by {
                        assert(names_unsorted.map_values(|s: String| s@) == plugged_names(
                            outs_v,
                        ));
                        assert(plugged_names(outs_v).len() == ms.len());
                        assert(names_unsorted.len() == ms.len());
                    }
                    assert(computer.primary_monitor@ != computer.secondary_monitor@) by {
                        let want_p = exists|jj: int|
                            0 <= jj < outs_v.len() && is_match(#[trigger] outs_v[jj], true);
                        let want_s = exists|jj: int|
                            0 <= jj < outs_v.len() && is_match(#[trigger] outs_v[jj], false);
                        if want_p && want_s {
                            let i1 = choose|i1: int|
                                #[trigger] is_first_match(outs_v, true, i1)
                                    && computer.primary_monitor@
                                    == outs_v[i1].monitor->Some_0.name@;
                            let i2 = choose|i2: int|
                                #[trigger] is_first_match(outs_v, false, i2)
                                    && computer.secondary_monitor@
                                    == outs_v[i2].monitor->Some_0.name@;
                            let j1 = choose|j1: int|
                                0 <= j1 < chosen@.len() && #[trigger] chosen@[j1] == i1
                                    && outs_v[i1].monitor->Some_0 == ms_orig[j1];
                            let j2 = choose|j2: int|
                                0 <= j2 < chosen@.len() && #[trigger] chosen@[j2] == i2
                                    && outs_v[i2].monitor->Some_0 == ms_orig[j2];
                            assert(ms_orig[j1].primary && !ms_orig[j2].primary);
                            assert(j1 != j2);
                            assert(ms_orig[j1].name@ != ms_orig[j2].name@);
                        } else if want_p {
                            let i1 = choose|i1: int|
                                #[trigger] is_first_match(outs_v, true, i1)
                                    && computer.primary_monitor@
                                    == outs_v[i1].monitor->Some_0.name@;
                            let j1 = choose|j1: int|
                                0 <= j1 < chosen@.len() && #[trigger] chosen@[j1] == i1
                                    && outs_v[i1].monitor->Some_0 == ms_orig[j1];
                            if self.has_an_internal_display && ms_orig[j1].primary {
                                assert(computer.primary_monitor@.len() == 0);
                                assert(computer.secondary_monitor@.len() == 11);
                            } else {
                                assert(computer.primary_monitor@[0] == 'D');
                                assert(computer.secondary_monitor@[0] == '<');
                            }
                        } else if want_s {
                            let i2 = choose|i2: int|
                                #[trigger] is_first_match(outs_v, false, i2)
                                    && computer.secondary_monitor@
                                    == outs_v[i2].monitor->Some_0.name@;
                            let j2 = choose|j2: int|
                                0 <= j2 < chosen@.len() && #[trigger] chosen@[j2] == i2
                                    && outs_v[i2].monitor->Some_0 == ms_orig[j2];
                            assert(!ms_orig[j2].primary);
                            assert(valid_monitor_name(ms_orig[j2].name@));
                            assert(computer.secondary_monitor@[0] == 'D');
                            assert(computer.primary_monitor@[0] == '<');
                        } else {
                            assert(computer.primary_monitor@[1] == 'p');
                            assert(computer.secondary_monitor@[1] == 's');
                        }
                    }
                }
                Ok(computer)
            },
        }
    }
}

} // verus!
