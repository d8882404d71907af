//! The fake device-API surface handed to the algorithm under test.
//!
//! A `FuzzedWin32` is a value snapshot of one generated topology plus the
//! configured failure injections; its operations answer purely from that
//! snapshot.

use vstd::prelude::*;
use crate::position::FuzzedMonitorPosition;
use crate::resolution::FuzzedResolution;
use crate::video_output::FuzzedVideoOutput;

verus! {

pub const DISP_CHANGE_SUCCESSFUL: i32 = 0;

pub const DISP_CHANGE_RESTART: i32 = 1;

pub const DISP_CHANGE_FAILED: i32 = -1;

pub const DISP_CHANGE_BADMODE: i32 = -2;

pub const DISP_CHANGE_NOTUPDATED: i32 = -3;

pub const DISP_CHANGE_BADFLAGS: i32 = -4;

pub const DISP_CHANGE_BADPARAM: i32 = -5;

pub const DISP_CHANGE_BADDUALVIEW: i32 = -6;

#[derive(Clone, Copy, PartialEq, Eq, Structural, Debug)]
pub enum FakeApiError {
    GetPrimaryMonitorNameFailed,
    QueryDisplayConfigFailed,
    NoPrimaryMonitor,
}

/// The output holds a monitor whose primary flag equals `want_primary`.
pub open spec fn is_match(o: FuzzedVideoOutput, want_primary: bool) -> bool {
    o.monitor is Some && o.monitor->Some_0.primary == want_primary
}

/// Slot `i` is the lowest-numbered output matching `want_primary`.
pub open spec fn is_first_match(s: Seq<FuzzedVideoOutput>, want_primary: bool, i: int) -> bool {
    &&& 0 <= i < s.len()
    &&& is_match(s[i], want_primary)
    &&& forall|j: int| 0 <= j < i ==> !is_match(#[trigger] s[j], want_primary)
}

/// Finds the lowest-numbered output holding a monitor whose primary flag
/// equals `want_primary`.
pub fn find_first_monitor(outputs: &Vec<FuzzedVideoOutput>, want_primary: bool) -> (r: Option<
    usize,
>)
    ensures
        match r {
            Some(i) => is_first_match(outputs@, want_primary, i as int),
            None => forall|j: int|
                0 <= j < outputs@.len() ==> !is_match(#[trigger] outputs@[j], want_primary),
        },
{
    let mut i: usize = 0;
    while i < outputs.len()
        invariant
            i <= outputs@.len(),
            forall|j: int| 0 <= j < i ==> !is_match(#[trigger] outputs@[j], want_primary),
        decreases outputs@.len() - i,
    {
        match &outputs[i].monitor {
            Some(m) => {
                if m.primary == want_primary {
                    return Some(i);
                }
            },
            None => {},
        }
        i = i + 1;
    }
    None
}

/// The error code injected for `path`, if any: the first matching entry wins.
pub open spec fn injected_error_for(entries: Seq<(String, i32)>, path: Seq<char>) -> Option<i32>
    decreases entries.len(),
{
    if entries.len() == 0 {
        None
    } else if entries[0].0@ == path {
        Some(entries[0].1)
    } else {
        injected_error_for(entries.skip(1), path)
    }
}

proof fn lemma_injected_error_skip(entries: Seq<(String, i32)>, path: Seq<char>, i: int)
    requires
        0 <= i <= entries.len(),
        forall|j: int| 0 <= j < i ==> (#[trigger] entries[j]).0@ != path,
    ensures
        injected_error_for(entries, path) == injected_error_for(entries.skip(i), path),
    decreases i,
{
    if i > 0 {
        lemma_injected_error_skip(entries.skip(1), path, i - 1);
        assert(entries.skip(1).skip(i - 1) =~= entries.skip(i));
    } else {
        assert(entries.skip(0) =~= entries);
    }
}

/// The display-config record the fake API reports for the primary monitor.
pub struct PrimaryDisplayConfig {
    pub device_id: String,
    pub config_mode_info_id: u32,
    pub resolution: FuzzedResolution,
    pub position: FuzzedMonitorPosition,
}

pub struct FuzzedWin32 {
    pub video_outputs: Vec<FuzzedVideoOutput>,
    pub change_display_settings_error_on_commit: Option<i32>,
    pub change_display_settings_error_by_monitor: Vec<(String, i32)>,
    pub getting_primary_monitor_name_fails: bool,
    pub querying_the_display_config_of_the_primary_monitor_fails: bool,
}

impl FuzzedWin32 {
    pub fn new(
        video_outputs: Vec<FuzzedVideoOutput>,
        change_display_settings_error_on_commit: Option<i32>,
        change_display_settings_error_by_monitor: Vec<(String, i32)>,
        getting_primary_monitor_name_fails: bool,
        querying_the_display_config_of_the_primary_monitor_fails: bool,
    ) -> (r: Self)
        ensures
            r.video_outputs@ == video_outputs@,
            r.change_display_settings_error_on_commit == change_display_settings_error_on_commit,
            r.change_display_settings_error_by_monitor@ == change_display_settings_error_by_monitor@,
            r.getting_primary_monitor_name_fails == getting_primary_monitor_name_fails,
            r.querying_the_display_config_of_the_primary_monitor_fails
                == querying_the_display_config_of_the_primary_monitor_fails,
    {
        FuzzedWin32 {
            video_outputs,
            change_display_settings_error_on_commit,
            change_display_settings_error_by_monitor,
            getting_primary_monitor_name_fails,
            querying_the_display_config_of_the_primary_monitor_fails,
        }
    }

    /// Requests a display-settings change for one device path: answers the
    /// injected per-device error code if one was configured, else success.
    pub fn change_display_settings(&self, device_path: &String) -> (r: i32)
        ensures
            r == (match injected_error_for(
                self.change_display_settings_error_by_monitor@,
                device_path@,
            ) {
                Some(code) => code,
                None => DISP_CHANGE_SUCCESSFUL,
            }),
    {
        let entries = &self.change_display_settings_error_by_monitor;
        let mut i: usize = 0;
        while i < entries.len()
            invariant
                i <= entries@.len(),
                entries@ == self.change_display_settings_error_by_monitor@,
                forall|j: int| 0 <= j < i ==> (#[trigger] entries@[j]).0@ != device_path@,
            decreases entries@.len() - i,
        {
            if device_path.eq(&entries[i].0) {
                proof {
                    lemma_injected_error_skip(entries@, device_path@, i as int);
                }
                return entries[i].1;
            }
            i = i + 1;
        }
        proof {
            lemma_injected_error_skip(entries@, device_path@, entries@.len() as int);
        }
        DISP_CHANGE_SUCCESSFUL
    }

    /// Commits the batched changes: answers the injected whole-commit error
    /// code if one was configured, else success. A `DISP_CHANGE_RESTART`
    /// answer signals that a restart is required.
    pub fn commit_display_changes(&self) -> (r: i32)
        ensures
            r == (match self.change_display_settings_error_on_commit {
                Some(code) => code,
                None => DISP_CHANGE_SUCCESSFUL,
            }),
    {
        match self.change_display_settings_error_on_commit {
            Some(code) => code,
            None => DISP_CHANGE_SUCCESSFUL,
        }
    }

    /// The friendly name of the current primary monitor, unless that query
    /// was configured to fail or no monitor is plugged as primary.
    pub fn get_primary_monitor_name(&self) -> (r: Result<String, FakeApiError>)
        ensures
            self.getting_primary_monitor_name_fails ==> r is Err && r->Err_0
                == FakeApiError::GetPrimaryMonitorNameFailed,
            !self.getting_primary_monitor_name_fails && r is Ok ==> exists|i: int|
                is_first_match(self.video_outputs@, true, i) && r->Ok_0@
                    == self.video_outputs@[i].monitor->Some_0.name@,
            !self.getting_primary_monitor_name_fails ==> (r is Err <==> (forall|j: int|
                0 <= j < self.video_outputs@.len() ==> !is_match(
                    #[trigger] self.video_outputs@[j],
                    true,
                ))),
            !self.getting_primary_monitor_name_fails && r is Err ==> r->Err_0
                == FakeApiError::NoPrimaryMonitor,
    {
        if self.getting_primary_monitor_name_fails {
            return Err(FakeApiError::GetPrimaryMonitorNameFailed);
        }
        match find_first_monitor(&self.video_outputs, true) {
            Some(i) => {
                match &self.video_outputs[i].monitor {
                    Some(m) => Ok(m.name.clone()),
                    None => Err(FakeApiError::NoPrimaryMonitor),
                }
            },
            None => Err(FakeApiError::NoPrimaryMonitor),
        }
    }

    /// The display configuration of the primary monitor, unless that query
    /// was configured to fail or no monitor is plugged as primary.
    pub fn query_display_config_of_primary(&self) -> (r: Result<
        PrimaryDisplayConfig,
        FakeApiError,
    >)
        ensures
            self.querying_the_display_config_of_the_primary_monitor_fails ==> r is Err && r->Err_0
                == FakeApiError::QueryDisplayConfigFailed,
            !self.querying_the_display_config_of_the_primary_monitor_fails && r is Ok ==> exists|
                i: int,
            |
                is_first_match(self.video_outputs@, true, i) && {
                    let m = self.video_outputs@[i].monitor->Some_0;
                    r->Ok_0.device_id@ == m.device_id@ && r->Ok_0.config_mode_info_id
                        == m.config_mode_info_id && r->Ok_0.resolution == m.resolution
                        && r->Ok_0.position == m.position
                },
            !self.querying_the_display_config_of_the_primary_monitor_fails ==> (r is Err <==> (
            forall|j: int|
                0 <= j < self.video_outputs@.len() ==> !is_match(
                    #[trigger] self.video_outputs@[j],
                    true,
                ))),
            !self.querying_the_display_config_of_the_primary_monitor_fails && r is Err ==> r->Err_0
                == FakeApiError::NoPrimaryMonitor,
    {
        if self.querying_the_display_config_of_the_primary_monitor_fails {
            return Err(FakeApiError::QueryDisplayConfigFailed);
        }
        match find_first_monitor(&self.video_outputs, true) {
            Some(i) => {
                match &self.video_outputs[i].monitor {
                    Some(m) => Ok(
                        PrimaryDisplayConfig {
                            device_id: m.device_id.clone(),
                            config_mode_info_id: m.config_mode_info_id,
                            resolution: m.resolution,
                            position: m.position,
                        },
                    ),
                    None => Err(FakeApiError::NoPrimaryMonitor),
                }
            },
            None => Err(FakeApiError::NoPrimaryMonitor),
        }
    }
}

} // verus!
