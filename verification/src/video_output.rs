//! Video output slots and their device paths.

use vstd::prelude::*;
use vstd::string::StringExecFns;
use crate::monitor::FuzzedMonitor;
use crate::numerals::dec_seq;
use crate::numerals::dec_string;
use crate::numerals::lemma_prefix_append_injective;

verus! {

pub struct FuzzedVideoOutput {
    pub device_name: String,
    pub monitor: Option<FuzzedMonitor>,
}

/// The device path of the output in slot `n` (slots are numbered from 1).
pub open spec fn video_output_path_seq(n: nat) -> Seq<char> {
    "\\\\.\\DISPLAY"@ + dec_seq(n)
}

/// The monitors currently plugged into the outputs, lowest slot first.
pub open spec fn plugged_monitors(s: Seq<FuzzedVideoOutput>) -> Seq<FuzzedMonitor>
    decreases s.len(),
{
    if s.len() == 0 {
        Seq::empty()
    } else if s.last().monitor is Some {
        plugged_monitors(s.drop_last()) + seq![s.last().monitor->Some_0]
    } else {
        plugged_monitors(s.drop_last())
    }
}

/// The names of the plugged monitors, lowest slot first.
pub open spec fn plugged_names(s: Seq<FuzzedVideoOutput>) -> Seq<Seq<char>>
    decreases s.len(),
{
    if s.len() == 0 {
        Seq::empty()
    } else if s.last().monitor is Some {
        plugged_names(s.drop_last()) + seq![s.last().monitor->Some_0.name@]
    } else {
        plugged_names(s.drop_last())
    }
}

pub proof fn lemma_plugged_monitors_len(s: Seq<FuzzedVideoOutput>)
    ensures
        plugged_monitors(s).len() <= s.len(),
        plugged_names(s).len() == plugged_monitors(s).len(),
    decreases s.len(),
{
    if s.len() > 0 {
        lemma_plugged_monitors_len(s.drop_last());
    }
}

fn make_video_output_path(n: u64) -> (r: String)
    ensures
        r@ == video_output_path_seq(n as nat),
{
    proof {
        reveal_strlit("\\\\.\\DISPLAY");
    }
    let mut s: String = "\\\\.\\DISPLAY".to_owned();
    let suffix = dec_string(n);
    s.append(suffix.as_str());
    proof {
        assert(s@ =~= video_output_path_seq(n as nat));
    }
    s
}

pub struct VideoOutputFuzzer {}

impl VideoOutputFuzzer {
    /// Produces `n` output slots, all unplugged, with the slot-numbered
    /// device paths (pairwise distinct by construction).
    pub fn generate_several(n: usize) -> (r: Vec<FuzzedVideoOutput>)
        requires
            n <= 162,
        ensures
            r@.len() == n,
            forall|i: int|
                0 <= i < n ==> (#[trigger] r@[i]).device_name@ == video_output_path_seq(
                    (i + 1) as nat,
                ),
            forall|i: int| 0 <= i < n ==> (#[trigger] r@[i]).monitor is None,
    {
        let mut out: Vec<FuzzedVideoOutput> = Vec::new();
        let mut i: usize = 0;
        while i < n
            invariant
                i <= n,
                n <= 162,
                out@.len() == i,
                forall|k: int|
                    0 <= k < i ==> (#[trigger] out@[k]).device_name@ == video_output_path_seq(
                        (k + 1) as nat,
                    ),
                forall|k: int| 0 <= k < i ==> (#[trigger] out@[k]).monitor is None,
            decreases n - i,
        {
            let path = make_video_output_path(i as u64 + 1);
            out.push(FuzzedVideoOutput { device_name: path, monitor: None });
            i = i + 1;
        }
        out
    }
}

/// Distinct slots have distinct device paths.
pub proof fn lemma_video_output_paths_distinct(a: nat, b: nat)
    requires
        video_output_path_seq(a) == video_output_path_seq(b),
    ensures
        a == b,
{
    lemma_prefix_append_injective("\\\\.\\DISPLAY"@, a, b);
}

} // verus!
