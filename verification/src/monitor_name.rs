//! Friendly-name generation for monitors.
//!
//! A batch of names is stamped from consecutive counters above a random
//! base, which makes the names pairwise distinct; counters whose name lands
//! in the caller's forbidden set are skipped, and a counting argument over
//! that set bounds how many candidates can ever be skipped.

use vstd::prelude::*;
use vstd::set_lib::lemma_len_subset;
use vstd::set_lib::lemma_int_range;
use vstd::set_lib::set_int_range;
use vstd::utf8::is_ascii_chars;
use vstd::string::StringExecFns;
use rand::rngs::StdRng;
use crate::numerals::dec_seq;
use crate::numerals::dec_string;
use crate::numerals::lemma_dec_seq_ascii;
use crate::numerals::lemma_dec_seq_basic;
use crate::numerals::lemma_prefix_append_injective;
use crate::rng::rng_range;
use crate::util::contains_string;

verus! {

/// The largest forbidden-name list a configuration may carry.
pub open spec fn max_exclusions() -> nat {
    100000
}

/// The name stamped from `counter`.
pub open spec fn monitor_name_seq(counter: nat) -> Seq<char> {
    "DISPLAY"@ + dec_seq(counter)
}

/// Shape shared by every generated (non-internal) monitor name: nonempty,
/// ASCII, and distinguishable from the summary placeholders, which start
/// with '<'.
pub open spec fn valid_monitor_name(s: Seq<char>) -> bool {
    s.len() >= 8 && s[0] == 'D' && is_ascii_chars(s)
}

/// Builds the name stamped from `counter`.
fn make_name(counter: u64) -> (r: String)
    ensures
        r@ == monitor_name_seq(counter as nat),
        valid_monitor_name(r@),
{
    proof {
        reveal_strlit("DISPLAY");
    }
    let mut s: String = "DISPLAY".to_owned();
    let suffix = dec_string(counter);
    s.append(suffix.as_str());
    proof {
        assert(s@ =~= monitor_name_seq(counter as nat));
        lemma_dec_seq_basic(counter as nat);
        lemma_dec_seq_ascii(counter as nat);
        assert forall|i: int| 0 <= i < s@.len() implies '\0' <= #[trigger] s@[i] <= '\u{7f}' by {
            if i >= 7 {
                assert(s@[i] == dec_seq(counter as nat)[i - 7]);
            }
        }
    }
    s
}

pub struct MonitorNameFuzzer {
    rand: StdRng,
}

impl MonitorNameFuzzer {
    pub fn new(rand: StdRng) -> Self {
        MonitorNameFuzzer { rand }
    }

    /// Produces `n` pairwise-distinct names, none of which occurs in
    /// `forbidden`.
    pub fn generate_several(&mut self, n: usize, forbidden: &Vec<String>) -> (r: Vec<String>)
        requires
            n <= 162,
            forbidden@.len() <= max_exclusions(),
        ensures
            r@.len() == n,
            forall|i: int, j: int| 0 <= i < j < n ==> (#[trigger] r@[i])@ != (#[trigger] r@[j])@,
            forall|i: int, k: int|
                0 <= i < n && 0 <= k < forbidden@.len() ==> (#[trigger] r@[i])@ != (
                #[trigger] forbidden@[k])@,
            forall|i: int| 0 <= i < n ==> valid_monitor_name((#[trigger] r@[i])@),
    {
        let base = rng_range(&mut self.rand, 0, 1000000);
        let mut out: Vec<String> = Vec::new();
        let mut tries: usize = 0;
        let ghost mut hits: Set<int> = Set::empty();
        let ghost mut counters: Seq<nat> = Seq::empty();
        while out.len() < n
            invariant
                n <= 162,
                forbidden@.len() <= max_exclusions(),
                base <= 1000000,
                out@.len() <= n,
                counters.len() == out@.len(),
                out@.len() + hits.len() == tries,
                hits.finite(),
                hits.subset_of(set_int_range(0, forbidden@.len() as int)),
                forall|k: int|
                    #[trigger] hits.contains(k) ==> exists|j: nat|
                        j < tries && forbidden@[k]@ == #[trigger] monitor_name_seq(base as nat + j),
                forall|i: int| 0 <= i < out@.len() ==> #[trigger] counters[i] < tries as nat,
                forall|i: int|
                    0 <= i < out@.len() ==> (#[trigger] out@[i])@ == monitor_name_seq(
                        base as nat + counters[i],
                    ),
                forall|i: int| 0 <= i < out@.len() ==> valid_monitor_name((#[trigger] out@[i])@),
                forall|i: int, k: int|
                    0 <= i < out@.len() && 0 <= k < forbidden@.len() ==> (#[trigger] out@[i])@ != (
                    #[trigger] forbidden@[k])@,
                forall|i: int, j: int|
                    0 <= i < j < out@.len() ==> (#[trigger] out@[i])@ != (#[trigger] out@[j])@,
            decreases n + forbidden@.len() - tries,
        {
            proof {
                lemma_int_range(0, forbidden@.len() as int);
                lemma_len_subset(hits, set_int_range(0, forbidden@.len() as int));
                assert(hits.len() <= forbidden@.len());
            }
            let candidate: u64 = base as u64 + tries as u64;
            let name = make_name(candidate);
            proof {
                assert(candidate as nat == base as nat + tries as nat);
            }
            if contains_string(forbidden, &name) {
                proof {
                    let k = choose|k: int|
                        0 <= k < forbidden@.len() && (#[trigger] forbidden@[k])@ == name@;
                    if hits.contains(k) {
                        let j = choose|j: nat|
                            j < tries && forbidden@[k]@ == #[trigger] monitor_name_seq(
                                base as nat + j,
                            );
                        lemma_prefix_append_injective(
                            "DISPLAY"@,
                            base as nat + j,
                            base as nat + tries as nat,
                        );
                        assert(false);
                    }
                    hits = hits.insert(k);
                    assert(forbidden@[k]@ == monitor_name_seq(base as nat + tries as nat));
                }
                tries = tries + 1;
            } else {
                proof {
                    assert forall|i: int| 0 <= i < out@.len() implies (#[trigger] out@[i])@
                        != name@ by {
                        if out@[i]@ == name@ {
                            lemma_prefix_append_injective(
                                "DISPLAY"@,
                                base as nat + counters[i],
                                base as nat + tries as nat,
                            );
                        }
                    }
                    counters = counters.push(tries as nat);
                }
                out.push(name);
                tries = tries + 1;
            }
        }
        out
    }
}

} // verus!
