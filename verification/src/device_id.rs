//! Device-id synthesis.
//!
//! A device id follows one stable textual template: a display-class prefix,
//! the monitor's manufacturer part, three parts shared by every monitor of a
//! batch, and finally "UID" followed by the monitor's config-mode-info id in
//! decimal. Because that trailing counter is the maximal digit suffix of the
//! whole id, ids stamped from distinct counters are pairwise distinct, no
//! matter what the opaque shared parts contain.

use vstd::prelude::*;
use vstd::set_lib::lemma_len_subset;
use vstd::set_lib::lemma_int_range;
use vstd::set_lib::set_int_range;
use vstd::string::StringExecFns;
use rand::rngs::StdRng;
use crate::numerals::dec_seq;
use crate::numerals::dec_string;
use crate::numerals::is_digit_char;
use crate::numerals::lemma_stamped_equal_counters;
use crate::monitor_name::max_exclusions;
use crate::rng::rng_range;
use crate::util::contains_string;

verus! {

/// The device id stamped from the given parts and config-mode-info id.
pub open spec fn device_id_seq(
    gsm: Seq<char>,
    part1: u32,
    part2: Seq<char>,
    part3: u32,
    config_id: nat,
) -> Seq<char> {
    "\\\\?\\DISPLAY#"@ + gsm + "#"@ + dec_seq(part1 as nat) + "&"@ + part2 + "&"@ + dec_seq(
        part3 as nat,
    ) + "&UID"@ + dec_seq(config_id)
}

/// `s` is some stem that ends in a non-digit, followed by `c` in decimal.
/// Two sequences stamped this way from distinct counters always differ.
pub open spec fn stamped(s: Seq<char>, c: nat) -> bool {
    exists|stem: Seq<char>|
        s == #[trigger] (stem + dec_seq(c)) && stem.len() > 0 && !is_digit_char(stem.last())
}

pub proof fn lemma_stamped_injective(s: Seq<char>, a: nat, b: nat)
    requires
        stamped(s, a),
        stamped(s, b),
    ensures
        a == b,
{
    let stem_a = choose|stem: Seq<char>|
        s == #[trigger] (stem + dec_seq(a)) && stem.len() > 0 && !is_digit_char(stem.last());
    let stem_b = choose|stem: Seq<char>|
        s == #[trigger] (stem + dec_seq(b)) && stem.len() > 0 && !is_digit_char(stem.last());
    lemma_stamped_equal_counters(stem_a, stem_b, a, b);
}

/// Builds the device id for one monitor.
fn build_device_id(gsm: &String, part1: u32, part2: &str, part3: u32, config_id: u32) -> (r:
    String)
    ensures
        r@ == device_id_seq(gsm@, part1, part2@, part3, config_id as nat),
        stamped(r@, config_id as nat),
{
    proof {
        reveal_strlit("\\\\?\\DISPLAY#");
        reveal_strlit("#");
        reveal_strlit("&");
        reveal_strlit("&UID");
    }
    let mut s: String = "\\\\?\\DISPLAY#".to_owned();
    s.append(gsm.as_str());
    s.append("#");
    let p1 = dec_string(part1 as u64);
    s.append(p1.as_str());
    s.append("&");
    s.append(part2);
    s.append("&");
    let p3 = dec_string(part3 as u64);
    s.append(p3.as_str());
    s.append("&UID");
    let cfg = dec_string(config_id as u64);
    s.append(cfg.as_str());
    proof {
        assert(s@ =~= device_id_seq(gsm@, part1, part2@, part3, config_id as nat));
        let stem = "\\\\?\\DISPLAY#"@ + gsm@ + "#"@ + dec_seq(part1 as nat) + "&"@ + part2@ + "&"@
            + dec_seq(part3 as nat) + "&UID"@;
        assert(stem.last() == 'D');
        assert(s@ =~= stem + dec_seq(config_id as nat));
    }
    s
}

pub struct DeviceIdFuzzer {
    rand: StdRng,
}

impl DeviceIdFuzzer {
    pub fn new(rand: StdRng) -> Self {
        DeviceIdFuzzer { rand }
    }

    /// Produces one `(device id, config-mode-info id)` pair per manufacturer
    /// part: ids follow the template, config-mode-info ids are pairwise
    /// distinct, and no id occurs in `forbidden`.
    pub fn generate_several(
        &mut self,
        gsm_parts: &Vec<String>,
        part1: u32,
        part2: &str,
        part3: u32,
        forbidden: &Vec<String>,
    ) -> (r: Vec<(String, u32)>)
        requires
            gsm_parts@.len() <= 162,
            forbidden@.len() <= max_exclusions(),
        ensures
            r@.len() == gsm_parts@.len(),
            forall|i: int|
                0 <= i < r@.len() ==> (#[trigger] r@[i]).0@ == device_id_seq(
                    gsm_parts@[i]@,
                    part1,
                    part2@,
                    part3,
                    r@[i].1 as nat,
                ),
            forall|i: int, j: int|
                0 <= i < j < r@.len() ==> (#[trigger] r@[i]).1 != (#[trigger] r@[j]).1,
            forall|i: int, j: int|
                0 <= i < j < r@.len() ==> (#[trigger] r@[i]).0@ != (#[trigger] r@[j]).0@,
            forall|i: int, k: int|
                0 <= i < r@.len() && 0 <= k < forbidden@.len() ==> (#[trigger] r@[i]).0@ != (
                #[trigger] forbidden@[k])@,
    {
        let n = gsm_parts.len();
        let base = rng_range(&mut self.rand, 0, 1000000);
        let mut out: Vec<(String, u32)> = Vec::new();
        let mut tries: usize = 0;
        let ghost mut hits: Set<int> = Set::empty();
        let ghost mut counters: Seq<nat> = Seq::empty();
        while out.len() < n
            invariant
                n == gsm_parts@.len(),
                n <= 162,
                forbidden@.len() <= max_exclusions(),
                base <= 1000000,
                out@.len() <= n,
                counters.len() == out@.len(),
                out@.len() + hits.len() == tries,
                hits.finite(),
                hits.subset_of(set_int_range(0, forbidden@.len() as int)),
                forall|k: int|
                    #[trigger] hits.contains(k) ==> exists|j: nat|
                        j < tries && #[trigger] stamped(forbidden@[k]@, base as nat + j),
                forall|i: int| 0 <= i < out@.len() ==> #[trigger] counters[i] < tries as nat,
                forall|i: int, j: int|
                    0 <= i < j < counters.len() ==> #[trigger] counters[i] < #[trigger] counters[j],
                forall|i: int|
                    0 <= i < out@.len() ==> (#[trigger] out@[i]).1 as nat == base as nat
                        + counters[i],
                forall|i: int|
                    0 <= i < out@.len() ==> stamped((#[trigger] out@[i]).0@, base as nat
                        + counters[i]),
                forall|i: int|
                    0 <= i < out@.len() ==> (#[trigger] out@[i]).0@ == device_id_seq(
                        gsm_parts@[i]@,
                        part1,
                        part2@,
                        part3,
                        out@[i].1 as nat,
                    ),
                forall|i: int, k: int|
                    0 <= i < out@.len() && 0 <= k < forbidden@.len() ==> (#[trigger] out@[i]).0@
                        != (#[trigger] forbidden@[k])@,
                forall|i: int, j: int|
                    0 <= i < j < out@.len() ==> (#[trigger] out@[i]).0@ != (#[trigger] out@[j]).0@,
            decreases n + forbidden@.len() - tries,
        {
            proof {
                lemma_int_range(0, forbidden@.len() as int);
                lemma_len_subset(hits, set_int_range(0, forbidden@.len() as int));
                assert(hits.len() <= forbidden@.len());
            }
            let config_id: u32 = base as u32 + tries as u32;
            let m = out.len();
            let id = build_device_id(&gsm_parts[m], part1, part2, part3, config_id);
            proof {
                assert(config_id as nat == base as nat + tries as nat);
            }
            if contains_string(forbidden, &id) {
                proof {
                    let k = choose|k: int|
                        0 <= k < forbidden@.len() && (#[trigger] forbidden@[k])@ == id@;
                    if hits.contains(k) {
                        let j = choose|j: nat|
                            j < tries && #[trigger] stamped(forbidden@[k]@, base as nat + j);
                        lemma_stamped_injective(id@, base as nat + j, base as nat + tries as nat);
                        assert(false);
                    }
                    hits = hits.insert(k);
                    assert(stamped(forbidden@[k]@, base as nat + tries as nat));
                }
                tries = tries + 1;
            } else {
                proof {
                    assert forall|i: int| 0 <= i < out@.len() implies (#[trigger] out@[i]).0@
                        != id@ by {
                        if out@[i].0@ == id@ {
                            lemma_stamped_injective(
                                id@,
                                base as nat + counters[i],
                                base as nat + tries as nat,
                            );
                        }
                    }
                    counters = counters.push(tries as nat);
                }
                out.push((id, config_id));
                tries = tries + 1;
            }
        }
        out
    }
}

} // verus!
