//! EDID-style manufacturer parts ("GSM…") for generated device ids.

use vstd::prelude::*;
use vstd::string::StringExecFns;
use rand::rngs::StdRng;
use crate::numerals::dec_seq;
use crate::numerals::dec_string;
use crate::numerals::lemma_prefix_append_injective;
use crate::rng::rng_range;

verus! {

/// The manufacturer part stamped from `counter`.
pub open spec fn gsm_id_seq(counter: nat) -> Seq<char> {
    "GSM"@ + dec_seq(counter)
}

/// `s` follows the "GSM" + counter template.
pub open spec fn is_gsm_id(s: Seq<char>) -> bool {
    exists|c: nat| s == #[trigger] gsm_id_seq(c)
}

fn make_gsm_id(counter: u64) -> (r: String)
    ensures
        r@ == gsm_id_seq(counter as nat),
{
    proof {
        reveal_strlit("GSM");
    }
    let mut s: String = "GSM".to_owned();
    let suffix = dec_string(counter);
    s.append(suffix.as_str());
    proof {
        assert(s@ =~= gsm_id_seq(counter as nat));
    }
    s
}

pub struct GsmIdFuzzer {
    rand: StdRng,
}

impl GsmIdFuzzer {
    pub fn new(rand: StdRng) -> Self {
        GsmIdFuzzer { rand }
    }

    /// Produces `n` pairwise-distinct manufacturer parts, each following the
    /// "GSM" + counter template.
    pub fn generate_several(&mut self, n: usize) -> (r: Vec<String>)
        requires
            n <= 162,
        ensures
            r@.len() == n,
            forall|i: int, j: int| 0 <= i < j < n ==> (#[trigger] r@[i])@ != (#[trigger] r@[j])@,
            forall|i: int| 0 <= i < n ==> #[trigger] is_gsm_id(r@[i]@),
    {
        let base = rng_range(&mut self.rand, 0, 1000000);
        let mut out: Vec<String> = Vec::new();
        let mut i: usize = 0;
        while i < n
            invariant
                i <= n,
                n <= 162,
                base <= 1000000,
                out@.len() == i,
                forall|k: int|
                    0 <= k < i ==> (#[trigger] out@[k])@ == gsm_id_seq((base + k) as nat),
            decreases n - i,
        {
            let id = make_gsm_id(base as u64 + i as u64);
            out.push(id);
            i = i + 1;
        }
        proof {
            assert forall|a: int, b: int| 0 <= a < b < n implies (#[trigger] out@[a])@ != (
            #[trigger] out@[b])@ by {
                if out@[a]@ == out@[b]@ {
                    lemma_prefix_append_injective("GSM"@, (base + a) as nat, (base + b) as nat);
                }
            }
            assert forall|a: int| 0 <= a < n implies #[trigger] is_gsm_id(out@[a]@) by {
                assert(out@[a]@ == gsm_id_seq((base + a) as nat));
            }
        }
        out
    }
}

} // verus!
