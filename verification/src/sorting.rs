//! Ordering helpers: a verified ascending insertion for the sampled output
//! slots, and the lexicographic order used for the summary name list.

use vstd::prelude::*;
use vstd::utf8::is_ascii_chars;

verus! {

pub open spec fn strictly_increasing(s: Seq<usize>) -> bool {
    forall|i: int, j: int| 0 <= i < j < s.len() ==> s[i] < s[j]
}

/// Sorts pairwise-distinct values into ascending order by ordered insertion.
pub fn sort_ascending(v: &Vec<usize>) -> (r: Vec<usize>)
    requires
        forall|i: int, j: int| 0 <= i < j < v@.len() ==> v@[i] != v@[j],
    ensures
        r@.len() == v@.len(),
        strictly_increasing(r@),
        forall|x: usize| r@.contains(x) <==> v@.contains(x),
{
    let mut out: Vec<usize> = Vec::new();
    let mut i: usize = 0;
    while i < v.len()
        invariant
            i <= v@.len(),
            out@.len() == i,
            forall|a: int, b: int| 0 <= a < b < v@.len() ==> v@[a] != v@[b],
            strictly_increasing(out@),
            forall|x: usize| out@.contains(x) <==> v@.take(i as int).contains(x),
        decreases v@.len() - i,
    {
        let e = v[i];
        let mut pos: usize = 0;
        while pos < out.len() && out[pos] < e
            invariant
                pos <= out@.len(),
                forall|j: int| 0 <= j < pos ==> out@[j] < e,
            decreases out@.len() - pos,
        {
            pos = pos + 1;
        }
        proof {
            if out@.contains(e) {
                let j = choose|j: int| 0 <= j < out@.len() && out@[j] == e;
                assert(v@.take(i as int).contains(e));
                let k = choose|k: int| 0 <= k < i && v@.take(i as int)[k] == e;
                assert(v@[k] == e && v@[i as int] == e);
                assert(false);
            }
            assert(pos < out@.len() ==> out@[pos as int] > e);
        }
        let ghost old_out = out@;
        out.insert(pos, e);
        proof {
            assert(out@ == old_out.insert(pos as int, e));
            assert forall|a: int, b: int| 0 <= a < b < out@.len() implies out@[a] < out@[b] by {
                let xa = if a < pos { old_out[a] } else if a == pos { e } else { old_out[a - 1] };
                let xb = if b < pos { old_out[b] } else if b == pos { e } else { old_out[b - 1] };
                assert(out@[a] == xa);
                assert(out@[b] == xb);
            }
            assert(v@.take(i + 1 as int) =~= v@.take(i as int) + seq![v@[i as int]]);
            assert forall|x: usize| out@.contains(x) implies v@.take(i + 1 as int).contains(x) by {
                let j = choose|j: int| 0 <= j < out@.len() && out@[j] == x;
                if j < pos {
                    assert(old_out[j] == x);
                    assert(old_out.contains(x));
                } else if j == pos {
                    assert(v@.take(i + 1 as int)[i as int] == e);
                } else {
                    assert(old_out[j - 1] == x);
                    assert(old_out.contains(x));
                }
            }
            assert forall|x: usize| v@.take(i + 1 as int).contains(x) implies out@.contains(x) by {
                let j = choose|j: int| 0 <= j < i + 1 && #[trigger] v@.take(i + 1 as int)[j] == x;
                if j < i {
                    assert(v@.take(i as int)[j] == x);
                    assert(v@.take(i as int).contains(x));
                    assert(old_out.contains(x));
                    let k = choose|k: int| 0 <= k < old_out.len() && #[trigger] old_out[k] == x;
                    if k < pos {
                        assert(out@[k] == x);
                    } else {
                        assert(out@[k + 1] == x);
                    }
                } else {
                    assert(x == e);
                    assert(out@[pos as int] == e);
                }
            }
        }
        i = i + 1;
    }
    proof {
        assert(v@.take(v@.len() as int) =~= v@);
    }
    out
}

/// Character-wise lexicographic order on character sequences.
pub open spec fn lex_le(a: Seq<char>, b: Seq<char>) -> bool
    decreases a.len(),
{
    if a.len() == 0 {
        true
    } else if b.len() == 0 {
        false
    } else if a[0] != b[0] {
        a[0] < b[0]
    } else {
        lex_le(a.skip(1), b.skip(1))
    }
}

/// Relies on `slice::sort` (reached through `Vec`): sorts in place by
/// `String`'s `Ord`, which orders strings by their UTF-8 bytes; on ASCII
/// strings that is exactly the character-wise lexicographic order. The
/// result is a permutation of the input.
#[verifier::external_body]
pub(crate) fn sort_names(v: &mut Vec<String>)
    requires
        forall|i: int| 0 <= i < old(v)@.len() ==> is_ascii_chars((#[trigger] old(v)@[i])@),
    ensures
        final(v)@.len() == old(v)@.len(),
        forall|i: int, j: int|
            0 <= i < j < final(v)@.len() ==> lex_le(
                (#[trigger] final(v)@[i])@,
                (#[trigger] final(v)@[j])@,
            ),
        final(v)@.map_values(|s: String| s@).to_multiset() == old(v)@.map_values(
            |s: String| s@,
        ).to_multiset(),
{
    v.sort();
}

} // verus!
