//! Decimal renderings of machine integers, used to stamp generated
//! identifiers (monitor names, device paths, device ids) with a counter.
//! The key facts proved here are that the rendering is injective and that
//! a rendered counter can be recovered as the maximal digit suffix of a
//! larger identifier, which is what makes identifiers built from distinct
//! counters pairwise distinct.

use vstd::prelude::*;
use vstd::string::StringExecFns;

verus! {

pub open spec fn is_digit_char(c: char) -> bool {
    '0' <= c && c <= '9'
}

/// The decimal digit character for `d` (meaningful for `0 <= d < 10`).
pub open spec fn digit_char(d: int) -> char {
    if d == 0 {
        '0'
    } else if d == 1 {
        '1'
    } else if d == 2 {
        '2'
    } else if d == 3 {
        '3'
    } else if d == 4 {
        '4'
    } else if d == 5 {
        '5'
    } else if d == 6 {
        '6'
    } else if d == 7 {
        '7'
    } else if d == 8 {
        '8'
    } else {
        '9'
    }
}

/// The usual decimal rendering of `n`, without leading zeroes
/// (except for `n == 0`, rendered as "0").
pub open spec fn dec_seq(n: nat) -> Seq<char>
    decreases n,
{
    if n < 10 {
        seq![digit_char(n as int)]
    } else {
        dec_seq(n / 10) + seq![digit_char((n % 10) as int)]
    }
}

pub proof fn lemma_dec_seq_basic(n: nat)
    ensures
        dec_seq(n).len() >= 1,
        n >= 10 ==> dec_seq(n).len() >= 2,
        forall|i: int| 0 <= i < dec_seq(n).len() ==> is_digit_char(#[trigger] dec_seq(n)[i]),
    decreases n,
{
    if n >= 10 {
        lemma_dec_seq_basic(n / 10);
    }
}

/// Digit characters are ASCII.
pub proof fn lemma_dec_seq_ascii(n: nat)
    ensures
        forall|i: int| 0 <= i < dec_seq(n).len() ==> '\0' <= #[trigger] dec_seq(n)[i] <= '\u{7f}',
{
    lemma_dec_seq_basic(n);
}

/// Distinct numbers have distinct decimal renderings.
pub proof fn lemma_dec_seq_injective(a: nat, b: nat)
    requires
        dec_seq(a) == dec_seq(b),
    ensures
        a == b,
    decreases a + b,
{
    if a < 10 && b < 10 {
        assert(dec_seq(a)[0] == digit_char(a as int));
        assert(dec_seq(b)[0] == digit_char(b as int));
    } else if a < 10 && b >= 10 {
        lemma_dec_seq_basic(b);
        assert(dec_seq(a).len() == 1);
    } else if a >= 10 && b < 10 {
        lemma_dec_seq_basic(a);
        assert(dec_seq(b).len() == 1);
    } else {
        assert(dec_seq(a).last() == digit_char((a % 10) as int));
        assert(dec_seq(b).last() == digit_char((b % 10) as int));
        assert(a % 10 == b % 10);
        assert(dec_seq(a).drop_last() =~= dec_seq(a / 10));
        assert(dec_seq(b).drop_last() =~= dec_seq(b / 10));
        lemma_dec_seq_injective(a / 10, b / 10);
    }
}

/// Appending distinct suffixes to one shared prefix gives distinct sequences.
pub proof fn lemma_prefix_append_injective(p: Seq<char>, a: nat, b: nat)
    requires
        p + dec_seq(a) == p + dec_seq(b),
    ensures
        a == b,
{
    assert(dec_seq(a) =~= dec_seq(b)) by {
        assert((p + dec_seq(a)).len() == p.len() + dec_seq(a).len());
        assert((p + dec_seq(b)).len() == p.len() + dec_seq(b).len());
        assert(dec_seq(a).len() == dec_seq(b).len());
        assert forall|i: int| 0 <= i < dec_seq(a).len() implies dec_seq(a)[i] == dec_seq(b)[i] by {
            assert((p + dec_seq(a))[p.len() + i] == dec_seq(a)[i]);
            assert((p + dec_seq(b))[p.len() + i] == dec_seq(b)[i]);
        }
    }
    lemma_dec_seq_injective(a, b);
}

/// The length of the maximal all-digit suffix of `s`.
pub open spec fn digit_suffix_len(s: Seq<char>) -> nat
    decreases s.len(),
{
    if s.len() == 0 {
        0
    } else if is_digit_char(s.last()) {
        1 + digit_suffix_len(s.drop_last())
    } else {
        0
    }
}

/// When a non-digit-terminated stem is followed by an all-digit suffix,
/// the maximal digit suffix is exactly that suffix.
pub proof fn lemma_digit_suffix_of_append(stem: Seq<char>, d: Seq<char>)
    requires
        stem.len() > 0,
        !is_digit_char(stem.last()),
        forall|i: int| 0 <= i < d.len() ==> is_digit_char(#[trigger] d[i]),
    ensures
        digit_suffix_len(stem + d) == d.len(),
    decreases d.len(),
{
    if d.len() == 0 {
        assert(stem + d =~= stem);
    } else {
        assert((stem + d).last() == d.last());
        assert((stem + d).drop_last() =~= stem + d.drop_last());
        lemma_digit_suffix_of_append(stem, d.drop_last());
    }
}

/// Two identifiers, each a non-digit-terminated stem followed by a rendered
/// counter, are equal only if the counters are equal.
pub proof fn lemma_stamped_equal_counters(s1: Seq<char>, s2: Seq<char>, a: nat, b: nat)
    requires
        s1.len() > 0,
        !is_digit_char(s1.last()),
        s2.len() > 0,
        !is_digit_char(s2.last()),
        s1 + dec_seq(a) == s2 + dec_seq(b),
    ensures
        a == b,
{
    lemma_dec_seq_basic(a);
    lemma_dec_seq_basic(b);
    lemma_digit_suffix_of_append(s1, dec_seq(a));
    lemma_digit_suffix_of_append(s2, dec_seq(b));
    let whole = s1 + dec_seq(a);
    assert(dec_seq(a).len() == dec_seq(b).len());
    assert(s1.len() == s2.len());
    assert(dec_seq(a) =~= dec_seq(b)) by {
        assert forall|i: int| 0 <= i < dec_seq(a).len() implies dec_seq(a)[i] == dec_seq(b)[i] by {
            assert((s1 + dec_seq(a))[s1.len() + i] == dec_seq(a)[i]);
            assert((s2 + dec_seq(b))[s2.len() + i] == dec_seq(b)[i]);
        }
    }
    lemma_dec_seq_injective(a, b);
}

/// The one-character string for a decimal digit.
fn digit_str(d: u64) -> (r: &'static str)
    requires
        d < 10,
    ensures
        r@ == seq![digit_char(d as int)],
{
    proof {
        reveal_strlit("0");
        reveal_strlit("1");
        reveal_strlit("2");
        reveal_strlit("3");
        reveal_strlit("4");
        reveal_strlit("5");
        reveal_strlit("6");
        reveal_strlit("7");
        reveal_strlit("8");
        reveal_strlit("9");
    }
    let r: &'static str = if d == 0 {
        "0"
    } else if d == 1 {
        "1"
    } else if d == 2 {
        "2"
    } else if d == 3 {
        "3"
    } else if d == 4 {
        "4"
    } else if d == 5 {
        "5"
    } else if d == 6 {
        "6"
    } else if d == 7 {
        "7"
    } else if d == 8 {
        "8"
    } else {
        "9"
    };
    proof {
        assert(r@ =~= seq![digit_char(d as int)]);
    }
    r
}

/// Renders `n` in decimal.
pub fn dec_string(n: u64) -> (r: String)
    ensures
        r@ == dec_seq(n as nat),
    decreases n,
{
    if n < 10 {
        digit_str(n).to_owned()
    } else {
        let mut s = dec_string(n / 10);
        s.append(digit_str(n % 10));
        proof {
            assert(s@ =~= dec_seq(n as nat));
        }
        s
    }
}

} // verus!
