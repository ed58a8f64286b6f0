//! Reading command-line tokens: the iteration count and the strategy.
use vstd::prelude::*;

verus! {

/// Which strategy's results a run reports.
#[derive(Clone, Copy, Debug, PartialEq, Eq, Structural)]
pub enum Strategy {
    Stay,
    Switch,
    Both,
}

pub open spec fn is_digit(c: char) -> bool {
    '0' <= c && c <= '9'
}

pub open spec fn digit_value(c: char) -> int {
    (c as int) - ('0' as int)
}

/// The value of a sequence of decimal digits, most significant first.
pub open spec fn digits_value(s: Seq<char>) -> int
    decreases s.len(),
{
    if s.len() == 0 {
        0
    } else {
        digits_value(s.drop_last()) * 10 + digit_value(s.last())
    }
}

pub open spec fn all_digits(s: Seq<char>) -> bool {
    forall|i: int| 0 <= i < s.len() ==> is_digit(#[trigger] s[i])
}

/// The digits of an unsigned decimal numeral: an optional leading `+` is dropped.
pub open spec fn unsigned_digits(s: Seq<char>) -> Seq<char> {
    if s.len() > 0 && s[0] == '+' {
        s.skip(1)
    } else {
        s
    }
}

/// What a base-10 `u128` numeral denotes: an optional `+`, then one or more
/// decimal digits whose value fits in `u128`; anything else is no number.
pub open spec fn decimal_u128(s: Seq<char>) -> Option<u128> {
    let d = unsigned_digits(s);
    if d.len() > 0 && all_digits(d) && digits_value(d) <= u128::MAX {
        Some(digits_value(d) as u128)
    } else {
        None
    }
}

/// The strategy that a token names, matched exactly and case-sensitively.
pub open spec fn strategy_named(s: Seq<char>) -> Option<Strategy> {
    if s == "STAY"@ {
        Some(Strategy::Stay)
    } else if s == "SWITCH"@ {
        Some(Strategy::Switch)
    } else if s == "BOTH"@ {
        Some(Strategy::Both)
    } else {
        None
    }
}

proof fn lemma_digits_value_nonneg(s: Seq<char>)
    requires
        all_digits(s),
    ensures
        digits_value(s) >= 0,
    decreases s.len(),
{
    if s.len() > 0 {
        assert(all_digits(s.drop_last()));
        lemma_digits_value_nonneg(s.drop_last());
        assert(is_digit(s[s.len() - 1]));
    }
}

/// A numeral's value is at least that of each of its prefixes.
proof fn lemma_digits_value_prefix(s: Seq<char>, k: int)
    requires
        all_digits(s),
        0 <= k <= s.len(),
    ensures
        digits_value(s.subrange(0, k)) <= digits_value(s),
    decreases s.len(),
{
    if k < s.len() {
        assert(all_digits(s.drop_last()));
        lemma_digits_value_prefix(s.drop_last(), k);
        assert(s.drop_last().subrange(0, k) == s.subrange(0, k));
        lemma_digits_value_nonneg(s.drop_last());
        assert(is_digit(s[s.len() - 1]));
    } else {
        assert(s.subrange(0, k) == s);
    }
}

/// Whether `a` and `b` hold the same characters.
pub fn str_eq(a: &str, b: &str) -> (r: bool)
    ensures
        r == (a@ == b@),
{
    let n = a.unicode_len();
    if n != b.unicode_len() {
        return false;
    }
    let mut i: usize = 0;
    while i < n
        invariant
            n == a@.len(),
            n == b@.len(),
            i <= n,
            forall|j: int| 0 <= j < i ==> a@[j] == b@[j],
        decreases n - i,
    {
        if a.get_char(i) != b.get_char(i) {
            return false;
        }
        i = i + 1;
    }
    assert(a@ =~= b@);
    true
}

/// Reads an iteration count written in base 10.
pub fn parse_iterations(s: &str) -> (r: Option<u128>)
    ensures
        r == decimal_u128(s@),
{
    let n = s.unicode_len();
    let mut start: usize = 0;
    if n > 0 && s.get_char(0) == '+' {
        start = 1;
    }
    let ghost d = unsigned_digits(s@);
    assert(d == s@.subrange(start as int, n as int));
    if start >= n {
        return None;
    }
    let mut i: usize = start;
    let mut v: u128 = 0;
    while i < n
        invariant
            n == s@.len(),
            d == unsigned_digits(s@),
            d == s@.subrange(start as int, n as int),
            start < n,
            start <= i <= n,
            all_digits(d.subrange(0, i - start)),
            v == digits_value(d.subrange(0, i - start)),
        decreases n - i,
    {
        let c = s.get_char(i);
        let ghost k = i - start;
        if !('0' <= c && c <= '9') {
            assert(d[k] == c);
            assert(!is_digit(d[k]));
            return None;
        }
        let ghost p = d.subrange(0, k + 1);
        assert(p.drop_last() == d.subrange(0, k));
        assert(p.last() == c);
        assert(all_digits(p));
        let dv: u128 = (c as u32 - '0' as u32) as u128;
        assert(dv == digit_value(c));
        assert(digits_value(p) == v * 10 + dv);
        let m = v.checked_mul(10);
        if m.is_none() {
            proof {
                if all_digits(d) {
                    lemma_digits_value_nonneg(d.subrange(0, k));
                    lemma_digits_value_prefix(d, k + 1);
                }
            }
            return None;
        }
        let t = m.unwrap().checked_add(dv);
        if t.is_none() {
            proof {
                if all_digits(d) {
                    lemma_digits_value_prefix(d, k + 1);
                }
            }
            return None;
        }
        v = t.unwrap();
        i = i + 1;
    }
    assert(d.subrange(0, n - start) == d);
    Some(v)
}

/// Reads a strategy token: `STAY`, `SWITCH` or `BOTH`, exactly.
pub fn parse_strategy(s: &str) -> (r: Option<Strategy>)
    ensures
        r == strategy_named(s@),
{
    if str_eq(s, "STAY") {
        Some(Strategy::Stay)
    } else if str_eq(s, "SWITCH") {
        Some(Strategy::Switch)
    } else if str_eq(s, "BOTH") {
        Some(Strategy::Both)
    } else {
        None
    }
}

} // verus!
