//! Text helpers: decimal rendering, prefix, suffix and substring tests.

use vstd::prelude::*;
use vstd::string::*;

verus! {

/// The character of the decimal digit `d` (for `0 <= d < 10`).
pub open spec fn digit_char(d: int) -> char {
    (48 + d) as char
}

/// The decimal rendering of `n`, most significant digit first, no leading zeros.
pub open spec fn decimal(n: nat) -> Seq<char>
    decreases n,
{
    if n < 10 {
        seq![digit_char(n as int)]
    } else {
        decimal(n / 10).push(digit_char((n % 10) as int))
    }
}

/// `p` is a prefix of `s`.
pub open spec fn has_prefix(s: Seq<char>, p: Seq<char>) -> bool {
    p.len() <= s.len() && s.take(p.len() as int) == p
}

/// `p` is a suffix of `s`.
pub open spec fn has_suffix(s: Seq<char>, p: Seq<char>) -> bool {
    p.len() <= s.len() && s.skip(s.len() - p.len()) == p
}

/// `p` occurs in `s` at position `i`.
pub open spec fn occurs_at(s: Seq<char>, p: Seq<char>, i: int) -> bool {
    0 <= i && i + p.len() <= s.len() && s.subrange(i, i + p.len()) == p
}

/// `p` occurs somewhere in `s`.
pub open spec fn contains_text(s: Seq<char>, p: Seq<char>) -> bool {
    exists|i: int| occurs_at(s, p, i)
}

fn digit_text(d: u64) -> (res: &'static str)
    requires
        d < 10,
    ensures
        res@ == seq![digit_char(d as int)],
{
    let digits = "0123456789";
    proof {
        reveal_strlit("0123456789");
    }
    let r = digits.substring_char(d as usize, d as usize + 1);
    assert(r@ =~= seq![digit_char(d as int)]);
    r
}

/// Renders `n` in decimal, as `to_string` does for unsigned integers.
pub fn decimal_string(n: u64) -> (res: String)
    ensures
        res@ == decimal(n as nat),
    decreases n,
{
    if n < 10 {
        String::from_str(digit_text(n))
    } else {
        let mut s = decimal_string(n / 10);
        s.append(digit_text(n % 10));
        s
    }
}

/// Whether `p` occurs in `s` starting at character `at`.
fn matches_at(s: &str, s_len: usize, p: &str, p_len: usize, at: usize) -> (res: bool)
    requires
        s_len == s@.len(),
        p_len == p@.len(),
    ensures
        res == occurs_at(s@, p@, at as int),
{
    if at > s_len || p_len > s_len - at {
        return false;
    }
    let mut k: usize = 0;
    while k < p_len
        invariant
            k <= p_len,
            p_len == p@.len(),
            s_len == s@.len(),
            at + p_len <= s_len,
            forall|j: int| 0 <= j < k ==> s@[at + j] == p@[j],
        decreases p_len - k,
    {
        if s.get_char(at + k) != p.get_char(k) {
            assert(s@.subrange(at as int, at + p@.len())[k as int] != p@[k as int]);
            return false;
        }
        k = k + 1;
    }
    assert(s@.subrange(at as int, at + p@.len()) =~= p@);
    true
}

/// Whether `s` and `t` are the same text.
pub fn same_text(s: &str, t: &str) -> (res: bool)
    ensures
        res == (s@ == t@),
{
    let s_len = s.unicode_len();
    let t_len = t.unicode_len();
    if s_len != t_len {
        return false;
    }
    let r = matches_at(s, s_len, t, t_len, 0);
    assert(s@.subrange(0, s@.len() as int) =~= s@);
    r
}

/// Whether `s` starts with `p`.
pub fn starts_with_text(s: &str, p: &str) -> (res: bool)
    ensures
        res == has_prefix(s@, p@),
{
    let s_len = s.unicode_len();
    let p_len = p.unicode_len();
    let r = matches_at(s, s_len, p, p_len, 0);
    assert(s@.subrange(0, p@.len() as int) =~= s@.take(p@.len() as int));
    r
}

/// Whether `s` ends with `p`.
pub fn ends_with_text(s: &str, p: &str) -> (res: bool)
    ensures
        res == has_suffix(s@, p@),
{
    let s_len = s.unicode_len();
    let p_len = p.unicode_len();
    if p_len > s_len {
        return false;
    }
    let r = matches_at(s, s_len, p, p_len, s_len - p_len);
    assert(s@.subrange(s@.len() - p@.len(), s@.len() as int) =~= s@.skip(s@.len() - p@.len()));
    r
}

/// Whether `p` occurs anywhere in `s`, as `str::contains` with a `&str` pattern.
pub fn contains(s: &str, p: &str) -> (res: bool)
    ensures
        res == contains_text(s@, p@),
{
    let s_len = s.unicode_len();
    let p_len = p.unicode_len();
    if p_len > s_len {
        assert forall|i: int| !occurs_at(s@, p@, i) by {}
        return false;
    }
    let last = s_len - p_len;
    let mut at: usize = 0;
    while at < last
        invariant
            s_len == s@.len(),
            p_len == p@.len(),
            last == s_len - p_len,
            at <= last,
            forall|i: int| 0 <= i < at ==> !occurs_at(s@, p@, i),
        decreases last - at,
    {
        if matches_at(s, s_len, p, p_len, at) {
            return true;
        }
        at = at + 1;
    }
    if matches_at(s, s_len, p, p_len, last) {
        return true;
    }
    assert forall|i: int| !occurs_at(s@, p@, i) by {}
    false
}

} // verus!
