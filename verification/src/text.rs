//! Substring and suffix matching on strings, the core of the staleness
//! heuristic: a file name is stale when it ends with `.bak` or contains
//! `unused` or `legacy`, matched case-sensitively.

use vstd::prelude::*;

verus! {

/// `sub` occurs in `s` starting at position `i`.
pub open spec fn is_match_at(s: Seq<char>, sub: Seq<char>, i: int) -> bool {
    0 <= i && i + sub.len() <= s.len() && s.subrange(i, i + sub.len()) == sub
}

/// `sub` occurs somewhere in `s`.
pub open spec fn seq_contains(s: Seq<char>, sub: Seq<char>) -> bool {
    exists|i: int| is_match_at(s, sub, i)
}

/// `s` ends with the suffix `suf`.
pub open spec fn seq_ends_with(s: Seq<char>, suf: Seq<char>) -> bool {
    suf.len() <= s.len() && s.subrange(s.len() - suf.len(), s.len() as int) == suf
}

/// Compare `sub` against the characters of `s` starting at position `i`.
fn matches_at(s: &str, sub: &str, i: usize) -> (r: bool)
    requires
        i + sub@.len() <= s@.len(),
    ensures
        r == is_match_at(s@, sub@, i as int),
{
    let s_len = s.unicode_len();
    let sub_len = sub.unicode_len();
    let mut j: usize = 0;
    while j < sub_len
        invariant
            s_len == s@.len(),
            sub_len == sub@.len(),
            i + sub_len <= s_len,
            j <= sub_len,
            forall|k: int| 0 <= k < j ==> s@[i + k] == sub@[k],
        decreases sub_len - j,
    {
        if s.get_char(i + j) != sub.get_char(j) {
            assert(!is_match_at(s@, sub@, i as int)) by {
                if is_match_at(s@, sub@, i as int) {
                    assert(s@.subrange(i as int, i + sub@.len())[j as int] == sub@[j as int]);
                }
            }
            return false;
        }
        j = j + 1;
    }
    assert(s@.subrange(i as int, i + sub@.len()) =~= sub@);
    true
}

/// Whether `sub` occurs anywhere in `s`, matched case-sensitively.
pub fn str_contains(s: &str, sub: &str) -> (r: bool)
    ensures
        r == seq_contains(s@, sub@),
{
    let s_len = s.unicode_len();
    let sub_len = sub.unicode_len();
    if sub_len > s_len {
        assert(!seq_contains(s@, sub@)) by {
            if seq_contains(s@, sub@) {
                let i = choose|i: int| is_match_at(s@, sub@, i);
            }
        }
        return false;
    }
    if sub_len == 0 {
        assert(s@.subrange(0, 0) =~= sub@);
        assert(is_match_at(s@, sub@, 0));
        return true;
    }
    let mut i: usize = 0;
    while i <= s_len - sub_len
        invariant
            s_len == s@.len(),
            sub_len == sub@.len(),
            0 < sub_len <= s_len,
            i <= s_len - sub_len + 1,
            forall|k: int| 0 <= k < i ==> !is_match_at(s@, sub@, k),
        decreases s_len - sub_len + 1 - i,
    {
        if matches_at(s, sub, i) {
            return true;
        }
        i = i + 1;
    }
    assert(!seq_contains(s@, sub@)) by {
        if seq_contains(s@, sub@) {
            let k = choose|k: int| is_match_at(s@, sub@, k);
        }
    }
    false
}

/// Whether `s` ends with the suffix `suf`, matched case-sensitively.
pub fn str_ends_with(s: &str, suf: &str) -> (r: bool)
    ensures
        r == seq_ends_with(s@, suf@),
{
    let s_len = s.unicode_len();
    let suf_len = suf.unicode_len();
    if suf_len > s_len {
        return false;
    }
    matches_at(s, suf, s_len - suf_len)
}

/// A file name is stale when it ends with the backup suffix `.bak` or
/// contains the substring `unused` or `legacy`.
pub open spec fn spec_stale_name(name: Seq<char>) -> bool {
    ||| seq_ends_with(name, ".bak"@)
    ||| seq_contains(name, "unused"@)
    ||| seq_contains(name, "legacy"@)
}

/// Whether a file name matches the staleness heuristic.
pub fn stale_name(name: &str) -> (r: bool)
    ensures
        r == spec_stale_name(name@),
{
    str_ends_with(name, ".bak") || str_contains(name, "unused") || str_contains(name, "legacy")
}

} // verus!
