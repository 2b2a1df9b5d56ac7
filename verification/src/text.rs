//! Case-sensitive substring matching over class names.
//!
//! The service's answer turns on whether a predicted class name
//! contains one of the configured target terms (for the shipped
//! configuration: `"fox"` or `"vulpes"`), so the containment test is verified
//! here character by character.

use vstd::prelude::*;
use vstd::string::StrSliceExecFns;

verus! {

/// The pattern occurs in `text` starting at character position `i`.
pub open spec fn match_at(text: Seq<char>, pat: Seq<char>, i: int) -> bool {
    &&& 0 <= i
    &&& i + pat.len() <= text.len()
    &&& forall|l: int| 0 <= l < pat.len() ==> text[i + l] == pat[l]
}

/// The pattern occurs somewhere in `text` (the empty pattern occurs in every
/// text).
pub open spec fn contains_term(text: Seq<char>, pat: Seq<char>) -> bool {
    exists|i: int| match_at(text, pat, i)
}

/// Case-sensitive substring containment: does `text` contain `pat`?
pub fn str_contains_term(text: &str, pat: &str) -> (b: bool)
    ensures
        b == contains_term(text@, pat@),
{
    let n = text.unicode_len();
    let m = pat.unicode_len();
    if m > n {
        proof {
            assert(forall|i: int| !match_at(text@, pat@, i));
        }
        return false;
    }
    let mut i: usize = 0;
    while i <= n - m
        invariant
            m <= n,
            n == text@.len(),
            m == pat@.len(),
            0 <= i <= n - m + 1,
            forall|x: int| 0 <= x < i ==> !match_at(text@, pat@, x),
        decreases n + 1 - m - i,
    {
        let mut l: usize = 0;
        let mut ok: bool = true;
        while l < m
            invariant
                0 <= l <= m,
                i + m <= n,
                n == text@.len(),
                m == pat@.len(),
                ok ==> forall|y: int| 0 <= y < l ==> text@[i + y] == pat@[y],
                !ok ==> !match_at(text@, pat@, i as int),
            decreases m - l,
        {
            let c_text: char = text.get_char(i + l);
            let c_pat: char = pat.get_char(l);
            if c_text != c_pat {
                ok = false;
            }
            l = l + 1;
        }
        if ok {
            proof {
                assert(match_at(text@, pat@, i as int));
            }
            return true;
        }
        i = i + 1;
    }
    proof {
        assert forall|x: int| !match_at(text@, pat@, x) by {
            if 0 <= x < i {
                assert(!match_at(text@, pat@, x));
            }
        }
    }
    false
}

/// The name contains at least one of the target terms.
pub open spec fn name_matches(name: Seq<char>, terms: Seq<String>) -> bool {
    exists|t: int| 0 <= t < terms.len() && contains_term(name, terms[t]@)
}

/// Does `name` contain any of the configured target terms?
pub fn matches_any(name: &str, terms: &Vec<String>) -> (b: bool)
    ensures
        b == name_matches(name@, terms@),
{
    let mut t: usize = 0;
    while t < terms.len()
        invariant
            0 <= t <= terms@.len(),
            forall|u: int| 0 <= u < t ==> !contains_term(name@, terms@[u]@),
        decreases terms@.len() - t,
    {
        if str_contains_term(name, terms[t].as_str()) {
            return true;
        }
        t = t + 1;
    }
    false
}

} // verus!
