//! Case-insensitive substring matching over strings.
//!
//! Distribution classification works by looking for fixed ASCII keywords in a
//! system-identification text, ignoring ASCII case.  The spec-level notion is
//! `contains_fold`; `contains_ignore_case` is the verified search.

use vstd::prelude::*;

verus! {

/// The code point of a character after folding ASCII upper case to lower case.
pub open spec fn fold_char(c: char) -> int {
    if 65 <= c as int && c as int <= 90 {
        c as int + 32
    } else {
        c as int
    }
}

/// `pat` occurs in `text` at offset `i`, up to ASCII case.
pub open spec fn matches_at(text: Seq<char>, pat: Seq<char>, i: int) -> bool {
    forall|j: int| 0 <= j < pat.len() ==> fold_char(text[i + j]) == fold_char(pat[j])
}

/// `pat` occurs somewhere in `text`, up to ASCII case.
pub open spec fn contains_fold(text: Seq<char>, pat: Seq<char>) -> bool {
    exists|i: int| 0 <= i && i + pat.len() <= text.len() && matches_at(text, pat, i)
}

/// The two characters are equal up to ASCII case.
fn fold_eq(a: char, b: char) -> (r: bool)
    ensures
        r == (fold_char(a) == fold_char(b)),
{
    let x: u32 = a as u32;
    let y: u32 = b as u32;
    let xf: u32 = if 65 <= x && x <= 90 { x + 32 } else { x };
    let yf: u32 = if 65 <= y && y <= 90 { y + 32 } else { y };
    xf == yf
}

/// Whether `pat` occurs in `text`, ignoring ASCII case.
pub fn contains_ignore_case(text: &str, pat: &str) -> (r: bool)
    ensures
        r == contains_fold(text@, pat@),
{
    let n: usize = text.unicode_len();
    let m: usize = pat.unicode_len();
    if m > n {
        return false;
    }
    let mut i: usize = 0;
    while i <= n - m
        invariant
            m <= n,
            n == text@.len(),
            m == pat@.len(),
            i <= n - m + 1,
            forall|k: int| 0 <= k < i ==> !matches_at(text@, pat@, k),
        decreases n - m - i + 1,
    {
        let mut j: usize = 0;
        let mut mismatch = false;
        while j < m && !mismatch
            invariant
                m <= n,
                n == text@.len(),
                m == pat@.len(),
                i + m <= n,
                j <= m,
                !mismatch ==> forall|t: int| 0 <= t < j ==> fold_char(text@[i + t]) == fold_char(
                    pat@[t],
                ),
                mismatch ==> !matches_at(text@, pat@, i as int),
            decreases m - j + (if mismatch { 0int } else { 1int }),
        {
            if fold_eq(text.get_char(i + j), pat.get_char(j)) {
                j = j + 1;
            } else {
                proof {
                    assert(fold_char(text@[i as int + j as int]) != fold_char(pat@[j as int]));
                }
                mismatch = true;
            }
        }
        if !mismatch {
            proof {
                assert(matches_at(text@, pat@, i as int));
            }
            return true;
        }
        i = i + 1;
    }
    proof {
        assert forall|k: int| 0 <= k && k + pat@.len() <= text@.len() implies !matches_at(
            text@,
            pat@,
            k,
        ) by {
            assert(k < i);
        }
    }
    false
}

/// Whether the two strings hold the same characters.
pub fn str_eq(a: &str, b: &str) -> (r: bool)
    ensures
        r == (a@ == b@),
{
    let n: usize = a.unicode_len();
    let m: usize = b.unicode_len();
    if n != m {
        return false;
    }
    let mut i: usize = 0;
    while i < n
        invariant
            n == a@.len(),
            n == b@.len(),
            i <= n,
            forall|k: int| 0 <= k < i ==> a@[k] == b@[k],
        decreases n - i,
    {
        if a.get_char(i) != b.get_char(i) {
            return false;
        }
        i = i + 1;
    }
    proof {
        assert(a@ =~= b@);
    }
    true
}

} // verus!
