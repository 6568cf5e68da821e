//! Comparisons on string slices.
use vstd::prelude::*;

verus! {

/// `pattern` occurs as a contiguous run of characters in `text`.
pub open spec fn contains_run(text: Seq<char>, pattern: Seq<char>) -> bool {
    exists|start: int|
        0 <= start && start + pattern.len() <= text.len() && #[trigger] text.subrange(
            start,
            start + pattern.len(),
        ) == pattern
}

/// Two string slices hold the same characters.
pub fn text_eq(left: &str, right: &str) -> (equal: bool)
    ensures
        equal == (left@ == right@),
{
    let left_owned = left.to_owned();
    let right_owned = right.to_owned();
    left_owned == right_owned
}

/// Whether `pattern` occurs as a contiguous run of characters in `text`,
/// compared character by character at every start.
pub fn text_contains(text: &str, pattern: &str) -> (found: bool)
    ensures
        found == contains_run(text@, pattern@),
{
    let n = text.unicode_len();
    let m = pattern.unicode_len();
    if m > n {
        return false;
    }
    let mut start: usize = 0;
    while start <= n - m
        invariant
            n == text@.len(),
            m == pattern@.len(),
            m <= n,
            start <= n - m + 1,
            forall|s: int|
                0 <= s < start ==> #[trigger] text@.subrange(s, s + pattern@.len()) != pattern@,
        decreases n - m + 1 - start,
    {
        let mut k: usize = 0;
        let mut matched = true;
        while k < m
            invariant_except_break
                matched,
            invariant
                n == text@.len(),
                m == pattern@.len(),
                start + m <= n,
                k <= m,
                forall|j: int| 0 <= j < k ==> text@[start + j] == pattern@[j],
            ensures
                matched ==> k == m,
                !matched ==> k < m && text@[start + k] != pattern@[k as int],
            decreases m - k,
        {
            if text.get_char(start + k) != pattern.get_char(k) {
                matched = false;
                break;
            }
            k = k + 1;
        }
        if matched {
            assert(text@.subrange(start as int, start + pattern@.len()) =~= pattern@);
            return true;
        }
        assert(text@.subrange(start as int, start + pattern@.len())[k as int] != pattern@[k as int]);
        start = start + 1;
    }
    false
}

} // verus!
