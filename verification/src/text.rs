//! Comparison of texts, character by character.

use vstd::prelude::*;
use vstd::string::*;

verus! {

/// Whether `text` ends with `suffix`.
pub fn ends_with(text: &str, suffix: &str) -> (found: bool)
    ensures
        found == suffix@.is_suffix_of(text@),
{
    let n: usize = text.unicode_len();
    let m: usize = suffix.unicode_len();
    if n < m {
        return false;
    }
    let offset: usize = n - m;
    let mut i: usize = 0;
    while i < m
        invariant
            i <= m,
            offset + m == n,
            n == text@.len(),
            m == suffix@.len(),
            forall|j: int| 0 <= j < i ==> text@[offset + j] == suffix@[j],
        decreases m - i,
    {
        if text.get_char(offset + i) != suffix.get_char(i) {
            assert(text@.subrange(offset as int, n as int)[i as int] != suffix@[i as int]);
            return false;
        }
        i += 1;
    }
    assert(text@.subrange(offset as int, n as int) =~= suffix@);
    true
}

} // verus!
