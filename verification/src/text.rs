//! Character-level string comparison used by the token checks.

use vstd::prelude::*;
use vstd::string::StrSliceExecFns;

verus! {

/// True exactly when the `n` characters of `s` starting at `offset` equal
/// the first `n` characters of `t`.
pub fn range_eq(s: &str, offset: usize, t: &str, n: usize) -> (b: bool)
    requires
        offset + n <= s@.len(),
        offset + n <= usize::MAX,
        n <= t@.len(),
    ensures
        b == (s@.subrange(offset as int, offset + n) == t@.subrange(0, n as int)),
{
    let mut j: usize = 0;
    while j < n
        invariant
            0 <= j <= n,
            offset + n <= s@.len(),
            offset + n <= usize::MAX,
            n <= t@.len(),
            forall|k: int| 0 <= k < j ==> s@[offset + k] == t@[k],
        decreases n - j,
    {
        if s.get_char(offset + j) != t.get_char(j) {
            proof {
                let left = s@.subrange(offset as int, offset + n);
                let right = t@.subrange(0, n as int);
                assert(left[j as int] != right[j as int]);
            }
            return false;
        }
        j += 1;
    }
    proof {
        assert(s@.subrange(offset as int, offset + n) =~= t@.subrange(0, n as int));
    }
    true
}

} // verus!
