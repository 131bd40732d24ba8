//! Substring search over text, used to detect the integration's identifier
//! in the assistant binary's free-text registration listing.

use vstd::prelude::*;

verus! {

/// The needle `n` occurs in the haystack `h` starting at character
/// position `i`.
pub open spec fn spec_match_at(h: Seq<char>, n: Seq<char>, i: int) -> bool {
    &&& 0 <= i
    &&& i + n.len() <= h.len()
    &&& h.subrange(i, i + n.len()) == n
}

/// The needle `n` occurs somewhere in the haystack `h`.
pub open spec fn spec_contains_substring(h: Seq<char>, n: Seq<char>) -> bool {
    exists|i: int| spec_match_at(h, n, i)
}

/// Does `n` occur in `h` starting at character position `i`?
fn match_at(h: &str, n: &str, i: usize) -> (r: bool)
    requires
        i + n@.len() <= h@.len(),
    ensures
        r == spec_match_at(h@, n@, i as int),
{
    let hl = h.unicode_len();
    let nl = n.unicode_len();
    let mut j: usize = 0;
    while j < nl
        invariant
            hl == h@.len(),
            nl == n@.len(),
            i + nl <= h@.len(),
            0 <= j <= nl,
            forall|k: int| 0 <= k < j ==> h@[i + k] == n@[k],
        decreases nl - j,
    {
        if h.get_char(i + j) != n.get_char(j) {
            assert(h@.subrange(i as int, i + n@.len())[j as int] != n@[j as int]);
            return false;
        }
        j = j + 1;
    }
    assert(h@.subrange(i as int, i + n@.len()) =~= n@);
    true
}

/// Does the needle `n` occur anywhere in the haystack `h`?
pub fn contains_substring(h: &str, n: &str) -> (r: bool)
    ensures
        r == spec_contains_substring(h@, n@),
{
    let hl = h.unicode_len();
    let nl = n.unicode_len();
    if nl > hl {
        assert(forall|i: int| !spec_match_at(h@, n@, i));
        return false;
    }
    let last = hl - nl;
    let mut i: usize = 0;
    loop
        invariant
            hl == h@.len(),
            nl == n@.len(),
            nl <= hl,
            last == hl - nl,
            0 <= i <= last,
            forall|k: int| 0 <= k < i ==> !spec_match_at(h@, n@, k),
        decreases last - i,
    {
        if match_at(h, n, i) {
            return true;
        }
        if i == last {
            assert(forall|k: int| k > last ==> !spec_match_at(h@, n@, k));
            return false;
        }
        i = i + 1;
    }
}

} // verus!
