use vstd::prelude::*;
use vstd::utf8::encode_utf8;

verus! {

/// The transport's duplicate-submission marker: an error text that contains
/// it means the transaction already reached the pending pool, so the prior
/// submission is authoritative and no error should surface.
pub open spec fn duplicate_marker() -> Seq<u8> {
    encode_utf8("already known"@)
}

pub open spec fn contains_at(haystack: Seq<u8>, needle: Seq<u8>, i: int) -> bool {
    0 <= i && i + needle.len() <= haystack.len() && haystack.subrange(i, i + needle.len()) == needle
}

pub open spec fn contains_bytes(haystack: Seq<u8>, needle: Seq<u8>) -> bool {
    exists|i: int| contains_at(haystack, needle, i)
}

fn match_at(haystack: &[u8], needle: &[u8], i: usize) -> (r: bool)
    requires
        i + needle@.len() <= haystack@.len(),
    ensures
        r == (haystack@.subrange(i as int, i + needle@.len()) == needle@),
{
    let n = haystack.len();
    let m = needle.len();
    let mut j: usize = 0;
    while j < m
        invariant
            n == haystack@.len(),
            m == needle@.len(),
            i + m <= n,
            j <= m,
            forall|t: int| 0 <= t < j ==> haystack@[i + t] == needle@[t],
        decreases m - j,
    {
        if haystack[i + j] != needle[j] {
            proof {
                assert(haystack@.subrange(i as int, i + m)[j as int] != needle@[j as int]);
            }
            return false;
        }
        j += 1;
    }
    proof {
        assert(haystack@.subrange(i as int, i + m) =~= needle@);
    }
    true
}

/// Whether `needle` occurs as a contiguous run inside `haystack`.
pub fn find_bytes(haystack: &[u8], needle: &[u8]) -> (r: bool)
    ensures
        r == contains_bytes(haystack@, needle@),
{
    let n = haystack.len();
    let m = needle.len();
    if m > n {
        return false;
    }
    if m == 0 {
        proof {
            assert(haystack@.subrange(0, 0) =~= needle@);
            assert(contains_at(haystack@, needle@, 0));
        }
        return true;
    }
    let mut i: usize = 0;
    while i <= n - m
        invariant
            0 < m <= n,
            n == haystack@.len(),
            m == needle@.len(),
            i <= n - m + 1,
            forall|k: int| 0 <= k < i ==> !contains_at(haystack@, needle@, k),
        decreases n - m + 1 - i,
    {
        if match_at(haystack, needle, i) {
            proof {
                assert(contains_at(haystack@, needle@, i as int));
            }
            return true;
        }
        i += 1;
    }
    false
}

/// Classifies a submission error by its text: `true` means the transaction
/// was already accepted into the pending pool, which the settlement policy
/// treats as success rather than failure.
pub fn is_duplicate_submission(message: &[u8]) -> (r: bool)
    ensures
        r == contains_bytes(message@, duplicate_marker()),
{
    find_bytes(message, "already known".as_bytes())
}

} // verus!
