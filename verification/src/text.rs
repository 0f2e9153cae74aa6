//! Searching a text for another.

use vstd::prelude::*;
use vstd::string::*;

verus! {

/// Whether `needle` stands in `haystack` at the given place.
pub open spec fn occurs_at(needle: Seq<u8>, haystack: Seq<u8>, at: int) -> bool {
    &&& 0 <= at
    &&& at + needle.len() <= haystack.len()
    &&& haystack.subrange(at, at + needle.len()) == needle
}

/// Whether `needle` stands somewhere in `haystack`.
pub open spec fn occurs_in(needle: Seq<u8>, haystack: Seq<u8>) -> bool {
    exists|at: int| occurs_at(needle, haystack, at)
}

/// Whether the first `length` bytes of `needle` stand in `haystack` at the
/// given place.
spec fn agrees(needle: Seq<u8>, haystack: Seq<u8>, at: int, length: int) -> bool {
    forall|k: int| 0 <= k < length ==> haystack[at + k] == needle[k]
}

fn matches_at(needle: &[u8], haystack: &[u8], at: usize) -> (found: bool)
    requires
        at + needle@.len() <= haystack@.len(),
    ensures
        found == occurs_at(needle@, haystack@, at as int),
{
    let length: usize = haystack.len();
    let mut k: usize = 0;
    while k < needle.len()
        invariant
            k <= needle@.len(),
            at + needle@.len() <= haystack@.len(),
            haystack@.len() <= usize::MAX,
            agrees(needle@, haystack@, at as int, k as int),
        decreases needle@.len() - k,
    {
        if haystack[at + k] != needle[k] {
            return false;
        }
        k = k + 1;
    }
    assert(haystack@.subrange(at as int, at + needle@.len()) =~= needle@);
    true
}

/// Whether the bytes of `needle` stand somewhere in the bytes of `haystack`.
pub fn contains_bytes(haystack: &[u8], needle: &[u8]) -> (found: bool)
    ensures
        found == occurs_in(needle@, haystack@),
{
    if needle.len() > haystack.len() {
        return false;
    }
    let last: usize = haystack.len() - needle.len();
    let mut at: usize = 0;
    while at < last
        invariant
            at <= last,
            last + needle@.len() == haystack@.len(),
            forall|earlier: int| 0 <= earlier < at ==> !occurs_at(needle@, haystack@, earlier),
        decreases last - at,
    {
        if matches_at(needle, haystack, at) {
            return true;
        }
        at = at + 1;
    }
    matches_at(needle, haystack, last)
}

/// Whether `needle` stands somewhere in `haystack`: whether the bytes that
/// encode the one stand somewhere in the bytes that encode the other.
pub fn contains(haystack: &str, needle: &str) -> (found: bool)
    ensures
        found == occurs_in(needle.spec_bytes(), haystack.spec_bytes()),
{
    contains_bytes(haystack.as_bytes(), needle.as_bytes())
}

} // verus!
